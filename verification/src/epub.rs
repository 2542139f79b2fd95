//! The EPUB adapter. Loading and hashing are not provided yet: both report
//! so.

use vstd::prelude::*;

use crate::adapter::{AdapterError, AdapterOperation, DocumentAdapter, LoadedDocument};
use crate::model::DocumentFormat;

verus! {

/// The adapter for EPUB documents.
#[derive(Debug, Clone, Copy, PartialEq, Eq, Structural)]
pub struct EpubAdapter;

impl DocumentAdapter for EpubAdapter {
    open spec fn handled_format(&self) -> DocumentFormat {
        DocumentFormat::Epub
    }

    fn format(&self) -> (f: DocumentFormat) {
        DocumentFormat::Epub
    }

    fn load(&self, path: &str) -> (r: Result<LoadedDocument, AdapterError>)
        ensures
            r == Err::<LoadedDocument, AdapterError>(
                AdapterError::NotImplemented {
                    format: DocumentFormat::Epub,
                    operation: AdapterOperation::Load,
                },
            ),
    {
        Err(AdapterError::NotImplemented { format: DocumentFormat::Epub, operation: AdapterOperation::Load })
    }

    fn content_hash(&self, path: &str) -> (r: Result<String, AdapterError>)
        ensures
            r == Err::<String, AdapterError>(
                AdapterError::NotImplemented {
                    format: DocumentFormat::Epub,
                    operation: AdapterOperation::ContentHash,
                },
            ),
    {
        Err(AdapterError::NotImplemented { format: DocumentFormat::Epub, operation: AdapterOperation::ContentHash })
    }
}

} // verus!
