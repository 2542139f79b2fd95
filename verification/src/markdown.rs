//! The Markdown adapter. Loading and hashing are not provided yet: both report
//! so.

use vstd::prelude::*;

use crate::adapter::{AdapterError, AdapterOperation, DocumentAdapter, LoadedDocument};
use crate::model::DocumentFormat;

verus! {

/// The adapter for Markdown documents.
#[derive(Debug, Clone, Copy, PartialEq, Eq, Structural)]
pub struct MarkdownAdapter;

impl DocumentAdapter for MarkdownAdapter {
    open spec fn handled_format(&self) -> DocumentFormat {
        DocumentFormat::Markdown
    }

    fn format(&self) -> (f: DocumentFormat) {
        DocumentFormat::Markdown
    }

    fn load(&self, path: &str) -> (r: Result<LoadedDocument, AdapterError>)
        ensures
            r == Err::<LoadedDocument, AdapterError>(
                AdapterError::NotImplemented {
                    format: DocumentFormat::Markdown,
                    operation: AdapterOperation::Load,
                },
            ),
    {
        Err(AdapterError::NotImplemented { format: DocumentFormat::Markdown, operation: AdapterOperation::Load })
    }

    fn content_hash(&self, path: &str) -> (r: Result<String, AdapterError>)
        ensures
            r == Err::<String, AdapterError>(
                AdapterError::NotImplemented {
                    format: DocumentFormat::Markdown,
                    operation: AdapterOperation::ContentHash,
                },
            ),
    {
        Err(AdapterError::NotImplemented { format: DocumentFormat::Markdown, operation: AdapterOperation::ContentHash })
    }
}

} // verus!
