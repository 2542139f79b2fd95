//! The interface shared by every document format, the choice of an
//! adapter for a format, and format detection from a file path.

use vstd::prelude::*;

use crate::epub::EpubAdapter;
use crate::markdown::MarkdownAdapter;
use crate::model::{format_name, Block, Chapter, DocumentFormat, DocumentMeta};
use crate::path_text::{
    ascii_lowercase, extension_of_path, is_ascii_text, is_portable_path, lemma_extension_is_ascii,
    lemma_lowered_extension_of_lowered_path, path_extension, path_extension_of,
};
use crate::pdf::PdfAdapter;

verus! {

/// What loading a document yields: its metadata, its table of contents
/// and all of its blocks of rendered plain text.
#[derive(Debug, Clone)]
pub struct LoadedDocument {
    pub meta: DocumentMeta,
    pub chapters: Vec<Chapter>,
    pub blocks: Vec<Block>,
}

/// The adapter operations.
#[derive(Debug, Clone, Copy, PartialEq, Eq, Structural)]
pub enum AdapterOperation {
    Load,
    ContentHash,
}

/// Why an adapter could not serve a request.
#[derive(Debug, Clone, Copy, PartialEq, Eq, Structural)]
pub enum AdapterError {
    /// The adapter for `format` does not provide `operation` yet.
    NotImplemented { format: DocumentFormat, operation: AdapterOperation },
}

/// The name of the adapter type that serves a format.
pub open spec fn adapter_name(format: DocumentFormat) -> Seq<char> {
    match format {
        DocumentFormat::Epub => "EpubAdapter"@,
        DocumentFormat::Markdown => "MarkdownAdapter"@,
        DocumentFormat::Pdf => "PdfAdapter"@,
    }
}

/// The release note that ends the error text of a format's adapter.
pub open spec fn pending_note(format: DocumentFormat) -> Seq<char> {
    match format {
        DocumentFormat::Epub => " (PR #2)"@,
        DocumentFormat::Markdown => " (PR #3)"@,
        DocumentFormat::Pdf => " (PR #4)"@,
    }
}

/// The name of an adapter operation.
pub open spec fn operation_name(operation: AdapterOperation) -> Seq<char> {
    match operation {
        AdapterOperation::Load => "load"@,
        AdapterOperation::ContentHash => "content_hash"@,
    }
}

impl AdapterError {
    /// The human-readable text of the error.
    pub open spec fn text(self) -> Seq<char> {
        match self {
            AdapterError::NotImplemented { format, operation } => adapter_name(format) + "::"@
                + operation_name(operation) + " not implemented yet"@ + pending_note(format),
        }
    }

    /// The error as text, such as `EpubAdapter::load not implemented yet (PR #2)`.
    pub fn message(&self) -> (text: String)
        ensures
            text@ == self.text(),
    {
        match self {
            AdapterError::NotImplemented { format, operation } => {
                let mut text = match format {
                    DocumentFormat::Epub => String::from_str("EpubAdapter"),
                    DocumentFormat::Markdown => String::from_str("MarkdownAdapter"),
                    DocumentFormat::Pdf => String::from_str("PdfAdapter"),
                };
                text.append("::");
                match operation {
                    AdapterOperation::Load => text.append("load"),
                    AdapterOperation::ContentHash => text.append("content_hash"),
                }
                text.append(" not implemented yet");
                match format {
                    DocumentFormat::Epub => text.append(" (PR #2)"),
                    DocumentFormat::Markdown => text.append(" (PR #3)"),
                    DocumentFormat::Pdf => text.append(" (PR #4)"),
                }
                text
            },
        }
    }
}

/// The interface of a document format. Each adapter parses its format into
/// a `LoadedDocument` and hashes the content, so that the rest of the
/// reader never depends on the source format.
pub trait DocumentAdapter: Send + Sync {
    /// The format this adapter serves.
    spec fn handled_format(&self) -> DocumentFormat;

    /// The format this adapter serves.
    fn format(&self) -> (f: DocumentFormat)
        ensures
            f == self.handled_format(),
    ;

    /// Loads the document stored at `path`.
    fn load(&self, path: &str) -> Result<LoadedDocument, AdapterError>;

    /// Hashes the text content of the document stored at `path`.
    fn content_hash(&self, path: &str) -> Result<String, AdapterError>;
}

/// One adapter of each format, as a single type.
#[derive(Debug, Clone, Copy, PartialEq, Eq, Structural)]
pub enum AnyAdapter {
    Epub(EpubAdapter),
    Markdown(MarkdownAdapter),
    Pdf(PdfAdapter),
}

impl DocumentAdapter for AnyAdapter {
    open spec fn handled_format(&self) -> DocumentFormat {
        match self {
            AnyAdapter::Epub(_) => DocumentFormat::Epub,
            AnyAdapter::Markdown(_) => DocumentFormat::Markdown,
            AnyAdapter::Pdf(_) => DocumentFormat::Pdf,
        }
    }

    fn format(&self) -> (f: DocumentFormat) {
        match self {
            AnyAdapter::Epub(a) => a.format(),
            AnyAdapter::Markdown(a) => a.format(),
            AnyAdapter::Pdf(a) => a.format(),
        }
    }

    fn load(&self, path: &str) -> (r: Result<LoadedDocument, AdapterError>)
        ensures
            r == Err::<LoadedDocument, AdapterError>(
                AdapterError::NotImplemented {
                    format: self.handled_format(),
                    operation: AdapterOperation::Load,
                },
            ),
    {
        match self {
            AnyAdapter::Epub(a) => a.load(path),
            AnyAdapter::Markdown(a) => a.load(path),
            AnyAdapter::Pdf(a) => a.load(path),
        }
    }

    fn content_hash(&self, path: &str) -> (r: Result<String, AdapterError>)
        ensures
            r == Err::<String, AdapterError>(
                AdapterError::NotImplemented {
                    format: self.handled_format(),
                    operation: AdapterOperation::ContentHash,
                },
            ),
    {
        match self {
            AnyAdapter::Epub(a) => a.content_hash(path),
            AnyAdapter::Markdown(a) => a.content_hash(path),
            AnyAdapter::Pdf(a) => a.content_hash(path),
        }
    }
}

/// The adapter chosen for a format.
pub open spec fn chosen_adapter(format: DocumentFormat) -> AnyAdapter {
    match format {
        DocumentFormat::Epub => AnyAdapter::Epub(EpubAdapter),
        DocumentFormat::Markdown => AnyAdapter::Markdown(MarkdownAdapter),
        DocumentFormat::Pdf => AnyAdapter::Pdf(PdfAdapter),
    }
}

/// The adapter that serves a format.
pub fn adapter_for(format: DocumentFormat) -> (adapter: AnyAdapter)
    ensures
        adapter == chosen_adapter(format),
        adapter.handled_format() == format,
{
    match format {
        DocumentFormat::Epub => AnyAdapter::Epub(EpubAdapter),
        DocumentFormat::Markdown => AnyAdapter::Markdown(MarkdownAdapter),
        DocumentFormat::Pdf => AnyAdapter::Pdf(PdfAdapter),
    }
}

/// The format named by a lowercase file extension: `epub`, `md` or
/// `markdown`, `pdf`; `None` for any other extension.
pub open spec fn format_of_extension(ext: Seq<char>) -> Option<DocumentFormat> {
    if ext == format_name(DocumentFormat::Epub) {
        Some(DocumentFormat::Epub)
    } else if ext == seq!['m', 'd'] || ext == format_name(DocumentFormat::Markdown) {
        Some(DocumentFormat::Markdown)
    } else if ext == format_name(DocumentFormat::Pdf) {
        Some(DocumentFormat::Pdf)
    } else {
        None
    }
}

/// The text that `str::to_lowercase` makes of a text.
pub uninterp spec fn lowercase_of(text: Seq<char>) -> Seq<char>;

/// The format detected for a portable ASCII path: that named by its
/// extension, in lowercase.
pub open spec fn path_detection(path: Seq<char>) -> Option<DocumentFormat> {
    match extension_of_path(path) {
        Some(ext) => format_of_extension(ascii_lowercase(ext)),
        None => None,
    }
}

/// Calls `str::to_lowercase`. On ASCII text it turns the capital letters
/// into small letters and keeps every other character, as Unicode's
/// lowercase mapping does for ASCII; beyond ASCII the mapping is left to
/// the name.
#[verifier::external_body]
fn to_lowercase(text: &str) -> (lower: String)
    ensures
        lower@ == lowercase_of(text@),
        is_ascii_text(text@) ==> lower@ == ascii_lowercase(text@),
{
    text.to_lowercase()
}

/// Whether a text equals a literal.
fn text_is(text: &String, literal: &str) -> (b: bool)
    ensures
        b == (text@ == literal@),
{
    let expected = String::from_str(literal);
    text.eq(&expected)
}

/// The format named by an extension that is already in lowercase.
pub fn format_for_extension(ext: &str) -> (format: Option<DocumentFormat>)
    ensures
        format == format_of_extension(ext@),
{
    proof {
        reveal_strlit("epub");
        reveal_strlit("md");
        reveal_strlit("markdown");
        reveal_strlit("pdf");
        assert("epub"@ =~= format_name(DocumentFormat::Epub));
        assert("md"@ =~= seq!['m', 'd']);
        assert("markdown"@ =~= format_name(DocumentFormat::Markdown));
        assert("pdf"@ =~= format_name(DocumentFormat::Pdf));
    }
    let ext = String::from_str(ext);
    if text_is(&ext, "epub") {
        Some(DocumentFormat::Epub)
    } else if text_is(&ext, "md") || text_is(&ext, "markdown") {
        Some(DocumentFormat::Markdown)
    } else if text_is(&ext, "pdf") {
        Some(DocumentFormat::Pdf)
    } else {
        None
    }
}

/// The format of a file, from its extension, ignoring case: `.epub`,
/// `.md` or `.markdown`, `.pdf`. `None` for a path without an extension or
/// with another one. Only the last component of the path counts.
pub fn detect_format(path: &str) -> (format: Option<DocumentFormat>)
    ensures
        format == match path_extension_of(path@) {
            Some(ext) => format_of_extension(lowercase_of(ext)),
            None => None,
        },
        is_portable_path(path@) && is_ascii_text(path@) ==> format == path_detection(path@),
{
    let ext = path_extension(path)?;
    proof {
        if is_portable_path(path@) && is_ascii_text(path@) {
            lemma_extension_is_ascii(path@);
        }
    }
    let lower = to_lowercase(ext);
    format_for_extension(lower.as_str())
}

/// Detection ignores case: two portable paths that differ only in the case
/// of their ASCII letters (such as `a.Epub` and `a.EPUB`, or
/// `Books/a.epub` and `books/A.EPUB`) are detected alike.
pub proof fn lemma_detection_ignores_case(path1: Seq<char>, path2: Seq<char>)
    requires
        ascii_lowercase(path1) == ascii_lowercase(path2),
    ensures
        path_detection(path1) == path_detection(path2),
{
    lemma_lowered_extension_of_lowered_path(path1);
    lemma_lowered_extension_of_lowered_path(path2);
}

/// Only four extension texts name a format: `epub` names EPUB, `md` and
/// `markdown` name Markdown, `pdf` names PDF; every other text names none.
pub proof fn lemma_only_four_extensions_name_a_format(ext: Seq<char>)
    ensures
        (format_of_extension(ext) == Some(DocumentFormat::Epub)) <==> ext == seq![
            'e',
            'p',
            'u',
            'b',
        ],
        (format_of_extension(ext) == Some(DocumentFormat::Markdown)) <==> (ext == seq!['m', 'd']
            || ext == seq!['m', 'a', 'r', 'k', 'd', 'o', 'w', 'n']),
        (format_of_extension(ext) == Some(DocumentFormat::Pdf)) <==> ext == seq!['p', 'd', 'f'],
        format_of_extension(ext) is None <==> (ext != seq!['e', 'p', 'u', 'b'] && ext != seq![
            'm',
            'd',
        ] && ext != seq!['m', 'a', 'r', 'k', 'd', 'o', 'w', 'n'] && ext != seq!['p', 'd', 'f']),
{
    assert(format_name(DocumentFormat::Epub) =~= seq!['e', 'p', 'u', 'b']);
    assert(format_name(DocumentFormat::Markdown) =~= seq!['m', 'a', 'r', 'k', 'd', 'o', 'w', 'n']);
    assert(format_name(DocumentFormat::Pdf) =~= seq!['p', 'd', 'f']);
    assert(seq!['m', 'd'] != seq!['e', 'p', 'u', 'b']);
    assert(seq!['m', 'd'] != seq!['p', 'd', 'f']);
    assert(seq!['m', 'a', 'r', 'k', 'd', 'o', 'w', 'n'] != seq!['e', 'p', 'u', 'b']);
    assert(seq!['m', 'a', 'r', 'k', 'd', 'o', 'w', 'n'] != seq!['p', 'd', 'f']);
    assert(seq!['e', 'p', 'u', 'b'] != seq!['p', 'd', 'f']);
}

/// Each format's own adapter serves that format, and an `AnyAdapter`
/// serves the format of the adapter that it holds.
pub proof fn lemma_each_adapter_serves_its_format(adapter: AnyAdapter)
    ensures
        EpubAdapter.handled_format() == DocumentFormat::Epub,
        MarkdownAdapter.handled_format() == DocumentFormat::Markdown,
        PdfAdapter.handled_format() == DocumentFormat::Pdf,
        adapter.handled_format() == match adapter {
            AnyAdapter::Epub(a) => a.handled_format(),
            AnyAdapter::Markdown(a) => a.handled_format(),
            AnyAdapter::Pdf(a) => a.handled_format(),
        },
{
}

/// The adapter chosen for a format serves that very format.
pub proof fn lemma_chosen_adapter_serves_format(format: DocumentFormat)
    ensures
        chosen_adapter(format).handled_format() == format,
{
}

/// The name under which a format is shown is an extension that names the
/// same format.
pub proof fn lemma_format_name_is_its_extension(format: DocumentFormat)
    ensures
        format_of_extension(format_name(format)) == Some(format),
{
    assert(format_name(DocumentFormat::Markdown) != format_name(DocumentFormat::Epub));
    assert(format_name(DocumentFormat::Pdf) != format_name(DocumentFormat::Epub));
    assert(format_name(DocumentFormat::Pdf) != format_name(DocumentFormat::Markdown));
    assert(format_name(DocumentFormat::Pdf) != seq!['m', 'd']);
}

} // verus!
