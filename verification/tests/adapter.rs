use ebook_reader::adapter::{
    adapter_for, detect_format, format_for_extension, AdapterError, AdapterOperation, DocumentAdapter,
};
use ebook_reader::epub::EpubAdapter;
use ebook_reader::markdown::MarkdownAdapter;
use ebook_reader::model::DocumentFormat;
use ebook_reader::pdf::PdfAdapter;
use std::path::PathBuf;

fn bundled_books() -> PathBuf {
    PathBuf::from("..").join("bundled-books")
}

#[test]
fn detect_format_from_extension() {
    assert_eq!(detect_format("book.epub"), Some(DocumentFormat::Epub));
    assert_eq!(detect_format("notes.md"), Some(DocumentFormat::Markdown));
    assert_eq!(detect_format("README.markdown"), Some(DocumentFormat::Markdown));
    assert_eq!(detect_format("book.pdf"), Some(DocumentFormat::Pdf));
    assert_eq!(detect_format("book.txt"), None);
    assert_eq!(detect_format("noext"), None);
}

#[test]
fn detect_format_is_case_insensitive() {
    assert_eq!(detect_format("BOOK.EPUB"), Some(DocumentFormat::Epub));
    assert_eq!(detect_format("Book.PDF"), Some(DocumentFormat::Pdf));
}

#[test]
fn invalid_epub_path_returns_error() {
    let path = "/tmp/nonexistent.epub";
    let format = detect_format(path);
    assert!(format.is_some(), "Extension detected");
    let result = adapter_for(format.unwrap()).load(path);
    assert!(result.is_err(), "Load should fail");
}

#[test]
fn unsupported_format_returns_none() {
    assert_eq!(detect_format("book.docx"), None);
    assert_eq!(detect_format("image.png"), None);
    assert_eq!(detect_format("archive.zip"), None);
}

#[test]
fn content_hash_is_deterministic_across_calls() {
    let path = bundled_books().join("dracula.epub");
    if !path.exists() {
        return;
    }
    let path = path.to_str().unwrap();
    let adapter = EpubAdapter;
    let h1 = adapter.content_hash(path).unwrap();
    let h2 = adapter.content_hash(path).unwrap();
    let h3 = adapter.content_hash(path).unwrap();
    assert_eq!(h1, h2);
    assert_eq!(h2, h3);
    assert_eq!(h1.len(), 64, "SHA256 hex");
}

#[test]
fn different_files_have_different_hashes() {
    let dracula = bundled_books().join("dracula.epub");
    let calculus = bundled_books().join("calculus.epub");
    if !dracula.exists() || !calculus.exists() {
        return;
    }
    let adapter = EpubAdapter;
    let h1 = adapter.content_hash(dracula.to_str().unwrap()).unwrap();
    let h2 = adapter.content_hash(calculus.to_str().unwrap()).unwrap();
    assert_ne!(h1, h2, "Different files = different hashes");
}

#[test]
fn detect_format_uses_the_last_extension_of_the_file_name() {
    assert_eq!(detect_format("/home/me/books.pdf/notes.md"), Some(DocumentFormat::Markdown));
    assert_eq!(detect_format("archive.epub.zip"), None);
    assert_eq!(detect_format("dir.epub/book"), None);
    assert_eq!(detect_format(".epub"), None);
    assert_eq!(detect_format("book."), None);
    assert_eq!(detect_format("Notes.MarkDown"), Some(DocumentFormat::Markdown));
    assert_eq!(detect_format("NOTES.MD"), Some(DocumentFormat::Markdown));
}

#[test]
fn format_for_extension_needs_lowercase() {
    assert_eq!(format_for_extension("epub"), Some(DocumentFormat::Epub));
    assert_eq!(format_for_extension("md"), Some(DocumentFormat::Markdown));
    assert_eq!(format_for_extension("markdown"), Some(DocumentFormat::Markdown));
    assert_eq!(format_for_extension("pdf"), Some(DocumentFormat::Pdf));
    assert_eq!(format_for_extension("EPUB"), None);
    assert_eq!(format_for_extension(""), None);
    assert_eq!(format_for_extension("mdx"), None);
}

#[test]
fn adapter_for_serves_the_requested_format() {
    for format in [DocumentFormat::Epub, DocumentFormat::Markdown, DocumentFormat::Pdf] {
        assert_eq!(adapter_for(format).format(), format);
        assert_eq!(format_for_extension(format.as_str()), Some(format));
    }
}

#[test]
fn adapters_report_what_they_do_not_provide() {
    assert_eq!(
        EpubAdapter.load("book.epub").unwrap_err(),
        AdapterError::NotImplemented { format: DocumentFormat::Epub, operation: AdapterOperation::Load }
    );
    assert_eq!(
        MarkdownAdapter.content_hash("notes.md").unwrap_err(),
        AdapterError::NotImplemented { format: DocumentFormat::Markdown, operation: AdapterOperation::ContentHash }
    );
    assert_eq!(PdfAdapter.format(), DocumentFormat::Pdf);
    assert_eq!(
        adapter_for(DocumentFormat::Pdf).content_hash("a.pdf").unwrap_err(),
        AdapterError::NotImplemented { format: DocumentFormat::Pdf, operation: AdapterOperation::ContentHash }
    );
}

#[test]
fn adapter_error_messages() {
    let e = EpubAdapter.load("x.epub").unwrap_err();
    assert_eq!(e.message(), "EpubAdapter::load not implemented yet (PR #2)");
    let e = PdfAdapter.content_hash("x.pdf").unwrap_err();
    assert_eq!(e.message(), "PdfAdapter::content_hash not implemented yet (PR #4)");
    let e = MarkdownAdapter.load("x.md").unwrap_err();
    assert_eq!(e.message(), "MarkdownAdapter::load not implemented yet (PR #3)");
}

#[test]
fn case_variants_of_a_name_are_detected_alike() {
    assert_eq!(detect_format("a.Epub"), detect_format("a.EPUB"));
    assert_eq!(detect_format("a.Epub"), Some(DocumentFormat::Epub));
    assert_eq!(detect_format("x.mD"), detect_format("X.Md"));
    assert_eq!(detect_format("Book.TXT"), detect_format("book.txt"));
}

#[test]
fn detect_format_uses_only_the_last_component() {
    assert_eq!(detect_format("/tmp/nonexistent.epub"), Some(DocumentFormat::Epub));
    assert_eq!(detect_format(".DS_Store"), None);
    assert_eq!(detect_format("/tmp/mixed/.DS_Store"), None);
    assert_eq!(detect_format(".hidden.md"), Some(DocumentFormat::Markdown));
    assert_eq!(detect_format("archive.tar.epub"), Some(DocumentFormat::Epub));
    assert_eq!(detect_format("book.epub.txt"), None);
    assert_eq!(detect_format("dir.pdf/notes"), None);
    assert_eq!(detect_format("books/a.epub/"), Some(DocumentFormat::Epub));
    assert_eq!(detect_format("books//a.pdf/."), Some(DocumentFormat::Pdf));
    assert_eq!(detect_format("./x.pdf"), Some(DocumentFormat::Pdf));
    assert_eq!(detect_format("a/b.epub/.."), None);
    assert_eq!(detect_format("/"), None);
    assert_eq!(detect_format(""), None);
    assert_eq!(detect_format("Books/A.Epub"), detect_format("books/a.EPUB"));
}
