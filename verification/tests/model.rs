use ebook_reader::model::{
    BlockId, CanonicalLocation, ChapterId, DocumentFormat, DocumentId, LocationError, MAX_SPAN,
};

fn location(start: u32, end: u32) -> CanonicalLocation {
    CanonicalLocation {
        document_id: DocumentId::new(),
        chapter_id: ChapterId::new(),
        block_id: BlockId::new(),
        char_start: start,
        char_end: end,
    }
}

#[test]
fn canonical_location_validate_ok() {
    let loc = CanonicalLocation {
        document_id: DocumentId::new(),
        chapter_id: ChapterId::new(),
        block_id: BlockId::new(),
        char_start: 10,
        char_end: 50,
    };
    assert!(loc.validate().is_ok());
    assert_eq!(loc.len(), 40);
    assert!(!loc.is_empty());
}

#[test]
fn canonical_location_rejects_inverted() {
    let loc = CanonicalLocation {
        document_id: DocumentId::new(),
        chapter_id: ChapterId::new(),
        block_id: BlockId::new(),
        char_start: 50,
        char_end: 10,
    };
    assert_eq!(
        loc.validate(),
        Err(LocationError::InvertedRange { start: 50, end: 10 })
    );
}

#[test]
fn canonical_location_rejects_huge_range() {
    let loc = CanonicalLocation {
        document_id: DocumentId::new(),
        chapter_id: ChapterId::new(),
        block_id: BlockId::new(),
        char_start: 0,
        char_end: 20_000_000,
    };
    assert!(matches!(
        loc.validate(),
        Err(LocationError::RangeTooLarge { .. })
    ));
}

#[test]
fn newtype_ids_are_distinct() {
    let doc = DocumentId::new();
    let chap = ChapterId::new();
    assert_ne!(doc.to_string(), chap.to_string());
    let doc_s = doc.to_string();
    let doc_back: DocumentId = doc_s.parse().unwrap();
    assert_eq!(doc, doc_back);
}

#[test]
fn range_too_large_reports_the_span() {
    assert_eq!(
        location(5, 20_000_005).validate(),
        Err(LocationError::RangeTooLarge { span: 20_000_000 })
    );
}

#[test]
fn span_of_exactly_the_maximum_is_valid() {
    assert_eq!(location(0, MAX_SPAN).validate(), Ok(()));
    assert_eq!(location(1, MAX_SPAN + 2).validate(), Err(LocationError::RangeTooLarge { span: MAX_SPAN + 1 }));
}

#[test]
fn inverted_range_has_zero_length_and_is_not_empty() {
    let loc = location(50, 10);
    assert_eq!(loc.len(), 0);
    assert!(!loc.is_empty());
}

#[test]
fn empty_location_is_valid_with_zero_length() {
    let loc = location(7, 7);
    assert!(loc.is_empty());
    assert_eq!(loc.len(), 0);
    assert_eq!(loc.validate(), Ok(()));
}

#[test]
fn id_text_is_hyphenated_lowercase_hex() {
    let id = DocumentId(0x67e5_5044_10b1_426f_9247_bb68_0e5f_e0c8);
    assert_eq!(id.to_string(), "67e55044-10b1-426f-9247-bb680e5fe0c8");
    let zero = ChapterId(0);
    assert_eq!(zero.to_string(), "00000000-0000-0000-0000-000000000000");
}

#[test]
fn id_parse_reads_hyphenated_and_simple_forms() {
    let v = 0x67e5_5044_10b1_426f_9247_bb68_0e5f_e0c8u128;
    assert_eq!(BlockId::parse("67e55044-10b1-426f-9247-bb680e5fe0c8").unwrap(), BlockId(v));
    assert_eq!(BlockId::parse("67E55044-10B1-426F-9247-BB680E5FE0C8").unwrap(), BlockId(v));
    assert_eq!(BlockId::parse("67e5504410b1426f9247bb680e5fe0c8").unwrap(), BlockId(v));
    let from_str: ebook_reader::model::AnnotationId = "00000000-0000-0000-0000-000000000001".parse().unwrap();
    assert_eq!(from_str.0, 1);
}

#[test]
fn id_parse_refuses_other_text() {
    assert!(DocumentId::parse("not-a-uuid").is_err());
    assert!(DocumentId::parse("").is_err());
    assert!("67e55044-10b1-426f-9247-bb680e5fe0c".parse::<ChapterId>().is_err());
}

#[test]
fn new_ids_are_random_version_four() {
    let id = DocumentId::new();
    assert_eq!((id.0 >> 76) & 0xf, 4);
    assert_eq!((id.0 >> 62) & 0x3, 2);
    assert_ne!(DocumentId::new(), DocumentId::new());
}

#[test]
fn format_names_are_lowercase() {
    assert_eq!(DocumentFormat::Epub.as_str(), "epub");
    assert_eq!(DocumentFormat::Markdown.as_str(), "markdown");
    assert_eq!(DocumentFormat::Pdf.as_str(), "pdf");
}

#[test]
fn format_display_round_trip() {
    for (fmt, name) in [
        (DocumentFormat::Epub, "epub"),
        (DocumentFormat::Markdown, "markdown"),
        (DocumentFormat::Pdf, "pdf"),
    ] {
        let s = fmt.as_str();
        assert_eq!(s, name);
        assert_eq!(s, s.to_lowercase());
    }
}

#[test]
fn location_error_messages() {
    assert_eq!(
        LocationError::InvertedRange { start: 50, end: 10 }.message(),
        "char_start (50) > char_end (10)"
    );
    assert_eq!(
        LocationError::RangeTooLarge { span: 20_000_000 }.message(),
        "range span 20000000 too large (> 10M chars)"
    );
    assert_eq!(
        LocationError::InvertedRange { start: 4_294_967_295, end: 0 }.message(),
        "char_start (4294967295) > char_end (0)"
    );
}

#[test]
fn default_ids_are_fresh_random_ids() {
    let a = DocumentId::default();
    let b = DocumentId::default();
    assert_ne!(a, b);
    assert_eq!((a.0 >> 76) & 0xf, 4);
    assert_eq!((ChapterId::default().0 >> 62) & 0x3, 2);
    assert_eq!((BlockId::default().0 >> 76) & 0xf, 4);
    assert_eq!((ebook_reader::model::AnnotationId::default().0 >> 76) & 0xf, 4);
}
