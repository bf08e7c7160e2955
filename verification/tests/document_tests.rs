use chatcore::document::DocumentType;

#[test]
fn test_document_type_detection() {
    assert!(matches!(
        DocumentType::from_extension("test.pdf"),
        Some(DocumentType::Pdf)
    ));
    assert!(matches!(
        DocumentType::from_extension("test.docx"),
        Some(DocumentType::Docx)
    ));
    assert!(matches!(
        DocumentType::from_extension("test.xlsx"),
        Some(DocumentType::Xlsx)
    ));
    assert!(matches!(
        DocumentType::from_extension("test.txt"),
        Some(DocumentType::Text)
    ));
    assert!(matches!(
        DocumentType::from_extension("test.md"),
        Some(DocumentType::Markdown)
    ));
    assert!(matches!(
        DocumentType::from_extension("test.rs"),
        Some(DocumentType::Code)
    ));
    assert!(matches!(
        DocumentType::from_extension("test.py"),
        Some(DocumentType::Code)
    ));
}

#[test]
fn extension_matching_ignores_case() {
    assert_eq!(
        DocumentType::from_extension("REPORT.PDF"),
        Some(DocumentType::Pdf)
    );
    assert_eq!(
        DocumentType::from_extension("notes.Markdown"),
        Some(DocumentType::Markdown)
    );
}

#[test]
fn paths_without_usable_extensions_are_unsupported() {
    assert_eq!(DocumentType::from_extension("README"), None);
    assert_eq!(DocumentType::from_extension(".gitignore"), None);
    assert_eq!(DocumentType::from_extension("archive.tar.gz"), None);
    assert_eq!(DocumentType::from_extension("dir.d/file"), None);
    assert_eq!(DocumentType::from_extension(""), None);
}

#[test]
fn extensions_are_taken_from_the_file_name_only() {
    assert_eq!(
        DocumentType::from_extension("some/dir/test.docx"),
        Some(DocumentType::Docx)
    );
    assert_eq!(
        DocumentType::from_extension("c:\\files\\test.xls"),
        Some(DocumentType::Xlsx)
    );
}

#[test]
fn text_statistics_count_chars_words_and_lines() {
    let s = chatcore::document::text_stats("");
    assert_eq!((s.chars, s.words, s.lines), (0, 0, 0));

    let s = chatcore::document::text_stats("hello world\nsecond line\n");
    assert_eq!((s.chars, s.words, s.lines), (24, 4, 2));

    let s = chatcore::document::text_stats("a\nb");
    assert_eq!((s.chars, s.words, s.lines), (3, 2, 2));

    let s = chatcore::document::text_stats("  spaced   out  ");
    assert_eq!(s.words, 2);
    assert_eq!(s.lines, 1);
}

#[test]
fn excerpts_are_capped_at_200_characters() {
    assert_eq!(chatcore::document::document_excerpt("short text"), "short text");
    let long = "x".repeat(250);
    let mut expected = "x".repeat(200);
    expected.push_str("...");
    assert_eq!(chatcore::document::document_excerpt(&long), expected);
}
