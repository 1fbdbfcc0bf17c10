use mdbook_pdf::{
    aggregate, build, resolve, variable_name_for_font, BookEntry, DocumentClass, EngineKind,
    InputFormat, MarkdownExtension, OutputFormat, PdfBuilder, PdfFormat, ResolvedConfig,
};

fn resolved(engine: EngineKind, font: &str) -> ResolvedConfig {
    ResolvedConfig { output_name: "book.pdf".to_string(), engine, font: font.to_string() }
}

fn chapter(path: Option<&str>, content: &str) -> BookEntry {
    BookEntry::Chapter { path: path.map(|p| p.to_string()), content: content.to_string() }
}

#[test]
fn font_variable_names_per_engine() {
    assert_eq!(variable_name_for_font(EngineKind::Pdflatex), Some("fontfamily"));
    assert_eq!(variable_name_for_font(EngineKind::Xelatex), Some("mainfont"));
    assert_eq!(variable_name_for_font(EngineKind::Lualatex), Some("mainfont"));
    assert_eq!(variable_name_for_font(EngineKind::Tectonic), Some("mainfont"));
    assert_eq!(variable_name_for_font(EngineKind::Wkhtmltopdf), None);
    assert_eq!(variable_name_for_font(EngineKind::Weasyprint), None);
    assert_eq!(variable_name_for_font(EngineKind::Prince), None);
}

#[test]
fn engine_names_round_trip() {
    let all = [
        EngineKind::Pdflatex,
        EngineKind::Xelatex,
        EngineKind::Lualatex,
        EngineKind::Tectonic,
        EngineKind::Wkhtmltopdf,
        EngineKind::Weasyprint,
        EngineKind::Prince,
    ];
    for e in all {
        assert_eq!(EngineKind::from_name(e.name()), Some(e));
    }
    assert_eq!(EngineKind::from_name("pdflatex"), Some(EngineKind::Pdflatex));
    assert_eq!(EngineKind::from_name("PDFLATEX"), None);
    assert_eq!(EngineKind::from_name(""), None);
}

#[test]
fn aggregate_skips_chapters_without_path() {
    let entries = vec![
        BookEntry::PartTitle("Intro".to_string()),
        chapter(Some("ch1.md"), "A"),
        chapter(None, "B"),
        chapter(Some("ch2.md"), "C"),
    ];
    let out = aggregate(None, &entries);
    assert_eq!(out, "# Intro\n\nAC");
    let a = out.find('A').unwrap();
    let c = out.find('C').unwrap();
    assert!(a < c);
    assert!(!out.contains('B'));
}

#[test]
fn aggregate_opens_with_book_title_heading() {
    let entries = vec![
        BookEntry::PartTitle("Intro".to_string()),
        chapter(Some("ch1.md"), "A"),
        chapter(None, "B"),
        chapter(Some("ch2.md"), "C"),
    ];
    assert_eq!(aggregate(Some("T"), &entries), "# T \n# Intro\n\nAC");
}

#[test]
fn aggregate_with_book_title_and_separator() {
    let entries = vec![
        chapter(Some("a.md"), "one\n"),
        BookEntry::Separator,
        chapter(Some("b.md"), "two\n"),
    ];
    assert_eq!(aggregate(Some("Book"), &entries), "# Book \none\ntwo\n");
    assert_eq!(aggregate(Some("Book"), &Vec::new()), "# Book \n");
    assert_eq!(aggregate(None, &Vec::new()), "");
}

#[test]
fn build_sets_fontfamily_for_pdflatex() {
    let pdf = build(&resolved(EngineKind::Pdflatex, "Times"), "text".to_string(), "/books/b");
    let font: Vec<_> = pdf.variables.iter().filter(|(k, _)| k == "fontfamily").collect();
    assert_eq!(font.len(), 1);
    assert_eq!(font[0].1, "Times");
    assert!(!pdf.variables.iter().any(|(k, _)| k == "mainfont"));
}

#[test]
fn build_sets_mainfont_for_xelatex() {
    let pdf = build(&resolved(EngineKind::Xelatex, "Times"), "text".to_string(), "/books/b");
    assert_eq!(
        pdf.variables,
        vec![
            ("toc".to_string(), "".to_string()),
            ("toc-depth".to_string(), "2".to_string()),
            ("mainfont".to_string(), "Times".to_string()),
        ]
    );
}

#[test]
fn build_without_font_mapping_sets_no_font_variable() {
    let pdf = build(&resolved(EngineKind::Weasyprint, "Times"), "text".to_string(), "/books/b");
    assert_eq!(
        pdf.variables,
        vec![("toc".to_string(), "".to_string()), ("toc-depth".to_string(), "2".to_string())]
    );
    assert_eq!(pdf.output_format, OutputFormat::Html);
    assert_eq!(pdf.document_class, None);
}

#[test]
fn build_output_format_follows_engine() {
    for e in [EngineKind::Pdflatex, EngineKind::Xelatex, EngineKind::Lualatex, EngineKind::Tectonic] {
        let pdf = build(&resolved(e, "F"), String::new(), "r");
        assert_eq!(pdf.output_format, OutputFormat::Latex);
        assert_eq!(pdf.document_class, Some(DocumentClass::Article));
    }
    for e in [EngineKind::Wkhtmltopdf, EngineKind::Weasyprint, EngineKind::Prince] {
        let pdf = build(&resolved(e, "F"), String::new(), "r");
        assert_eq!(pdf.output_format, OutputFormat::Html);
        assert_eq!(pdf.document_class, None);
    }
}

#[test]
fn build_fixes_formats_extensions_and_paths() {
    let pdf = build(&resolved(EngineKind::Lualatex, "Times"), "# T\n".to_string(), "/books/b");
    assert_eq!(pdf.content, "# T\n");
    assert_eq!(pdf.input_format, InputFormat::Markdown);
    assert_eq!(
        pdf.input_extensions,
        vec![
            MarkdownExtension::AutoIdentifiers,
            MarkdownExtension::BacktickCodeBlocks,
            MarkdownExtension::FancyLists,
            MarkdownExtension::PipeTables,
            MarkdownExtension::ImplicitFigures,
            MarkdownExtension::MultilineTables,
            MarkdownExtension::Startnum,
            MarkdownExtension::YamlMetadataBlock,
        ]
    );
    assert_eq!(pdf.output_name, "book.pdf");
    assert_eq!(pdf.output_format, OutputFormat::Latex);
    assert!(pdf.output_extensions.is_empty());
    assert_eq!(pdf.engine, EngineKind::Lualatex);
    assert_eq!(pdf.resource_paths, vec!["/books/b/src".to_string()]);
    assert_eq!(pdf.document_class, Some(DocumentClass::Article));
}

#[test]
fn build_source_dir_after_trailing_slash_or_empty_root() {
    let a = build(&resolved(EngineKind::Xelatex, "F"), String::new(), "/books/b/");
    assert_eq!(a.resource_paths, vec!["/books/b/src".to_string()]);
    let b = build(&resolved(EngineKind::Xelatex, "F"), String::new(), "");
    assert_eq!(b.resource_paths, vec!["src".to_string()]);
}

#[test]
fn resolve_then_build_end_to_end() {
    let raw = PdfBuilder {
        name: None,
        engine: Some("pdflatex".to_string()),
        format: Some(PdfFormat { font: Some("Times".to_string()) }),
    };
    let c = resolve(Some(&raw), Some("My Book")).unwrap();
    let pdf = build(&c, "body".to_string(), "root");
    assert_eq!(pdf.output_name, "My Book.pdf");
    assert_eq!(pdf.engine.name(), "pdflatex");
    assert!(pdf.variables.contains(&("fontfamily".to_string(), "Times".to_string())));
    assert_eq!(pdf.resource_paths, vec!["root/src".to_string()]);
}
