//! The description of one pandoc call that renders the book to PDF.
use vstd::prelude::*;

use crate::config::ResolvedConfig;
use crate::engine::{spec_font_variable, variable_name_for_font, EngineKind};

verus! {

/// A pandoc Markdown extension enabled on the input.
#[derive(Clone, Copy, Debug, PartialEq, Eq, Structural)]
pub enum MarkdownExtension {
    AutoIdentifiers,
    BacktickCodeBlocks,
    FancyLists,
    PipeTables,
    ImplicitFigures,
    MultilineTables,
    Startnum,
    YamlMetadataBlock,
}

/// The format pandoc reads.
#[derive(Clone, Copy, Debug, PartialEq, Eq, Structural)]
pub enum InputFormat {
    Markdown,
}

/// The format pandoc writes before the PDF engine runs.
#[derive(Clone, Copy, Debug, PartialEq, Eq, Structural)]
pub enum OutputFormat {
    Latex,
    Html,
}

/// The markup that `engine` turns into PDF: LaTeX for the LaTeX engines, HTML
/// for the HTML-based ones.
pub open spec fn native_format(engine: EngineKind) -> OutputFormat {
    match engine {
        EngineKind::Pdflatex
        | EngineKind::Xelatex
        | EngineKind::Lualatex
        | EngineKind::Tectonic => OutputFormat::Latex,
        EngineKind::Wkhtmltopdf
        | EngineKind::Weasyprint
        | EngineKind::Prince => OutputFormat::Html,
    }
}

/// The document class asked of output in `format`: LaTeX output is an
/// article; HTML has no document class.
pub open spec fn class_for(format: OutputFormat) -> Option<DocumentClass> {
    match format {
        OutputFormat::Latex => Some(DocumentClass::Article),
        OutputFormat::Html => None,
    }
}

/// The markup that `engine` turns into PDF.
fn output_format_for(engine: EngineKind) -> (r: OutputFormat)
    ensures
        r == native_format(engine),
{
    match engine {
        EngineKind::Pdflatex
        | EngineKind::Xelatex
        | EngineKind::Lualatex
        | EngineKind::Tectonic => OutputFormat::Latex,
        EngineKind::Wkhtmltopdf
        | EngineKind::Weasyprint
        | EngineKind::Prince => OutputFormat::Html,
    }
}

/// The LaTeX document class the output asks for.
#[derive(Clone, Copy, Debug, PartialEq, Eq, Structural)]
pub enum DocumentClass {
    Article,
    Report,
    Book,
}

/// Everything pandoc needs to render the book to PDF: built once, then only
/// read by whoever runs pandoc.
#[derive(Clone, Debug)]
pub struct Pdf {
    /// The Markdown piped into pandoc.
    pub content: String,
    pub input_format: InputFormat,
    pub input_extensions: Vec<MarkdownExtension>,
    /// The file pandoc writes.
    pub output_name: String,
    pub output_format: OutputFormat,
    pub output_extensions: Vec<MarkdownExtension>,
    pub engine: EngineKind,
    /// Template variables, as key and value; no key appears twice.
    pub variables: Vec<(String, String)>,
    /// Where pandoc looks for images and other files the content refers to.
    pub resource_paths: Vec<String>,
    pub document_class: Option<DocumentClass>,
}

/// The extensions enabled on the Markdown input, in the order they are given
/// to pandoc.
pub open spec fn markdown_extensions() -> Seq<MarkdownExtension> {
    seq![
        MarkdownExtension::AutoIdentifiers,
        MarkdownExtension::BacktickCodeBlocks,
        MarkdownExtension::FancyLists,
        MarkdownExtension::PipeTables,
        MarkdownExtension::ImplicitFigures,
        MarkdownExtension::MultilineTables,
        MarkdownExtension::Startnum,
        MarkdownExtension::YamlMetadataBlock,
    ]
}

/// The characters of each key and value.
pub open spec fn variables_view(v: Seq<(String, String)>) -> Seq<(Seq<char>, Seq<char>)> {
    v.map_values(|p: (String, String)| (p.0@, p.1@))
}

/// The template variables for a book rendered with `engine` in `font`: a
/// table of contents two levels deep, and the font under the variable the
/// engine reads it from, if the engine has one.
pub open spec fn template_variables(engine: EngineKind, font: Seq<char>) -> Seq<
    (Seq<char>, Seq<char>),
> {
    let toc = seq![("toc"@, ""@), ("toc-depth"@, "2"@)];
    match spec_font_variable(engine) {
        Some(key) => toc.push((key, font)),
        None => toc,
    }
}

/// The directory `src` under `root`.
pub open spec fn source_dir(root: Seq<char>) -> Seq<char> {
    if root.len() == 0 || root.last() == '/' {
        root + "src"@
    } else {
        root + "/src"@
    }
}

/// The font reaches the template only through the variable that the engine
/// reads it from: under an engine with such a variable it is set there, under
/// one without, no font variable is set at all. No key is set twice.
pub proof fn lemma_font_variable_only_when_mapped(engine: EngineKind, font: Seq<char>)
    ensures
        spec_font_variable(engine) is Some ==> template_variables(engine, font).contains(
            (spec_font_variable(engine).unwrap(), font),
        ),
        spec_font_variable(engine) is None ==> forall|i: int|
            0 <= i < template_variables(engine, font).len() ==> {
                let key = #[trigger] template_variables(engine, font)[i].0;
                key != "fontfamily"@ && key != "mainfont"@
            },
        forall|i: int, j: int|
            0 <= i < j < template_variables(engine, font).len() ==> #[trigger] template_variables(
                engine,
                font,
            )[i].0 != #[trigger] template_variables(engine, font)[j].0,
{
    reveal_strlit("toc");
    reveal_strlit("toc-depth");
    reveal_strlit("fontfamily");
    reveal_strlit("mainfont");
    let vars = template_variables(engine, font);
    if let Some(key) = spec_font_variable(engine) {
        assert(vars[2] == (key, font));
    } else {
        assert forall|i: int| 0 <= i < vars.len() implies ({
            let key = #[trigger] vars[i].0;
            key != "fontfamily"@ && key != "mainfont"@
        }) by {
            assert(vars[i].0[0] == 't');
        }
    }
    assert forall|i: int, j: int| 0 <= i < j < vars.len() implies #[trigger] vars[i].0
        != #[trigger] vars[j].0 by {
        assert(vars[i].0[0] != vars[j].0[0] || vars[i].0.len() != vars[j].0.len());
    }
}

/// An owned key and value, copied from string slices.
fn variable(key: &str, value: &str) -> (r: (String, String))
    ensures
        r.0@ == key@,
        r.1@ == value@,
{
    (String::from_str(key), String::from_str(value))
}

/// Describes the pandoc call that renders `content` to PDF as `resolved` says,
/// for the book whose root directory is `book_root`.
pub fn build(resolved: &ResolvedConfig, content: String, book_root: &str) -> (r: Pdf)
    ensures
        r.content@ == content@,
        r.input_format == InputFormat::Markdown,
        r.input_extensions@ == markdown_extensions(),
        r.output_name@ == resolved.output_name@,
        r.output_format == native_format(resolved.engine),
        r.output_extensions@.len() == 0,
        r.engine == resolved.engine,
        variables_view(r.variables@) == template_variables(resolved.engine, resolved.font@),
        r.resource_paths@.len() == 1,
        r.resource_paths@[0]@ == source_dir(book_root@),
        r.document_class == class_for(native_format(resolved.engine)),
{
    let input_extensions = vec![
        MarkdownExtension::AutoIdentifiers,
        MarkdownExtension::BacktickCodeBlocks,
        MarkdownExtension::FancyLists,
        MarkdownExtension::PipeTables,
        MarkdownExtension::ImplicitFigures,
        MarkdownExtension::MultilineTables,
        MarkdownExtension::Startnum,
        MarkdownExtension::YamlMetadataBlock,
    ];
    let mut variables: Vec<(String, String)> = Vec::new();
    variables.push(variable("toc", ""));
    variables.push(variable("toc-depth", "2"));
    if let Some(key) = variable_name_for_font(resolved.engine) {
        variables.push((String::from_str(key), resolved.font.clone()));
    }
    let mut src = String::from_str(book_root);
    let n = book_root.unicode_len();
    if n == 0 || book_root.get_char(n - 1) == '/' {
        src.append("src");
    } else {
        src.append("/src");
    }
    let mut resource_paths: Vec<String> = Vec::new();
    resource_paths.push(src);
    assert(input_extensions@ == markdown_extensions());
    assert(variables_view(variables@) == template_variables(resolved.engine, resolved.font@));
    let output_format = output_format_for(resolved.engine);
    let document_class = match output_format {
        OutputFormat::Latex => Some(DocumentClass::Article),
        OutputFormat::Html => None,
    };
    Pdf {
        content,
        input_format: InputFormat::Markdown,
        input_extensions,
        output_name: resolved.output_name.clone(),
        output_format,
        output_extensions: Vec::new(),
        engine: resolved.engine,
        variables,
        resource_paths,
        document_class,
    }
}

} // verus!
