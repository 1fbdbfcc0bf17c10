//! Configuration resolution and invocation building for rendering a book to
//! PDF through pandoc.
//!
//! The library resolves a partial user configuration against built-in
//! defaults, flattens the book into one Markdown stream, and describes the
//! pandoc call that turns that stream into a PDF. Running pandoc is left to the
//! caller.
pub mod config;
pub mod content;
pub mod engine;
pub mod invocation;

pub use config::{resolve, ConfigError, PdfBuilder, PdfFormat, ResolvedConfig};
pub use content::{aggregate, BookEntry};
pub use engine::{variable_name_for_font, EngineKind};
pub use invocation::{build, DocumentClass, InputFormat, MarkdownExtension, OutputFormat, Pdf};
