//! Structured résumé data, its validation, and its rendering as LaTeX for
//! the `andre-cv` document class, with the build pipeline and command line
//! that drive them.
pub mod build;
pub mod cli;
pub mod ports;
pub mod render;
pub mod schema;
pub mod text;
pub mod validate;

pub use build::{BuildOutput, BuildRequest, BuildResume};
pub use ports::{DocumentRenderer, InputReader, OutputWriter, PdfCompiler};
pub use render::LatexRenderer;
pub use schema::{
    Document, DocumentOptions, Entry, FontConfig, Header, Item, PersonalDetails, Section, Theme,
};
pub use validate::{validate_document, ValidationError};
