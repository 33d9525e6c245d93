//! The boundaries of the build: where documents come from, how they are
//! rendered, where the text goes, and what turns it into a PDF.
use vstd::prelude::*;
use std::path::{Path, PathBuf};
use crate::render::RenderError;
use crate::schema::Document;

verus! {

/// `std::path::PathBuf`, carried through the build as an opaque value.
#[verifier::external_type_specification]
#[verifier::external_body]
pub struct ExPathBuf(PathBuf);

/// `std::path::Path`, carried through the build as an opaque value.
#[verifier::external_type_specification]
#[verifier::external_body]
pub struct ExPath(Path);

/// The path that a `PathBuf` holds, as `PathBuf::as_path` borrows it.
pub uninterp spec fn path_of(p: PathBuf) -> &'static Path;

/// `PathBuf::as_path` borrows the path the buffer holds and computes nothing
/// else: the borrow is the same for the same buffer.
pub assume_specification[ PathBuf::as_path ](p: &PathBuf) -> (r: &Path)
    ensures
        r == path_of(*p),
;

/// `PathBuf::clone` copies the path: the copy is the same path.
pub assume_specification[ <PathBuf as Clone>::clone ](p: &PathBuf) -> (r: PathBuf)
    ensures
        r == *p,
;

/// A source of documents.
pub trait InputReader {
    type Error;

    fn read(&self) -> Result<Document, Self::Error>;
}

/// Something that turns a document into text.
pub trait DocumentRenderer {
    /// Whether `text` is a rendering of `document` by this renderer.  A
    /// renderer that does not say what its renderings are claims nothing.
    open spec fn renders(&self, document: Document, text: Seq<char>) -> bool {
        true
    }

    /// Whether rendering `document` may fail with `error`.  A renderer that
    /// does not say when it fails claims nothing.
    open spec fn fails_with(&self, document: Document, error: RenderError) -> bool {
        true
    }

    /// A success hands back a rendering of `document`; a failure is one this
    /// renderer may give for `document`.
    fn render(&self, document: &Document) -> (r: Result<String, RenderError>)
        ensures
            r matches Ok(s) ==> self.renders(*document, s@),
            r matches Err(e) ==> self.fails_with(*document, e),
    ;
}

/// Somewhere the rendered text can be stored.
pub trait OutputWriter {
    type Error;

    /// Whether this writer has stored `contents` at `path`.  A writer that
    /// does not say what storing means for it claims nothing.
    open spec fn wrote(&self, path: &Path, contents: Seq<char>) -> bool {
        true
    }

    /// A success means `contents` was stored at `path`.
    fn write_text(&self, path: &Path, contents: &str) -> (r: Result<(), Self::Error>)
        ensures
            r is Ok ==> self.wrote(path, contents@),
    ;
}

/// Something that typesets a LaTeX file into a PDF.
pub trait PdfCompiler {
    type Error;

    /// Whether `pdf` is what this compiler made of `tex_path` in `work_dir`.
    /// A compiler that does not say what it makes claims nothing.
    open spec fn compiled(&self, tex_path: &Path, work_dir: &Path, pdf: PathBuf) -> bool {
        true
    }

    /// A success hands back the PDF made of `tex_path` in `work_dir`.
    fn compile(&self, tex_path: &Path, work_dir: &Path) -> (r: Result<PathBuf, Self::Error>)
        ensures
            r matches Ok(p) ==> self.compiled(tex_path, work_dir, p),
    ;
}

} // verus!
