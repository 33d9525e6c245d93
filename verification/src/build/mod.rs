//! The build use case: validate, render, write, and optionally compile.
use vstd::prelude::*;
use std::path::PathBuf;
use crate::ports::{DocumentRenderer, OutputWriter, PdfCompiler, path_of};
use crate::render::RenderError;
use crate::schema::Document;
use crate::text::{join, push_str};
use crate::validate::{ValidationError, validate_document, is_valid_document, document_messages};

verus! {

/// What to build: the document, where its LaTeX source goes, the directory
/// to typeset in, and whether to typeset at all.
#[derive(Debug, Clone)]
pub struct BuildRequest {
    pub document: Document,
    pub tex_path: PathBuf,
    pub work_dir: PathBuf,
    pub compile_pdf: bool,
}

/// Where the LaTeX source was written, and the PDF when one was made.
#[derive(Debug, Clone, PartialEq, Eq)]
pub struct BuildOutput {
    pub tex_path: PathBuf,
    pub pdf_path: Option<PathBuf>,
}

/// The step at which a build stopped, with that step's error.
#[derive(Debug)]
pub enum BuildError<WriteError, CompileError> {
    Validation(ValidationError),
    Render(RenderError),
    Write(WriteError),
    Compile(CompileError),
}

/// A build pipeline over a renderer, a writer and a compiler.
pub struct BuildResume<R, W, C> {
    renderer: R,
    writer: W,
    compiler: C,
}

impl<R, W, C> BuildResume<R, W, C> {
    /// The pipeline over the three parts.
    pub fn new(renderer: R, writer: W, compiler: C) -> (r: Self)
        ensures
            r.parts() == (renderer, writer, compiler),
    {
        BuildResume { renderer, writer, compiler }
    }

    /// The renderer, writer and compiler of the pipeline.
    pub closed spec fn parts(&self) -> (R, W, C) {
        (self.renderer, self.writer, self.compiler)
    }
}

impl<R: DocumentRenderer, W: OutputWriter, C: PdfCompiler> BuildResume<R, W, C> {
    /// Validates the document, renders it, writes the text to `tex_path`, and
    /// typesets it when asked.  An invalid document stops the build before
    /// anything is rendered, with exactly the validation messages; a valid
    /// one is rendered, and whatever the parts answer, a success names the
    /// requested LaTeX path and carries a PDF exactly when one was asked for.
    pub fn execute(&self, request: BuildRequest) -> (r: Result<
        BuildOutput,
        BuildError<W::Error, C::Error>,
    >)
        ensures
            (r matches Err(BuildError::Validation(_))) <==> !is_valid_document(request.document),
            r matches Err(BuildError::Validation(e)) ==> e@ == document_messages(request.document),
            r matches Err(BuildError::Compile(_)) ==> request.compile_pdf,
            r matches Err(BuildError::Render(e)) ==> {
                &&& is_valid_document(request.document)
                &&& self.parts().0.fails_with(request.document, e)
            },
            r matches Err(BuildError::Write(_)) ==> {
                &&& is_valid_document(request.document)
                &&& exists|t: Seq<char>| self.parts().0.renders(request.document, t)
            },
            r matches Err(BuildError::Compile(_)) ==> {
                &&& is_valid_document(request.document)
                &&& exists|t: Seq<char>|
                    #![trigger self.parts().0.renders(request.document, t)]
                    self.parts().0.renders(request.document, t) && self.parts().1.wrote(
                        path_of(request.tex_path),
                        t,
                    )
            },
            r matches Ok(out) ==> {
                &&& is_valid_document(request.document)
                &&& out.tex_path == request.tex_path
                &&& (out.pdf_path is Some <==> request.compile_pdf)
                &&& exists|t: Seq<char>|
                    #![trigger self.parts().0.renders(request.document, t)]
                    self.parts().0.renders(request.document, t) && self.parts().1.wrote(
                        path_of(request.tex_path),
                        t,
                    )
                &&& out.pdf_path matches Some(p) ==> self.parts().2.compiled(
                    path_of(request.tex_path),
                    path_of(request.work_dir),
                    p,
                )
            },
    {
        match validate_document(&request.document) {
            Ok(()) => {},
            Err(e) => {
                return Err(BuildError::Validation(e));
            },
        }
        let tex = match self.renderer.render(&request.document) {
            Ok(tex) => tex,
            Err(e) => {
                return Err(BuildError::Render(e));
            },
        };
        assert(self.parts().0.renders(request.document, tex@));
        match self.writer.write_text(request.tex_path.as_path(), tex.as_str()) {
            Ok(()) => {},
            Err(e) => {
                return Err(BuildError::Write(e));
            },
        }
        assert(self.parts().1.wrote(path_of(request.tex_path), tex@));
        let pdf_path = if request.compile_pdf {
            match self.compiler.compile(request.tex_path.as_path(), request.work_dir.as_path()) {
                Ok(p) => Some(p),
                Err(e) => {
                    return Err(BuildError::Compile(e));
                },
            }
        } else {
            None
        };
        Ok(BuildOutput { tex_path: request.tex_path, pdf_path })
    }
}

/// The message of a build error, for the steps whose errors the library
/// owns: `validation failed: ` and the joined validation messages, or
/// `render failed: ` and the render error's text.
pub open spec fn own_build_message<WriteError, CompileError>(
    error: BuildError<WriteError, CompileError>,
) -> Option<Seq<char>> {
    match error {
        BuildError::Validation(e) => Some("validation failed: "@ + join(e@, "; "@)),
        BuildError::Render(e) => Some("render failed: "@ + e.text()),
        _ => None,
    }
}

impl<WriteError, CompileError> BuildError<WriteError, CompileError> {
    /// The message of a validation or render failure; `None` for a failure
    /// of the writer or the compiler, whose errors describe themselves.
    pub fn own_message(&self) -> (r: Option<String>)
        ensures
            match (r, own_build_message(*self)) {
                (Some(m), Some(t)) => m@ == t,
                (None, None) => true,
                _ => false,
            },
    {
        match self {
            BuildError::Validation(e) => {
                let mut m = String::new();
                push_str(&mut m, "validation failed: ");
                let joined = e.to_string();
                push_str(&mut m, joined.as_str());
                Some(m)
            },
            BuildError::Render(e) => {
                let mut m = String::new();
                push_str(&mut m, "render failed: ");
                let text = e.to_string();
                push_str(&mut m, text.as_str());
                Some(m)
            },
            BuildError::Write(_) => None,
            BuildError::Compile(_) => None,
        }
    }
}

} // verus!
