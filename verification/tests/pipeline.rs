use andre_cv_core::build::BuildError;
use andre_cv_core::render::RenderError;
use andre_cv_core::{
    BuildRequest, BuildResume, Document, DocumentOptions, DocumentRenderer, FontConfig, Header,
    LatexRenderer, OutputWriter, PdfCompiler, PersonalDetails, Section,
};
use std::cell::RefCell;
use std::path::{Path, PathBuf};

struct MemWriter {
    written: RefCell<Vec<(PathBuf, String)>>,
    fail: bool,
}

impl OutputWriter for MemWriter {
    type Error = String;

    fn write_text(&self, path: &Path, contents: &str) -> Result<(), String> {
        if self.fail {
            return Err("disk full".to_string());
        }
        self.written
            .borrow_mut()
            .push((path.to_path_buf(), contents.to_string()));
        Ok(())
    }
}

struct FakeCompiler {
    fail: bool,
}

impl PdfCompiler for FakeCompiler {
    type Error = String;

    fn compile(&self, tex_path: &Path, _work_dir: &Path) -> Result<PathBuf, String> {
        if self.fail {
            Err("latex failed".to_string())
        } else {
            Ok(tex_path.with_extension("pdf"))
        }
    }
}

struct FailingRenderer;

impl DocumentRenderer for FailingRenderer {
    fn render(&self, _document: &Document) -> Result<String, RenderError> {
        Err(RenderError::new("no"))
    }
}

fn document(name: &str) -> Document {
    Document {
        options: DocumentOptions::default(),
        font: FontConfig::default(),
        personal: PersonalDetails {
            name: name.to_string(),
            address_one: None,
            address_two: None,
            address_three: None,
            town: None,
            phone: None,
            email: None,
            citizenship: None,
            github: None,
            linkedin: None,
            xing: None,
            homepage: None,
        },
        header: Header {
            subtitle: "S".to_string(),
            image: None,
        },
        sections: vec![Section::Summary {
            title: "T".to_string(),
            body: "B".to_string(),
        }],
    }
}

fn request(name: &str, compile_pdf: bool) -> BuildRequest {
    BuildRequest {
        document: document(name),
        tex_path: PathBuf::from("/tmp/x/cv.tex"),
        work_dir: PathBuf::from("/tmp/x"),
        compile_pdf,
    }
}

#[test]
fn builds_and_compiles() {
    let writer = MemWriter {
        written: RefCell::new(vec![]),
        fail: false,
    };
    let pipeline = BuildResume::new(LatexRenderer::new(), writer, FakeCompiler { fail: false });
    let out = pipeline.execute(request("Ann", true)).unwrap();
    assert_eq!(out.tex_path, PathBuf::from("/tmp/x/cv.tex"));
    assert_eq!(out.pdf_path, Some(PathBuf::from("/tmp/x/cv.pdf")));
    let out = pipeline.execute(request("Ann", false)).unwrap();
    assert_eq!(out.pdf_path, None);
}

#[test]
fn invalid_document_stops_before_writing() {
    let writer = MemWriter {
        written: RefCell::new(vec![]),
        fail: false,
    };
    let pipeline = BuildResume::new(LatexRenderer::new(), writer, FakeCompiler { fail: false });
    match pipeline.execute(request(" ", true)) {
        Err(BuildError::Validation(e)) => {
            assert_eq!(e.messages().to_vec(), vec!["personal.name is required"])
        }
        other => panic!("unexpected {other:?}"),
    }
}

#[test]
fn each_step_reports_its_failure() {
    let ok_writer = || MemWriter {
        written: RefCell::new(vec![]),
        fail: false,
    };
    let p = BuildResume::new(FailingRenderer, ok_writer(), FakeCompiler { fail: false });
    assert!(matches!(p.execute(request("A", true)), Err(BuildError::Render(_))));
    let p = BuildResume::new(
        LatexRenderer::new(),
        MemWriter {
            written: RefCell::new(vec![]),
            fail: true,
        },
        FakeCompiler { fail: false },
    );
    assert!(matches!(p.execute(request("A", true)), Err(BuildError::Write(_))));
    let p = BuildResume::new(LatexRenderer::new(), ok_writer(), FakeCompiler { fail: true });
    assert!(matches!(p.execute(request("A", true)), Err(BuildError::Compile(_))));
    assert!(p.execute(request("A", false)).is_ok());
}

#[test]
fn requests_and_outputs_clone() {
    let r = request("Ann", true);
    let c = r.clone();
    assert_eq!(c.tex_path, r.tex_path);
    assert_eq!(c.work_dir, r.work_dir);
    assert_eq!(c.document, r.document);
    assert_eq!(c.compile_pdf, r.compile_pdf);
    let out = andre_cv_core::BuildOutput {
        tex_path: PathBuf::from("a.tex"),
        pdf_path: Some(PathBuf::from("a.pdf")),
    };
    assert_eq!(out.clone(), out);
}

struct SharedWriter(std::rc::Rc<RefCell<Vec<(PathBuf, String)>>>);

impl OutputWriter for SharedWriter {
    type Error = String;

    fn write_text(&self, path: &Path, contents: &str) -> Result<(), String> {
        self.0
            .borrow_mut()
            .push((path.to_path_buf(), contents.to_string()));
        Ok(())
    }
}

#[test]
fn writes_rendered_text_at_tex_path() {
    let log = std::rc::Rc::new(RefCell::new(vec![]));
    let pipeline = BuildResume::new(
        LatexRenderer::new(),
        SharedWriter(log.clone()),
        FakeCompiler { fail: false },
    );
    let req = request("Ann", true);
    let expected = andre_cv_core::render::render_latex(&req.document);
    let out = pipeline.execute(req).unwrap();
    assert_eq!(out.pdf_path, Some(PathBuf::from("/tmp/x/cv.pdf")));
    let written = log.borrow();
    assert_eq!(written.len(), 1);
    assert_eq!(written[0].0, PathBuf::from("/tmp/x/cv.tex"));
    assert_eq!(written[0].1, expected);
}

#[test]
fn build_error_messages() {
    let writer = MemWriter {
        written: RefCell::new(vec![]),
        fail: false,
    };
    let pipeline = BuildResume::new(FailingRenderer, writer, FakeCompiler { fail: false });
    match pipeline.execute(request(" ", true)) {
        Err(e) => assert_eq!(
            e.own_message().as_deref(),
            Some("validation failed: personal.name is required")
        ),
        Ok(_) => panic!("expected a validation error"),
    }
    match pipeline.execute(request("A", true)) {
        Err(e) => assert_eq!(e.own_message().as_deref(), Some("render failed: no")),
        Ok(_) => panic!("expected a render error"),
    }
    let e: BuildError<String, String> = BuildError::Write("disk full".to_string());
    assert_eq!(e.own_message(), None);
    let e: BuildError<String, String> = BuildError::Compile("x".to_string());
    assert_eq!(e.own_message(), None);
}
