# andre-cv-core

Structured résumé data for the `andre-cv` LaTeX document class: the document
model, its validation, its rendering as LaTeX, the build pipeline that ties
them to a writer and a PDF compiler, and the command line of the `andre-cv`
tool. The functions under `src/` carry Verus contracts and are verified,
with these exceptions, which are trusted: `text::push_char` (a wrapper
around `String::push`), the contracts given to `PathBuf::as_path` and
`PathBuf::clone` in `src/ports.rs`, and the contracts of the port traits
(`DocumentRenderer`, `OutputWriter`, `PdfCompiler`), which each implementation
must keep: the implementations in `app/` are not verified.

- `src/schema.rs` — documents, sections, themes and theme names.
- `src/validate.rs` — what a complete document is, and the exact messages
  that validation reports otherwise.
- `src/render.rs` — LaTeX escaping and the exact text of a rendered document.
- `src/build/` — validate, render, write and compile, in that order.
- `src/cli.rs` — the command line and the YAML input shape.
- `src/ports.rs` — the traits the pipeline is built on.
- `src/text.rs` — white space, decimal numerals, joining.
- `app/main.rs` — the `andre-cv` executable: files, YAML via serde, lualatex.

The executable reads the class and style files from the directory named by
`ANDRE_CV_LATEX_DIR` (by default `latex` in the working directory).
