use andre_cv_core::render::{escape_latex, escape_latex_path, render_latex, RenderError};
use andre_cv_core::{
    Document, DocumentOptions, DocumentRenderer, Entry, FontConfig, Header, Item, LatexRenderer,
    PersonalDetails, Section, Theme,
};

fn personal(name: &str) -> PersonalDetails {
    PersonalDetails {
        name: name.to_string(),
        address_one: None,
        address_two: None,
        address_three: None,
        town: None,
        phone: None,
        email: None,
        citizenship: None,
        github: None,
        linkedin: None,
        xing: None,
        homepage: None,
    }
}

#[test]
fn escapes_latex_special_characters() {
    assert_eq!(
        escape_latex(r#"\&%$#_{}~^"#),
        r#"\textbackslash{}\&\%\$\#\_\{\}\textasciitilde{}\textasciicircum{}"#
    );
}

#[test]
fn renders_entries_and_items() {
    let document = Document {
        options: DocumentOptions {
            theme: Theme::ModernResume,
            font_size: "10pt".to_string(),
        },
        font: FontConfig::default(),
        personal: PersonalDetails {
            name: "Dr. Henry Jones, Jr.".to_string(),
            address_one: None,
            address_two: None,
            address_three: None,
            town: Some("Bedford".to_string()),
            phone: None,
            email: Some("indy@example.com".to_string()),
            citizenship: None,
            github: None,
            linkedin: None,
            xing: None,
            homepage: None,
        },
        header: Header {
            subtitle: "Archaeologist".to_string(),
            image: None,
        },
        sections: vec![
            Section::Entries {
                title: "Experience".to_string(),
                entries: vec![Entry {
                    dates: Some("1936 - Present".to_string()),
                    title: "Professor".to_string(),
                    org: Some("Marshall College".to_string()),
                    location: Some("Bedford".to_string()),
                    url: None,
                    bullets: vec!["Lectures on archaeology.".to_string()],
                }],
            },
            Section::Items {
                title: "Skills".to_string(),
                items: vec![Item {
                    label: "Languages".to_string(),
                    value: "English, German".to_string(),
                }],
            },
        ],
    };

    let tex = LatexRenderer::new().render(&document).unwrap();
    assert!(tex.contains("\\documentclass[theme=modern-resume,10pt]{andre-cv}"));
    assert!(tex.contains("\\cventry["));
    assert!(tex.contains("\\cvitem{Languages}{English, German}"));
}

#[test]
fn renders_whole_document_exactly() {
    let mut p = personal("A & B");
    p.town = Some("   ".to_string());
    p.phone = Some("555_1".to_string());
    p.homepage = Some("example.com".to_string());
    let document = Document {
        options: DocumentOptions {
            theme: Theme::TabularCv,
            font_size: "11pt".to_string(),
        },
        font: FontConfig {
            main: "Main".to_string(),
            sans: "Sans".to_string(),
            mono: "Mono".to_string(),
        },
        personal: p,
        header: Header {
            subtitle: "Dev".to_string(),
            image: Some("C:\\my pics\\me.png".to_string()),
        },
        sections: vec![
            Section::Summary {
                title: "About".to_string(),
                body: "100% ~fun~".to_string(),
            },
            Section::Entries {
                title: "Work".to_string(),
                entries: vec![Entry {
                    dates: None,
                    title: "Job".to_string(),
                    org: None,
                    location: Some("Here".to_string()),
                    url: Some("https://x.y/a_b".to_string()),
                    bullets: vec!["one".to_string(), "two #2".to_string()],
                }],
            },
        ],
    };
    let expected = "\\documentclass[theme=tabular-cv,11pt]{andre-cv}\n\
\n\
\\setmainfont{Main}\n\
\\setsansfont{Sans}\n\
\\setmonofont{Mono}\n\
\n\
\\SetName{A \\& B}\n\
\\SetPhone{555\\_1}\n\
\\SetHomepage{example.com}\n\
\n\
\\begin{document}\n\
\\DisplayHeader{Dev}{C:/my\\space pics/me.png}\n\
\n\
\\section{About}\n\
100\\% \\textasciitilde{}fun\\textasciitilde{}\n\
\n\
\\section{Work}\n\
\\cventry[\n\
\tdates = {},\n\
\ttitle = {Job},\n\
\torg = {},\n\
\tlocation = {Here},\n\
\turl = {https://x.y/a\\_b},\n\
]{\\cvitemize{\n\
\t\\item one\n\
\t\\item two \\#2\n\
}}\n\
\n\
\\end{document}\n";
    assert_eq!(render_latex(&document), expected);
    assert_eq!(LatexRenderer::new().render(&document).unwrap(), expected);
}

#[test]
fn render_frame_on_empty_sections() {
    let document = Document {
        options: DocumentOptions::default(),
        font: FontConfig::default(),
        personal: personal("X"),
        header: Header {
            subtitle: "Y".to_string(),
            image: None,
        },
        sections: vec![],
    };
    let tex = render_latex(&document);
    assert!(tex.starts_with("\\documentclass[theme=modern-resume,10pt]{andre-cv}\n"));
    assert!(tex.ends_with("\\end{document}\n"));
    assert!(tex.contains("\\setmainfont{Source Sans 3}\n"));
    assert!(tex.contains("\\DisplayHeader{Y}\n"));
}

#[test]
fn escape_leaves_plain_text_and_is_piecewise() {
    assert_eq!(escape_latex("plain text 123"), "plain text 123");
    assert_eq!(escape_latex(""), "");
    let a = "x_y";
    let b = "{z}";
    assert_eq!(
        escape_latex(&format!("{a}{b}")),
        format!("{}{}", escape_latex(a), escape_latex(b))
    );
}

#[test]
fn escaped_text_is_safe() {
    let e = escape_latex("a~b^c&d%e$f#g_h");
    assert!(!e.contains('~'));
    assert!(!e.contains('^'));
    let chars: Vec<char> = e.chars().collect();
    for (i, c) in chars.iter().enumerate() {
        if "&%$#_".contains(*c) {
            assert!(i > 0 && chars[i - 1] == '\\');
        }
    }
}

#[test]
fn escapes_paths() {
    assert_eq!(escape_latex_path("a\\b c"), "a/b\\space c");
    assert_eq!(escape_latex_path("assets/me.png"), "assets/me.png");
}

#[test]
fn render_error_keeps_its_message() {
    let e = RenderError::new("boom");
    assert_eq!(e.to_string(), "boom");
}

#[test]
fn escaping_keeps_texts_apart() {
    let texts = [
        "\\",
        "\\textbackslash{}",
        "~",
        "\\textasciitilde{}",
        "^",
        "}",
        "\\}",
        "a",
        "",
    ];
    for (i, a) in texts.iter().enumerate() {
        for (j, b) in texts.iter().enumerate() {
            assert_eq!(escape_latex(a) == escape_latex(b), i == j, "{a:?} {b:?}");
        }
    }
}
