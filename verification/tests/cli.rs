use andre_cv_core::FontConfig;
use andre_cv_core::cli::{
    convert_sections, resolve_theme, BuildOptions, CliCommand, UsageError, YamlDocument,
    YamlEntry, YamlFont, YamlHeader, YamlItem, YamlPersonal, YamlSection,
};
use andre_cv_core::{Section, Theme};

fn args(v: &[&str]) -> Vec<String> {
    v.iter().map(|s| s.to_string()).collect()
}

#[test]
fn rejects_unknown_command() {
    let error = CliCommand::parse(args(&["nope"])).unwrap_err();
    assert!(matches!(error, UsageError::InvalidArgs(_)));
    match error {
        UsageError::InvalidArgs(m) => assert_eq!(m, "unknown command 'nope'; expected 'build'"),
        _ => unreachable!(),
    }
}

#[test]
fn help_wins() {
    assert!(matches!(CliCommand::parse(vec![]).unwrap(), CliCommand::Help));
    assert!(matches!(
        CliCommand::parse(args(&["nope", "--bogus", "-h"])).unwrap(),
        CliCommand::Help
    ));
    assert!(matches!(
        CliCommand::parse(args(&["build", "--help"])).unwrap(),
        CliCommand::Help
    ));
}

#[test]
fn parses_build_options() {
    let c = CliCommand::parse(args(&[
        "build",
        "--tex-only",
        "cv.yml",
        "--output-dir",
        "dist",
        "--name",
        "me",
        "--theme",
        "tabular-cv",
        "--keep-build-dir",
    ]))
    .unwrap();
    match c {
        CliCommand::Build(o) => {
            assert_eq!(o.input, "cv.yml");
            assert_eq!(o.output_dir, "dist");
            assert_eq!(o.name.as_deref(), Some("me"));
            assert_eq!(o.theme_override, Some(Theme::TabularCv));
            assert!(o.tex_only);
            assert!(o.keep_build_dir);
        }
        CliCommand::Help => panic!("expected build"),
    }
}

#[test]
fn build_defaults() {
    let o = BuildOptions::parse(args(&["in.yml"])).unwrap();
    assert_eq!(o.input, "in.yml");
    assert_eq!(o.output_dir, "out");
    assert_eq!(o.name, None);
    assert_eq!(o.theme_override, None);
    assert!(!o.tex_only);
    assert!(!o.keep_build_dir);
}

fn invalid_args(r: Result<BuildOptions, UsageError>) -> String {
    match r {
        Err(UsageError::InvalidArgs(m)) => m,
        other => panic!("unexpected {other:?}"),
    }
}

#[test]
fn refuses_bad_build_arguments() {
    assert_eq!(
        invalid_args(BuildOptions::parse(args(&[]))),
        "missing input YAML file: andre-cv build input.yml"
    );
    assert_eq!(
        invalid_args(BuildOptions::parse(args(&["a.yml", "b.yml"]))),
        "only one input YAML file can be provided"
    );
    assert_eq!(
        invalid_args(BuildOptions::parse(args(&["a.yml", "--fast"]))),
        "unknown flag '--fast'"
    );
    assert_eq!(
        invalid_args(BuildOptions::parse(args(&["a.yml", "--name"]))),
        "--name requires a value"
    );
    assert_eq!(
        invalid_args(BuildOptions::parse(args(&["--output-dir", "--tex-only", "a.yml"]))),
        "--output-dir requires a value"
    );
    match BuildOptions::parse(args(&["a.yml", "--theme", "fancy"])) {
        Err(UsageError::Theme(e)) => assert_eq!(e.value(), "fancy"),
        other => panic!("unexpected {other:?}"),
    }
}

#[test]
fn theme_resolution() {
    assert_eq!(
        resolve_theme(Some(Theme::ClassicResume), &Some("nonsense".to_string())).unwrap(),
        Theme::ClassicResume
    );
    assert_eq!(
        resolve_theme(None, &Some("tabular-cv".to_string())).unwrap(),
        Theme::TabularCv
    );
    assert_eq!(resolve_theme(None, &None).unwrap(), Theme::ModernResume);
    assert_eq!(
        resolve_theme(None, &Some("x".to_string())).unwrap_err().value(),
        "x"
    );
}

fn yaml_personal() -> YamlPersonal {
    YamlPersonal {
        name: "N".to_string(),
        address_one: None,
        address_two: None,
        address_three: None,
        town: Some("T".to_string()),
        phone: None,
        email: None,
        citizenship: None,
        github: None,
        linkedin: None,
        xing: None,
        homepage: None,
    }
}

fn yaml_section(kind: &str) -> YamlSection {
    YamlSection {
        kind: kind.to_string(),
        title: "Title".to_string(),
        body: None,
        entries: None,
        items: None,
    }
}

#[test]
fn converts_yaml_document() {
    let mut entries = yaml_section("entries");
    entries.entries = Some(vec![YamlEntry {
        dates: Some("2020".to_string()),
        title: "Job".to_string(),
        org: None,
        location: None,
        url: None,
        bullets: vec!["did".to_string()],
    }]);
    let mut items = yaml_section("items");
    items.items = Some(vec![YamlItem {
        label: "L".to_string(),
        value: "V".to_string(),
    }]);
    let y = YamlDocument {
        theme: None,
        font: Some(YamlFont {
            main: Some("Main".to_string()),
            sans: None,
            mono: None,
        }),
        personal: yaml_personal(),
        header: YamlHeader {
            subtitle: "Sub".to_string(),
            image: Some("me.png".to_string()),
        },
        sections: vec![yaml_section("summary"), entries, items],
    };
    let d = y
        .into_document(Theme::ClassicResume, Some("assets/me.png".to_string()))
        .unwrap();
    assert_eq!(d.options.theme, Theme::ClassicResume);
    assert_eq!(d.options.font_size, "10pt");
    assert_eq!(d.font.main, "Main");
    assert_eq!(d.font.sans, "Source Sans 3");
    assert_eq!(d.personal.name, "N");
    assert_eq!(d.personal.town.as_deref(), Some("T"));
    assert_eq!(d.header.subtitle, "Sub");
    assert_eq!(d.header.image.as_deref(), Some("assets/me.png"));
    assert_eq!(d.sections.len(), 3);
    assert_eq!(
        d.sections[0],
        Section::Summary {
            title: "Title".to_string(),
            body: String::new()
        }
    );
    match &d.sections[1] {
        Section::Entries { entries, .. } => {
            assert_eq!(entries.len(), 1);
            assert_eq!(entries[0].title, "Job");
            assert_eq!(entries[0].bullets, vec!["did".to_string()]);
        }
        _ => panic!("expected entries"),
    }
    match &d.sections[2] {
        Section::Items { items, .. } => {
            assert_eq!(items[0].label, "L");
            assert_eq!(items[0].value, "V");
        }
        _ => panic!("expected items"),
    }
}

#[test]
fn refuses_first_unknown_section_kind() {
    let r = convert_sections(vec![
        yaml_section("summary"),
        yaml_section("table"),
        yaml_section("chart"),
    ]);
    match r {
        Err(UsageError::InvalidInput(m)) => assert_eq!(
            m,
            "unknown section type 'table'; expected summary, entries, or items"
        ),
        other => panic!("unexpected {other:?}"),
    }
    let empty_entries = yaml_section("entries").into_section().unwrap();
    assert_eq!(
        empty_entries,
        Section::Entries {
            title: "Title".to_string(),
            entries: vec![]
        }
    );
}

#[test]
fn font_defaults_per_slot() {
    let f = FontConfig::from(YamlFont {
        main: None,
        sans: Some("S".to_string()),
        mono: None,
    });
    assert_eq!(f.main, "Source Sans 3");
    assert_eq!(f.sans, "S");
    assert_eq!(f.mono, "Source Sans 3");
    assert_eq!(FontConfig::from(YamlFont::default()), FontConfig::default());
}
