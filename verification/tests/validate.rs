use andre_cv_core::{
    validate_document, Document, DocumentOptions, Entry, FontConfig, Header, Item,
    PersonalDetails, Section, Theme, ValidationError,
};

fn personal(name: &str) -> PersonalDetails {
    PersonalDetails {
        name: name.to_string(),
        address_one: None,
        address_two: None,
        address_three: None,
        town: None,
        phone: None,
        email: None,
        citizenship: None,
        github: None,
        linkedin: None,
        xing: None,
        homepage: None,
    }
}

fn doc(name: &str, subtitle: &str, sections: Vec<Section>) -> Document {
    Document {
        options: DocumentOptions {
            theme: Theme::ModernResume,
            font_size: "10pt".to_string(),
        },
        font: FontConfig::default(),
        personal: personal(name),
        header: Header {
            subtitle: subtitle.to_string(),
            image: None,
        },
        sections,
    }
}

#[test]
fn rejects_missing_name() {
    let document = Document {
        options: DocumentOptions {
            theme: Theme::ModernResume,
            font_size: "10pt".to_string(),
        },
        font: FontConfig::default(),
        personal: PersonalDetails {
            name: String::new(),
            address_one: None,
            address_two: None,
            address_three: None,
            town: None,
            phone: None,
            email: None,
            citizenship: None,
            github: None,
            linkedin: None,
            xing: None,
            homepage: None,
        },
        header: Header {
            subtitle: "Engineer".to_string(),
            image: None,
        },
        sections: vec![Section::Summary {
            title: "Summary".to_string(),
            body: "Builds things.".to_string(),
        }],
    };

    let error = validate_document(&document).unwrap_err();
    assert!(error.to_string().contains("personal.name is required"));
}

#[test]
fn accepts_complete_document() {
    let d = doc(
        "Ann",
        "Engineer",
        vec![
            Section::Summary {
                title: "S".to_string(),
                body: "b".to_string(),
            },
            Section::Items {
                title: "I".to_string(),
                items: vec![Item {
                    label: "l".to_string(),
                    value: "v".to_string(),
                }],
            },
        ],
    );
    assert!(validate_document(&d).is_ok());
}

#[test]
fn reports_every_problem_in_order() {
    let d = doc(
        " \t",
        "\u{3000}",
        vec![
            Section::Summary {
                title: " ".to_string(),
                body: "".to_string(),
            },
            Section::Entries {
                title: "E".to_string(),
                entries: vec![],
            },
            Section::Entries {
                title: "E2".to_string(),
                entries: vec![
                    Entry {
                        dates: None,
                        title: "ok".to_string(),
                        org: None,
                        location: None,
                        url: None,
                        bullets: vec!["fine".to_string()],
                    },
                    Entry {
                        dates: None,
                        title: "\n".to_string(),
                        org: None,
                        location: None,
                        url: None,
                        bullets: vec!["x".to_string(), " ".to_string()],
                    },
                ],
            },
            Section::Items {
                title: "I".to_string(),
                items: vec![Item {
                    label: "".to_string(),
                    value: " ".to_string(),
                }],
            },
            Section::Items {
                title: "J".to_string(),
                items: vec![],
            },
        ],
    );
    let e = validate_document(&d).unwrap_err();
    let expected = vec![
        "personal.name is required",
        "header.subtitle is required",
        "sections[0].title is required",
        "sections[0].body is required",
        "sections[1].entries must not be empty",
        "sections[2].entries[1].title is required",
        "sections[2].entries[1].bullets must not contain empty values",
        "sections[3].items[0].label is required",
        "sections[3].items[0].value is required",
        "sections[4].items must not be empty",
    ];
    assert_eq!(e.messages().to_vec(), expected);
    assert_eq!(e.to_string(), expected.join("; "));
}

#[test]
fn requires_a_section() {
    let e = validate_document(&doc("A", "B", vec![])).unwrap_err();
    assert_eq!(e.messages().to_vec(), vec!["at least one section is required"]);
}

#[test]
fn section_indices_past_nine_are_written_in_decimal() {
    let mut sections = Vec::new();
    for _ in 0..12 {
        sections.push(Section::Summary {
            title: "T".to_string(),
            body: "b".to_string(),
        });
    }
    sections.push(Section::Summary {
        title: "T".to_string(),
        body: " ".to_string(),
    });
    let e = validate_document(&doc("A", "B", sections)).unwrap_err();
    assert_eq!(e.messages().to_vec(), vec!["sections[12].body is required"]);
}

#[test]
fn validation_error_joins_messages() {
    let e = ValidationError::new(vec!["a".to_string(), "b".to_string()]);
    assert_eq!(e.to_string(), "a; b");
    assert_eq!(e.messages().len(), 2);
    assert_eq!(ValidationError::new(vec![]).to_string(), "");
}
