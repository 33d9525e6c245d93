use andre_cv_core::schema::ThemeParseError;
use andre_cv_core::{DocumentOptions, FontConfig, Section, Theme};
use std::str::FromStr;

#[test]
fn theme_names_round_trip() {
    for theme in [Theme::ClassicResume, Theme::ModernResume, Theme::TabularCv] {
        assert_eq!(Theme::parse(theme.as_str()).unwrap(), theme);
        assert_eq!(Theme::from_str(theme.as_str()).unwrap(), theme);
    }
    assert_eq!(Theme::ClassicResume.as_str(), "classic-resume");
    assert_eq!(Theme::ModernResume.as_str(), "modern-resume");
    assert_eq!(Theme::TabularCv.as_str(), "tabular-cv");
}

#[test]
fn unknown_theme_is_refused() {
    let e = Theme::parse("german-cv").unwrap_err();
    assert_eq!(e.value(), "german-cv");
    assert_eq!(
        e.to_string(),
        "unknown theme 'german-cv'; expected classic-resume, modern-resume, or tabular-cv"
    );
    assert_eq!(ThemeParseError::new("x").value(), "x");
}

#[test]
fn defaults() {
    let o = DocumentOptions::default();
    assert_eq!(o.theme, Theme::ModernResume);
    assert_eq!(o.font_size, "10pt");
    let f = FontConfig::default();
    assert_eq!(f.main, "Source Sans 3");
    assert_eq!(f.sans, "Source Sans 3");
    assert_eq!(f.mono, "Source Sans 3");
}

#[test]
fn section_titles() {
    let s = Section::Items {
        title: "Skills".to_string(),
        items: vec![],
    };
    assert_eq!(s.title(), "Skills");
    let s = Section::Summary {
        title: "About".to_string(),
        body: String::new(),
    };
    assert_eq!(s.title(), "About");
}
