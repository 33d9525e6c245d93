//! The résumé document model: options, fonts, personal details, header and
//! sections, and the themes a document can be typeset with.
use vstd::prelude::*;
use crate::text::{push_str, str_equals};

verus! {

/// A complete résumé, ready to be validated and rendered.
#[derive(Debug, Clone, PartialEq, Eq)]
pub struct Document {
    pub options: DocumentOptions,
    pub font: FontConfig,
    pub personal: PersonalDetails,
    pub header: Header,
    pub sections: Vec<Section>,
}

/// Class options of the LaTeX document.
#[derive(Debug, Clone, PartialEq, Eq)]
pub struct DocumentOptions {
    pub theme: Theme,
    pub font_size: String,
}

impl Default for DocumentOptions {
    /// The modern résumé theme at ten points.
    fn default() -> (r: Self)
        ensures
            r.theme == Theme::ModernResume,
            r.font_size@ == "10pt"@,
    {
        DocumentOptions { theme: Theme::ModernResume, font_size: "10pt".to_owned() }
    }
}

/// The main, sans-serif and monospaced font families.
#[derive(Debug, Clone, PartialEq, Eq)]
pub struct FontConfig {
    pub main: String,
    pub sans: String,
    pub mono: String,
}

/// The family every font slot has by default.
pub open spec fn default_font_family() -> Seq<char> {
    "Source Sans 3"@
}

impl Default for FontConfig {
    /// Source Sans 3 in every slot.
    fn default() -> (r: Self)
        ensures
            r.main@ == default_font_family(),
            r.sans@ == default_font_family(),
            r.mono@ == default_font_family(),
    {
        FontConfig {
            main: "Source Sans 3".to_owned(),
            sans: "Source Sans 3".to_owned(),
            mono: "Source Sans 3".to_owned(),
        }
    }
}

/// Who the résumé is about, and how to reach them.
#[derive(Debug, Clone, PartialEq, Eq)]
pub struct PersonalDetails {
    pub name: String,
    pub address_one: Option<String>,
    pub address_two: Option<String>,
    pub address_three: Option<String>,
    pub town: Option<String>,
    pub phone: Option<String>,
    pub email: Option<String>,
    pub citizenship: Option<String>,
    pub github: Option<String>,
    pub linkedin: Option<String>,
    pub xing: Option<String>,
    pub homepage: Option<String>,
}

/// The subtitle under the name, and an optional picture.
#[derive(Debug, Clone, PartialEq, Eq)]
pub struct Header {
    pub subtitle: String,
    pub image: Option<String>,
}

/// A titled part of the résumé.
#[derive(Debug, Clone, PartialEq, Eq)]
pub enum Section {
    Summary { title: String, body: String },
    Entries { title: String, entries: Vec<Entry> },
    Items { title: String, items: Vec<Item> },
}

/// The title of a section, whatever its kind.
pub open spec fn section_title(section: Section) -> Seq<char> {
    match section {
        Section::Summary { title, .. } => title@,
        Section::Entries { title, .. } => title@,
        Section::Items { title, .. } => title@,
    }
}

impl Section {
    /// The section's title.
    pub fn title(&self) -> (r: &str)
        ensures
            r@ == section_title(*self),
    {
        match self {
            Section::Summary { title, .. } => title.as_str(),
            Section::Entries { title, .. } => title.as_str(),
            Section::Items { title, .. } => title.as_str(),
        }
    }
}

/// A dated position, degree or project, with its bullet points.
#[derive(Debug, Clone, PartialEq, Eq)]
pub struct Entry {
    pub dates: Option<String>,
    pub title: String,
    pub org: Option<String>,
    pub location: Option<String>,
    pub url: Option<String>,
    pub bullets: Vec<String>,
}

/// A label with its value, such as a skill and its level.
#[derive(Debug, Clone, PartialEq, Eq)]
pub struct Item {
    pub label: String,
    pub value: String,
}

/// The layouts the document class offers.
#[derive(Debug, Clone, Copy, PartialEq, Eq, Structural)]
pub enum Theme {
    ClassicResume,
    ModernResume,
    TabularCv,
}

/// The name by which the document class knows a theme.
pub open spec fn theme_name(theme: Theme) -> Seq<char> {
    match theme {
        Theme::ClassicResume => "classic-resume"@,
        Theme::ModernResume => "modern-resume"@,
        Theme::TabularCv => "tabular-cv"@,
    }
}

/// What parsing `value` as a theme name gives.
pub open spec fn parse_theme(value: Seq<char>) -> Option<Theme> {
    if value == "classic-resume"@ {
        Some(Theme::ClassicResume)
    } else if value == "modern-resume"@ {
        Some(Theme::ModernResume)
    } else if value == "tabular-cv"@ {
        Some(Theme::TabularCv)
    } else {
        None
    }
}

/// A theme's name parses back to the theme, and a name parses to a theme
/// only when it is that theme's name.
pub proof fn lemma_theme_name_round_trip(theme: Theme, value: Seq<char>)
    ensures
        parse_theme(theme_name(theme)) == Some(theme),
        parse_theme(value) == Some(theme) ==> value == theme_name(theme),
{
    reveal_strlit("classic-resume");
    reveal_strlit("modern-resume");
    reveal_strlit("tabular-cv");
    assert("modern-resume"@[0] != "classic-resume"@[0]);
    assert("tabular-cv"@[0] != "classic-resume"@[0]);
    assert("tabular-cv"@[0] != "modern-resume"@[0]);
}

impl Theme {
    /// The theme's name, as the `theme=` class option spells it.
    pub fn as_str(self) -> (r: &'static str)
        ensures
            r@ == theme_name(self),
    {
        match self {
            Theme::ClassicResume => "classic-resume",
            Theme::ModernResume => "modern-resume",
            Theme::TabularCv => "tabular-cv",
        }
    }

    /// The theme named `value`, or the error that names the unknown value.
    pub fn parse(value: &str) -> (r: Result<Theme, ThemeParseError>)
        ensures
            match r {
                Ok(theme) => parse_theme(value@) == Some(theme),
                Err(e) => parse_theme(value@).is_none() && e.rejected() == value@,
            },
    {
        if str_equals(value, "classic-resume") {
            Ok(Theme::ClassicResume)
        } else if str_equals(value, "modern-resume") {
            Ok(Theme::ModernResume)
        } else if str_equals(value, "tabular-cv") {
            Ok(Theme::TabularCv)
        } else {
            Err(ThemeParseError::new(value))
        }
    }
}

/// A theme name that is none of the known ones.
#[derive(Debug, Clone, PartialEq, Eq)]
pub struct ThemeParseError {
    value: String,
}

/// The message of a theme parse error for the rejected `value`.
pub open spec fn theme_error_message(value: Seq<char>) -> Seq<char> {
    "unknown theme '"@ + value + "'; expected classic-resume, modern-resume, or tabular-cv"@
}

impl ThemeParseError {
    /// The error for the rejected name `value`.
    pub fn new(value: &str) -> (r: Self)
        ensures
            r.rejected() == value@,
    {
        ThemeParseError { value: value.to_owned() }
    }

    /// The rejected name.
    pub closed spec fn rejected(&self) -> Seq<char> {
        self.value@
    }

    /// The rejected name.
    pub fn value(&self) -> (r: &str)
        ensures
            r@ == self.rejected(),
    {
        self.value.as_str()
    }

    /// The message that names the rejected value and the accepted ones.
    pub fn to_string(&self) -> (r: String)
        ensures
            r@ == theme_error_message(self.rejected()),
    {
        let mut out = String::new();
        push_str(&mut out, "unknown theme '");
        push_str(&mut out, self.value.as_str());
        push_str(&mut out, "'; expected classic-resume, modern-resume, or tabular-cv");
        out
    }
}

impl std::str::FromStr for Theme {
    type Err = ThemeParseError;

    /// The theme named `value`, as `Theme::parse` reads it.
    fn from_str(value: &str) -> (r: Result<Self, Self::Err>)
        ensures
            match r {
                Ok(theme) => parse_theme(value@) == Some(theme),
                Err(e) => parse_theme(value@).is_none() && e.rejected() == value@,
            },
    {
        Theme::parse(value)
    }
}

} // verus!
