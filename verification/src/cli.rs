//! The command line of the `andre-cv` tool, and the shape of its YAML input:
//! what the arguments ask for, and how the input becomes a `Document`.
use vstd::prelude::*;
use crate::render::text_or_empty;
use crate::schema::{
    Document, DocumentOptions, Entry, FontConfig, Header, Item, PersonalDetails, Section, Theme,
    ThemeParseError, parse_theme, default_font_family, theme_name, lemma_theme_name_round_trip,
};
use crate::text::{push_str, str_equals, views};

verus! {

// ---------------------------------------------------------------------------
// Errors
// ---------------------------------------------------------------------------

/// Why the arguments or the input were refused.
#[derive(Debug)]
pub enum UsageError {
    InvalidArgs(String),
    InvalidInput(String),
    Theme(ThemeParseError),
}

/// The content of a `UsageError`.
pub enum Fault {
    InvalidArgs(Seq<char>),
    InvalidInput(Seq<char>),
    Theme(Seq<char>),
}

impl View for UsageError {
    type V = Fault;

    open spec fn view(&self) -> Fault {
        match self {
            UsageError::InvalidArgs(m) => Fault::InvalidArgs(m@),
            UsageError::InvalidInput(m) => Fault::InvalidInput(m@),
            UsageError::Theme(e) => Fault::Theme(e.rejected()),
        }
    }
}

// ---------------------------------------------------------------------------
// Arguments
// ---------------------------------------------------------------------------

/// What `andre-cv build` was asked to do.
#[derive(Debug)]
pub struct BuildOptions {
    pub input: String,
    pub output_dir: String,
    pub name: Option<String>,
    pub theme_override: Option<Theme>,
    pub tex_only: bool,
    pub keep_build_dir: bool,
}

/// The command the arguments name.
#[derive(Debug)]
pub enum CliCommand {
    Build(BuildOptions),
    Help,
}

/// The options read so far, while the arguments are scanned.
pub struct ScanState {
    pub input: Option<Seq<char>>,
    pub output_dir: Seq<char>,
    pub name: Option<Seq<char>>,
    pub theme_override: Option<Theme>,
    pub tex_only: bool,
    pub keep_build_dir: bool,
}

/// The content of `BuildOptions`.
pub struct OptionsModel {
    pub input: Seq<char>,
    pub output_dir: Seq<char>,
    pub name: Option<Seq<char>>,
    pub theme_override: Option<Theme>,
    pub tex_only: bool,
    pub keep_build_dir: bool,
}

/// The content of `CliCommand`.
pub enum CommandModel {
    Build(OptionsModel),
    Help,
}

/// The text of an optional string.
pub open spec fn opt_view(o: Option<String>) -> Option<Seq<char>> {
    match o {
        Some(s) => Some(s@),
        None => None,
    }
}

impl View for BuildOptions {
    type V = OptionsModel;

    open spec fn view(&self) -> OptionsModel {
        OptionsModel {
            input: self.input@,
            output_dir: self.output_dir@,
            name: opt_view(self.name),
            theme_override: self.theme_override,
            tex_only: self.tex_only,
            keep_build_dir: self.keep_build_dir,
        }
    }
}

impl View for CliCommand {
    type V = CommandModel;

    open spec fn view(&self) -> CommandModel {
        match self {
            CliCommand::Build(o) => CommandModel::Build(o@),
            CliCommand::Help => CommandModel::Help,
        }
    }
}

/// Whether an argument starts with a dash.
pub open spec fn starts_with_dash(s: Seq<char>) -> bool {
    s.len() > 0 && s[0] == '-'
}

/// The value that follows a flag: the argument at `index`, unless there is
/// none or it is itself a flag.
pub open spec fn flag_value(args: Seq<Seq<char>>, index: int, flag: Seq<char>) -> Result<
    Seq<char>,
    Fault,
> {
    if 0 <= index < args.len() && !starts_with_dash(args[index]) {
        Ok(args[index])
    } else {
        Err(Fault::InvalidArgs(flag + " requires a value"@))
    }
}

/// Scans the build arguments from `index` on, starting from `st`: the state
/// at the end, or the first refusal.
pub open spec fn scan_from(args: Seq<Seq<char>>, index: int, st: ScanState) -> Result<
    ScanState,
    Fault,
>
    decreases args.len() - index,
{
    if index < 0 || index >= args.len() {
        Ok(st)
    } else {
        let a = args[index];
        if a == "--output-dir"@ {
            match flag_value(args, index + 1, "--output-dir"@) {
                Ok(v) => scan_from(args, index + 2, ScanState { output_dir: v, ..st }),
                Err(e) => Err(e),
            }
        } else if a == "--name"@ {
            match flag_value(args, index + 1, "--name"@) {
                Ok(v) => scan_from(args, index + 2, ScanState { name: Some(v), ..st }),
                Err(e) => Err(e),
            }
        } else if a == "--theme"@ {
            match flag_value(args, index + 1, "--theme"@) {
                Ok(v) => match parse_theme(v) {
                    Some(t) => scan_from(args, index + 2, ScanState { theme_override: Some(t), ..st }),
                    None => Err(Fault::Theme(v)),
                },
                Err(e) => Err(e),
            }
        } else if a == "--tex-only"@ {
            scan_from(args, index + 1, ScanState { tex_only: true, ..st })
        } else if a == "--keep-build-dir"@ {
            scan_from(args, index + 1, ScanState { keep_build_dir: true, ..st })
        } else if starts_with_dash(a) {
            Err(Fault::InvalidArgs("unknown flag '"@ + a + "'"@))
        } else if st.input is Some {
            Err(Fault::InvalidArgs("only one input YAML file can be provided"@))
        } else {
            scan_from(args, index + 1, ScanState { input: Some(a), ..st })
        }
    }
}

/// The state before any argument: output to `out`, nothing else set.
pub open spec fn initial_scan() -> ScanState {
    ScanState {
        input: None,
        output_dir: "out"@,
        name: None,
        theme_override: None,
        tex_only: false,
        keep_build_dir: false,
    }
}

/// The message when no input file was named.
pub open spec fn missing_input_message() -> Seq<char> {
    "missing input YAML file: andre-cv build input.yml"@
}

/// What the arguments of `andre-cv build` ask for.
pub open spec fn parse_build_options(args: Seq<Seq<char>>) -> Result<OptionsModel, Fault> {
    match scan_from(args, 0, initial_scan()) {
        Ok(st) => match st.input {
            Some(input) => Ok(
                OptionsModel {
                    input,
                    output_dir: st.output_dir,
                    name: st.name,
                    theme_override: st.theme_override,
                    tex_only: st.tex_only,
                    keep_build_dir: st.keep_build_dir,
                },
            ),
            None => Err(Fault::InvalidArgs(missing_input_message())),
        },
        Err(e) => Err(e),
    }
}

/// Whether some argument asks for help.
pub open spec fn asks_for_help(args: Seq<Seq<char>>) -> bool {
    exists|i: int| 0 <= i < args.len() && (#[trigger] args[i] == "-h"@ || args[i] == "--help"@)
}

/// What the whole command line asks for: help when there are no arguments
/// or any asks for it, otherwise the command its first argument names.
pub open spec fn parse_command(args: Seq<Seq<char>>) -> Result<CommandModel, Fault> {
    if args.len() == 0 || asks_for_help(args) {
        Ok(CommandModel::Help)
    } else if args[0] == "build"@ {
        match parse_build_options(args.drop_first()) {
            Ok(o) => Ok(CommandModel::Build(o)),
            Err(e) => Err(e),
        }
    } else {
        Err(Fault::InvalidArgs("unknown command '"@ + args[0] + "'; expected 'build'"@))
    }
}

/// The content of the exec scan state.
pub open spec fn scan_view(
    input: Option<String>,
    output_dir: String,
    name: Option<String>,
    theme_override: Option<Theme>,
    tex_only: bool,
    keep_build_dir: bool,
) -> ScanState {
    ScanState {
        input: opt_view(input),
        output_dir: output_dir@,
        name: opt_view(name),
        theme_override,
        tex_only,
        keep_build_dir,
    }
}

/// Whether `s` starts with a dash.
fn starts_with_dash_str(s: &str) -> (r: bool)
    ensures
        r == starts_with_dash(s@),
{
    for c in it: s.chars()
        invariant
            it.seq() == s@,
            it.index() == 0,
    {
        return c == '-';
    }
    false
}

/// The message `prefix` + `middle` + `suffix`.
fn message3(prefix: &str, middle: &str, suffix: &str) -> (r: String)
    ensures
        r@ == prefix@ + middle@ + suffix@,
{
    let mut m = String::new();
    push_str(&mut m, prefix);
    push_str(&mut m, middle);
    push_str(&mut m, suffix);
    m
}

/// The value after `flag`, at `index`.
pub fn required_value<'a>(args: &'a [String], index: usize, flag: &str) -> (r: Result<
    &'a str,
    UsageError,
>)
    ensures
        match (r, flag_value(views(args@), index as int, flag@)) {
            (Ok(v), Ok(w)) => v@ == w,
            (Err(e), Err(f)) => e@ == f,
            _ => false,
        },
{
    if index < args.len() && !starts_with_dash_str(args[index].as_str()) {
        Ok(args[index].as_str())
    } else {
        let mut m = String::new();
        push_str(&mut m, flag);
        push_str(&mut m, " requires a value");
        Err(UsageError::InvalidArgs(m))
    }
}

impl BuildOptions {
    /// Reads the arguments of `andre-cv build`: value flags take the next
    /// argument, switches set themselves, other dashed arguments are refused,
    /// and exactly one input file must be named.
    pub fn parse(args: Vec<String>) -> (r: Result<BuildOptions, UsageError>)
        ensures
            match (r, parse_build_options(views(args@))) {
                (Ok(o), Ok(m)) => o@ == m,
                (Err(e), Err(f)) => e@ == f,
                _ => false,
            },
            r matches Ok(o) ==> {
                &&& o.tex_only <==> exists|i: int|
                    0 <= i < args@.len() && #[trigger] args@[i]@ == "--tex-only"@
                &&& o.keep_build_dir <==> exists|i: int|
                    0 <= i < args@.len() && #[trigger] args@[i]@ == "--keep-build-dir"@
            },
    {
        let ghost a = views(args@);
        proof {
            lemma_switches_set_only_themselves(a);
            assert forall|i: int| 0 <= i < args@.len() implies #[trigger] args@[i]@ == a[i] by {}
        }
        let mut input: Option<String> = None;
        let mut output_dir: String = "out".to_owned();
        let mut name: Option<String> = None;
        let mut theme_override: Option<Theme> = None;
        let mut tex_only = false;
        let mut keep_build_dir = false;
        let mut index: usize = 0;
        let n = args.len();
        while index < n
            invariant
                n == args.len(),
                a == views(args@),
                index <= n,
                scan_from(a, 0, initial_scan()) == scan_from(
                    a,
                    index as int,
                    scan_view(input, output_dir, name, theme_override, tex_only, keep_build_dir),
                ),
            decreases n - index,
        {
            let arg = args[index].as_str();
            if str_equals(arg, "--output-dir") {
                index += 1;
                match required_value(args.as_slice(), index, "--output-dir") {
                    Ok(v) => {
                        output_dir = v.to_owned();
                    },
                    Err(e) => {
                        return Err(e);
                    },
                }
            } else if str_equals(arg, "--name") {
                index += 1;
                match required_value(args.as_slice(), index, "--name") {
                    Ok(v) => {
                        name = Some(v.to_owned());
                    },
                    Err(e) => {
                        return Err(e);
                    },
                }
            } else if str_equals(arg, "--theme") {
                index += 1;
                match required_value(args.as_slice(), index, "--theme") {
                    Ok(v) => match Theme::parse(v) {
                        Ok(t) => {
                            theme_override = Some(t);
                        },
                        Err(e) => {
                            return Err(UsageError::Theme(e));
                        },
                    },
                    Err(e) => {
                        return Err(e);
                    },
                }
            } else if str_equals(arg, "--tex-only") {
                tex_only = true;
            } else if str_equals(arg, "--keep-build-dir") {
                keep_build_dir = true;
            } else if starts_with_dash_str(arg) {
                return Err(UsageError::InvalidArgs(message3("unknown flag '", arg, "'")));
            } else {
                if input.is_some() {
                    return Err(
                        UsageError::InvalidArgs(
                            "only one input YAML file can be provided".to_owned(),
                        ),
                    );
                }
                input = Some(arg.to_owned());
            }
            index += 1;
        }
        match input {
            Some(input) => Ok(
                BuildOptions { input, output_dir, name, theme_override, tex_only, keep_build_dir },
            ),
            None => Err(
                UsageError::InvalidArgs(
                    "missing input YAML file: andre-cv build input.yml".to_owned(),
                ),
            ),
        }
    }
}

impl CliCommand {
    /// Reads the whole command line.
    pub fn parse(args: Vec<String>) -> (r: Result<CliCommand, UsageError>)
        ensures
            match (r, parse_command(views(args@))) {
                (Ok(c), Ok(m)) => c@ == m,
                (Err(e), Err(f)) => e@ == f,
                _ => false,
            },
    {
        let ghost a = views(args@);
        let n = args.len();
        if n == 0 {
            return Ok(CliCommand::Help);
        }
        for i in 0..n
            invariant
                n == args.len(),
                a == views(args@),
                forall|j: int| 0 <= j < i ==> !(#[trigger] a[j] == "-h"@ || a[j] == "--help"@),
        {
            if str_equals(args[i].as_str(), "-h") || str_equals(args[i].as_str(), "--help") {
                assert(a[i as int] == args@[i as int]@);
                return Ok(CliCommand::Help);
            }
        }
        if str_equals(args[0].as_str(), "build") {
            let mut rest: Vec<String> = Vec::new();
            for i in 1..n
                invariant
                    n == args.len(),
                    a == views(args@),
                    1 <= n,
                    views(rest@) == a.drop_first().take(i - 1),
            {
                let ghost before = rest@;
                let c = args[i].clone();
                rest.push(c);
                assert(rest@ == before.push(c));
                assert(views(rest@) =~= views(before).push(a[i as int]));
                assert(views(rest@) =~= a.drop_first().take(i as int));
            }
            assert(a.drop_first().take(n - 1) =~= a.drop_first());
            match BuildOptions::parse(rest) {
                Ok(o) => Ok(CliCommand::Build(o)),
                Err(e) => Err(e),
            }
        } else {
            Err(
                UsageError::InvalidArgs(
                    message3("unknown command '", args[0].as_str(), "'; expected 'build'"),
                ),
            )
        }
    }
}

// ---------------------------------------------------------------------------
// YAML input
// ---------------------------------------------------------------------------

/// The input file as read: everything optional is still optional, and
/// sections still carry their kind as a word.
#[derive(Debug)]
pub struct YamlDocument {
    pub theme: Option<String>,
    pub font: Option<YamlFont>,
    pub personal: YamlPersonal,
    pub header: YamlHeader,
    pub sections: Vec<YamlSection>,
}

/// The fonts as read; a missing one takes the default family.
#[derive(Debug, Default)]
pub struct YamlFont {
    pub main: Option<String>,
    pub sans: Option<String>,
    pub mono: Option<String>,
}

/// The personal details as read.
#[derive(Debug)]
pub struct YamlPersonal {
    pub name: String,
    pub address_one: Option<String>,
    pub address_two: Option<String>,
    pub address_three: Option<String>,
    pub town: Option<String>,
    pub phone: Option<String>,
    pub email: Option<String>,
    pub citizenship: Option<String>,
    pub github: Option<String>,
    pub linkedin: Option<String>,
    pub xing: Option<String>,
    pub homepage: Option<String>,
}

/// The header as read; the image is the path given in the file.
#[derive(Debug)]
pub struct YamlHeader {
    pub subtitle: String,
    pub image: Option<String>,
}

/// A section as read: its kind (`type` in the file) and every field any kind
/// may use.
#[derive(Debug)]
pub struct YamlSection {
    pub kind: String,
    pub title: String,
    pub body: Option<String>,
    pub entries: Option<Vec<YamlEntry>>,
    pub items: Option<Vec<YamlItem>>,
}

/// An entry as read.
#[derive(Debug)]
pub struct YamlEntry {
    pub dates: Option<String>,
    pub title: String,
    pub org: Option<String>,
    pub location: Option<String>,
    pub url: Option<String>,
    pub bullets: Vec<String>,
}

/// An item as read.
#[derive(Debug)]
pub struct YamlItem {
    pub label: String,
    pub value: String,
}

/// The theme of the document: the override when there is one, otherwise the
/// one the file names, otherwise the modern résumé.
pub open spec fn resolved_theme(theme_override: Option<Theme>, theme: Option<Seq<char>>) -> Result<
    Theme,
    Seq<char>,
> {
    match theme_override {
        Some(t) => Ok(t),
        None => match theme {
            Some(name) => match parse_theme(name) {
                Some(t) => Ok(t),
                None => Err(name),
            },
            None => Ok(Theme::ModernResume),
        },
    }
}

/// The family of a font slot: the one given, or the default.
pub open spec fn family_or_default(o: Option<String>) -> Seq<char> {
    match o {
        Some(s) => s@,
        None => default_font_family(),
    }
}

/// Whether `f` holds the fonts that `font` asks for.
pub open spec fn font_config_from(font: Option<YamlFont>, f: FontConfig) -> bool {
    match font {
        Some(y) => {
            &&& f.main@ == family_or_default(y.main)
            &&& f.sans@ == family_or_default(y.sans)
            &&& f.mono@ == family_or_default(y.mono)
        },
        None => {
            &&& f.main@ == default_font_family()
            &&& f.sans@ == default_font_family()
            &&& f.mono@ == default_font_family()
        },
    }
}

/// The personal details, field for field.
pub open spec fn personal_from(y: YamlPersonal) -> PersonalDetails {
    PersonalDetails {
        name: y.name,
        address_one: y.address_one,
        address_two: y.address_two,
        address_three: y.address_three,
        town: y.town,
        phone: y.phone,
        email: y.email,
        citizenship: y.citizenship,
        github: y.github,
        linkedin: y.linkedin,
        xing: y.xing,
        homepage: y.homepage,
    }
}

/// The entry, field for field.
pub open spec fn entry_from(y: YamlEntry) -> Entry {
    Entry {
        dates: y.dates,
        title: y.title,
        org: y.org,
        location: y.location,
        url: y.url,
        bullets: y.bullets,
    }
}

/// The item, field for field.
pub open spec fn item_from(y: YamlItem) -> Item {
    Item { label: y.label, value: y.value }
}

/// The entries of a section as read, none when absent.
pub open spec fn yaml_entries(o: Option<Vec<YamlEntry>>) -> Seq<YamlEntry> {
    match o {
        Some(v) => v@,
        None => Seq::empty(),
    }
}

/// The items of a section as read, none when absent.
pub open spec fn yaml_items(o: Option<Vec<YamlItem>>) -> Seq<YamlItem> {
    match o {
        Some(v) => v@,
        None => Seq::empty(),
    }
}

/// Whether `kind` names a kind of section.
pub open spec fn is_section_kind(kind: Seq<char>) -> bool {
    kind == "summary"@ || kind == "entries"@ || kind == "items"@
}

/// The message for a section of unknown kind.
pub open spec fn unknown_section_message(kind: Seq<char>) -> Seq<char> {
    "unknown section type '"@ + kind + "'; expected summary, entries, or items"@
}

/// Whether `s` is the section that `y` describes: of the kind it names, with
/// its title, and with its body (empty when absent), its entries or its items
/// (none when absent), in order.
pub open spec fn section_from(y: YamlSection, s: Section) -> bool {
    if y.kind@ == "summary"@ {
        s matches Section::Summary { title, body } && title == y.title && body@ == text_or_empty(
            y.body,
        )
    } else if y.kind@ == "entries"@ {
        s matches Section::Entries { title, entries } && title == y.title && entries@
            == yaml_entries(y.entries).map_values(|e: YamlEntry| entry_from(e))
    } else if y.kind@ == "items"@ {
        s matches Section::Items { title, items } && title == y.title && items@ == yaml_items(
            y.items,
        ).map_values(|i: YamlItem| item_from(i))
    } else {
        false
    }
}

/// The index of the first section of unknown kind, if there is one.
pub open spec fn first_unknown_section(sections: Seq<YamlSection>) -> Option<int> {
    if exists|i: int| 0 <= i < sections.len() && !is_section_kind(#[trigger] sections[i].kind@) {
        Some(
            choose|i: int|
                0 <= i < sections.len() && !is_section_kind(#[trigger] sections[i].kind@) && (
                forall|j: int| 0 <= j < i ==> is_section_kind(#[trigger] sections[j].kind@)),
        )
    } else {
        None
    }
}

/// Whether every section is known and `out` holds them converted, in order.
pub open spec fn sections_from(ys: Seq<YamlSection>, out: Seq<Section>) -> bool {
    &&& out.len() == ys.len()
    &&& forall|i: int| 0 <= i < ys.len() ==> section_from(#[trigger] ys[i], out[i])
}

/// Whether `d` is the document that `y` describes, with `theme`, ten-point
/// type, and the header image at `header_image`.
pub open spec fn document_from(
    y: YamlDocument,
    theme: Theme,
    header_image: Option<String>,
    d: Document,
) -> bool {
    &&& d.options.theme == theme
    &&& d.options.font_size@ == "10pt"@
    &&& font_config_from(y.font, d.font)
    &&& d.personal == personal_from(y.personal)
    &&& d.header.subtitle == y.header.subtitle
    &&& d.header.image == header_image
    &&& sections_from(y.sections@, d.sections@)
}

/// The theme the document takes: the override, else the file's, else the
/// modern résumé; a name in the file that is no theme is refused.
pub fn resolve_theme(theme_override: Option<Theme>, theme: &Option<String>) -> (r: Result<
    Theme,
    ThemeParseError,
>)
    ensures
        match (r, resolved_theme(theme_override, opt_view(*theme))) {
            (Ok(t), Ok(u)) => t == u,
            (Err(e), Err(v)) => e.rejected() == v,
            _ => false,
        },
        theme_override matches Some(t) ==> r == Ok::<Theme, ThemeParseError>(t),
        theme_override is None && theme is None ==> r == Ok::<Theme, ThemeParseError>(
            Theme::ModernResume,
        ),
        theme_override is None ==> (*theme matches Some(name) ==> match r {
            Ok(t) => parse_theme(name@) == Some(t),
            Err(_) => parse_theme(name@).is_none(),
        }),
{
    match theme_override {
        Some(t) => Ok(t),
        None => match theme {
            Some(name) => Theme::parse(name.as_str()),
            None => Ok(Theme::ModernResume),
        },
    }
}

/// A family, or the default one.
fn family(o: Option<String>) -> (r: String)
    ensures
        r@ == family_or_default(o),
{
    match o {
        Some(s) => s,
        None => "Source Sans 3".to_owned(),
    }
}

impl YamlFont {
    /// The fonts, each slot the one given or the default family.
    pub fn into_font_config(self) -> (r: FontConfig)
        ensures
            font_config_from(Some(self), r),
            self.main matches Some(m) ==> r.main@ == m@,
            self.sans matches Some(m) ==> r.sans@ == m@,
            self.mono matches Some(m) ==> r.mono@ == m@,
            self.main is None ==> r.main@ == "Source Sans 3"@,
            self.sans is None ==> r.sans@ == "Source Sans 3"@,
            self.mono is None ==> r.mono@ == "Source Sans 3"@,
    {
        let ghost y = self;
        let r = FontConfig {
            main: family(self.main),
            sans: family(self.sans),
            mono: family(self.mono),
        };
        proof {
            lemma_font_slots(Some(y), r);
        }
        r
    }
}

impl From<YamlFont> for FontConfig {
    /// The fonts, each slot the one given or the default family.
    fn from(value: YamlFont) -> (r: FontConfig)
        ensures
            font_config_from(Some(value), r),
            value.main matches Some(m) ==> r.main@ == m@,
            value.sans matches Some(m) ==> r.sans@ == m@,
            value.mono matches Some(m) ==> r.mono@ == m@,
            value.main is None ==> r.main@ == "Source Sans 3"@,
            value.sans is None ==> r.sans@ == "Source Sans 3"@,
            value.mono is None ==> r.mono@ == "Source Sans 3"@,
    {
        value.into_font_config()
    }
}

/// The default family has no spec-level `String`, so `from_spec` names only
/// some font configuration that fits; `from`'s own `ensures` is the exact one.
impl vstd::std_specs::convert::FromSpecImpl<YamlFont> for FontConfig {
    open spec fn obeys_from_spec() -> bool {
        false
    }

    open spec fn from_spec(value: YamlFont) -> FontConfig {
        choose|f: FontConfig| font_config_from(Some(value), f)
    }
}

/// The fonts that an optional font block asks for.
pub fn font_config_of(font: Option<YamlFont>) -> (r: FontConfig)
    ensures
        font_config_from(font, r),
{
    match font {
        Some(f) => FontConfig::from(f),
        None => FontConfig::default(),
    }
}

impl YamlPersonal {
    /// The personal details, field for field.
    pub fn into_personal_details(self) -> (r: PersonalDetails)
        ensures
            r == personal_from(self),
            r.name == self.name,
            r.address_one == self.address_one,
            r.address_two == self.address_two,
            r.address_three == self.address_three,
            r.town == self.town,
            r.phone == self.phone,
            r.email == self.email,
            r.citizenship == self.citizenship,
            r.github == self.github,
            r.linkedin == self.linkedin,
            r.xing == self.xing,
            r.homepage == self.homepage,
    {
        PersonalDetails {
            name: self.name,
            address_one: self.address_one,
            address_two: self.address_two,
            address_three: self.address_three,
            town: self.town,
            phone: self.phone,
            email: self.email,
            citizenship: self.citizenship,
            github: self.github,
            linkedin: self.linkedin,
            xing: self.xing,
            homepage: self.homepage,
        }
    }
}

impl YamlEntry {
    /// The entry, field for field.
    pub fn into_entry(self) -> (r: Entry)
        ensures
            r == entry_from(self),
            r.dates == self.dates,
            r.title == self.title,
            r.org == self.org,
            r.location == self.location,
            r.url == self.url,
            r.bullets == self.bullets,
    {
        Entry {
            dates: self.dates,
            title: self.title,
            org: self.org,
            location: self.location,
            url: self.url,
            bullets: self.bullets,
        }
    }
}

impl YamlItem {
    /// The item, field for field.
    pub fn into_item(self) -> (r: Item)
        ensures
            r == item_from(self),
            r.label == self.label,
            r.value == self.value,
    {
        Item { label: self.label, value: self.value }
    }
}

impl From<YamlPersonal> for PersonalDetails {
    fn from(value: YamlPersonal) -> (r: PersonalDetails) {
        value.into_personal_details()
    }
}

impl vstd::std_specs::convert::FromSpecImpl<YamlPersonal> for PersonalDetails {
    open spec fn obeys_from_spec() -> bool {
        true
    }

    open spec fn from_spec(value: YamlPersonal) -> PersonalDetails {
        personal_from(value)
    }
}

impl From<YamlEntry> for Entry {
    fn from(value: YamlEntry) -> (r: Entry) {
        value.into_entry()
    }
}

impl vstd::std_specs::convert::FromSpecImpl<YamlEntry> for Entry {
    open spec fn obeys_from_spec() -> bool {
        true
    }

    open spec fn from_spec(value: YamlEntry) -> Entry {
        entry_from(value)
    }
}

impl From<YamlItem> for Item {
    fn from(value: YamlItem) -> (r: Item) {
        value.into_item()
    }
}

impl vstd::std_specs::convert::FromSpecImpl<YamlItem> for Item {
    open spec fn obeys_from_spec() -> bool {
        true
    }

    open spec fn from_spec(value: YamlItem) -> Item {
        item_from(value)
    }
}

/// The entries converted, in order.
fn convert_entries(ys: Vec<YamlEntry>) -> (r: Vec<Entry>)
    ensures
        r@ == ys@.map_values(|e: YamlEntry| entry_from(e)),
{
    let ghost src = ys@;
    let mut out: Vec<Entry> = Vec::new();
    for y in it: ys.into_iter()
        invariant
            it.seq() == src,
            out@ == src.take(it.index() as int).map_values(|e: YamlEntry| entry_from(e)),
    {
        out.push(Entry::from(y));
        assert(out@ =~= src.take(it.index() + 1).map_values(|e: YamlEntry| entry_from(e)));
    }
    assert(src.take(src.len() as int) =~= src);
    out
}

/// The items converted, in order.
fn convert_items(ys: Vec<YamlItem>) -> (r: Vec<Item>)
    ensures
        r@ == ys@.map_values(|i: YamlItem| item_from(i)),
{
    let ghost src = ys@;
    let mut out: Vec<Item> = Vec::new();
    for y in it: ys.into_iter()
        invariant
            it.seq() == src,
            out@ == src.take(it.index() as int).map_values(|i: YamlItem| item_from(i)),
    {
        out.push(Item::from(y));
        assert(out@ =~= src.take(it.index() + 1).map_values(|i: YamlItem| item_from(i)));
    }
    assert(src.take(src.len() as int) =~= src);
    out
}

impl YamlSection {
    /// The section of the kind the input names; an unknown kind is refused.
    pub fn into_section(self) -> (r: Result<Section, UsageError>)
        ensures
            match r {
                Ok(s) => is_section_kind(self.kind@) && section_from(self, s),
                Err(e) => !is_section_kind(self.kind@) && e@ == Fault::InvalidInput(
                    unknown_section_message(self.kind@),
                ),
            },
    {
        let ghost y = self;
        if str_equals(self.kind.as_str(), "summary") {
            let body = match self.body {
                Some(b) => b,
                None => String::new(),
            };
            Ok(Section::Summary { title: self.title, body })
        } else if str_equals(self.kind.as_str(), "entries") {
            let entries = match self.entries {
                Some(v) => convert_entries(v),
                None => {
                    let v: Vec<Entry> = Vec::new();
                    assert(v@ =~= yaml_entries(y.entries).map_values(|e: YamlEntry| entry_from(e)));
                    v
                },
            };
            Ok(Section::Entries { title: self.title, entries })
        } else if str_equals(self.kind.as_str(), "items") {
            let items = match self.items {
                Some(v) => convert_items(v),
                None => {
                    let v: Vec<Item> = Vec::new();
                    assert(v@ =~= yaml_items(y.items).map_values(|i: YamlItem| item_from(i)));
                    v
                },
            };
            Ok(Section::Items { title: self.title, items })
        } else {
            Err(
                UsageError::InvalidInput(
                    message3(
                        "unknown section type '",
                        self.kind.as_str(),
                        "'; expected summary, entries, or items",
                    ),
                ),
            )
        }
    }
}

/// The sections converted in order, or the refusal of the first section of
/// unknown kind.
pub fn convert_sections(ys: Vec<YamlSection>) -> (r: Result<Vec<Section>, UsageError>)
    ensures
        match r {
            Ok(out) => first_unknown_section(ys@) is None && sections_from(ys@, out@),
            Err(e) => match first_unknown_section(ys@) {
                Some(i) => e@ == Fault::InvalidInput(unknown_section_message(ys@[i].kind@)),
                None => false,
            },
        },
{
    let ghost src = ys@;
    let mut out: Vec<Section> = Vec::new();
    for y in it: ys.into_iter()
        invariant
            it.seq() == src,
            out@.len() == it.index(),
            forall|j: int| 0 <= j < it.index() ==> section_from(#[trigger] src[j], out@[j]),
            forall|j: int| 0 <= j < it.index() ==> is_section_kind(#[trigger] src[j].kind@),
    {
        let ghost k = it.index();
        match y.into_section() {
            Ok(s) => {
                out.push(s);
            },
            Err(e) => {
                proof {
                    assert(!is_section_kind(src[k].kind@));
                    assert(exists|i: int|
                        0 <= i < src.len() && !is_section_kind(#[trigger] src[i].kind@));
                    let c = first_unknown_section(src)->0;
                    assert(0 <= c < src.len() && !is_section_kind(src[c].kind@));
                    assert(forall|j: int| 0 <= j < c ==> is_section_kind(#[trigger] src[j].kind@));
                    if c < k {
                        assert(is_section_kind(src[c].kind@));
                    }
                    if c > k {
                        assert(is_section_kind(src[k].kind@));
                    }
                }
                return Err(e);
            },
        }
    }
    assert(!(exists|i: int| 0 <= i < src.len() && !is_section_kind(#[trigger] src[i].kind@)));
    Ok(out)
}

impl YamlDocument {
    /// The document the input describes, with `theme` and the header image
    /// at `header_image`; an unknown section kind is refused.
    pub fn into_document(self, theme: Theme, header_image: Option<String>) -> (r: Result<
        Document,
        UsageError,
    >)
        ensures
            match r {
                Ok(d) => first_unknown_section(self.sections@) is None && document_from(
                    self,
                    theme,
                    header_image,
                    d,
                ),
                Err(e) => match first_unknown_section(self.sections@) {
                    Some(i) => e@ == Fault::InvalidInput(
                        unknown_section_message(self.sections@[i].kind@),
                    ),
                    None => false,
                },
            },
    {
        let ghost y = self;
        let options = DocumentOptions { theme, font_size: "10pt".to_owned() };
        let font = font_config_of(self.font);
        let personal = PersonalDetails::from(self.personal);
        let header = Header { subtitle: self.header.subtitle, image: header_image };
        let sections = convert_sections(self.sections)?;
        Ok(Document { options, font, personal, header, sections })
    }
}

/// Whether some argument at or after `from` is exactly `a`.
pub open spec fn has_arg_from(args: Seq<Seq<char>>, from: int, a: Seq<char>) -> bool {
    exists|j: int| from <= j < args.len() && 0 <= j && #[trigger] args[j] == a
}

proof fn lemma_has_arg_step(args: Seq<Seq<char>>, from: int, a: Seq<char>)
    requires
        0 <= from < args.len(),
    ensures
        has_arg_from(args, from, a) <==> (args[from] == a || has_arg_from(args, from + 1, a)),
{
    if has_arg_from(args, from, a) {
        let j = choose|j: int| from <= j < args.len() && 0 <= j && #[trigger] args[j] == a;
        if j != from {
            assert(args[j] == a);
        }
    }
    if args[from] == a {
        assert(args[from] == a);
    }
}

proof fn lemma_flag_names()
    ensures
        starts_with_dash("--tex-only"@),
        starts_with_dash("--keep-build-dir"@),
        "--tex-only"@ != "--keep-build-dir"@,
        "--tex-only"@ != "--output-dir"@,
        "--tex-only"@ != "--name"@,
        "--tex-only"@ != "--theme"@,
        "--keep-build-dir"@ != "--output-dir"@,
        "--keep-build-dir"@ != "--name"@,
        "--keep-build-dir"@ != "--theme"@,
{
    reveal_strlit("--tex-only");
    reveal_strlit("--keep-build-dir");
    reveal_strlit("--output-dir");
    reveal_strlit("--name");
    reveal_strlit("--theme");
}

proof fn lemma_scan_switches(args: Seq<Seq<char>>, index: int, st: ScanState)
    requires
        0 <= index,
    ensures
        scan_from(args, index, st) matches Ok(out) ==> {
            &&& out.tex_only <==> (st.tex_only || has_arg_from(args, index, "--tex-only"@))
            &&& out.keep_build_dir <==> (st.keep_build_dir || has_arg_from(
                args,
                index,
                "--keep-build-dir"@,
            ))
        },
    decreases args.len() - index,
{
    lemma_flag_names();
    let t = "--tex-only"@;
    let k = "--keep-build-dir"@;
    if index >= args.len() {
        assert(!has_arg_from(args, index, t));
        assert(!has_arg_from(args, index, k));
    } else {
        let a = args[index];
        lemma_has_arg_step(args, index, t);
        lemma_has_arg_step(args, index, k);
        if a == "--output-dir"@ || a == "--name"@ || a == "--theme"@ {
            if index + 1 < args.len() && !starts_with_dash(args[index + 1]) {
                lemma_has_arg_step(args, index + 1, t);
                lemma_has_arg_step(args, index + 1, k);
                assert(args[index + 1] != t);
                assert(args[index + 1] != k);
                if a == "--output-dir"@ {
                    lemma_scan_switches(
                        args,
                        index + 2,
                        ScanState { output_dir: args[index + 1], ..st },
                    );
                } else if a == "--name"@ {
                    lemma_scan_switches(
                        args,
                        index + 2,
                        ScanState { name: Some(args[index + 1]), ..st },
                    );
                } else {
                    match parse_theme(args[index + 1]) {
                        Some(th) => {
                            lemma_scan_switches(
                                args,
                                index + 2,
                                ScanState { theme_override: Some(th), ..st },
                            );
                        },
                        None => {},
                    }
                }
            }
        } else if a == t {
            lemma_scan_switches(args, index + 1, ScanState { tex_only: true, ..st });
        } else if a == k {
            lemma_scan_switches(args, index + 1, ScanState { keep_build_dir: true, ..st });
        } else if starts_with_dash(a) {
        } else if st.input is Some {
        } else {
            lemma_scan_switches(args, index + 1, ScanState { input: Some(a), ..st });
        }
    }
}

/// Each switch sets its own option and nothing else: in the options read
/// from `andre-cv build`, `--tex-only` is on exactly when some argument is
/// `--tex-only`, and the build directory is kept exactly when some argument
/// is `--keep-build-dir`.
pub proof fn lemma_switches_set_only_themselves(args: Seq<Seq<char>>)
    ensures
        parse_build_options(args) matches Ok(o) ==> {
            &&& o.tex_only <==> exists|i: int| 0 <= i < args.len() && #[trigger] args[i] == "--tex-only"@
            &&& o.keep_build_dir <==> exists|i: int|
                0 <= i < args.len() && #[trigger] args[i] == "--keep-build-dir"@
        },
{
    lemma_scan_switches(args, 0, initial_scan());
    if has_arg_from(args, 0, "--tex-only"@) {
        let j = choose|j: int| 0 <= j < args.len() && 0 <= j && #[trigger] args[j] == "--tex-only"@;
        assert(args[j] == "--tex-only"@);
    }
    if has_arg_from(args, 0, "--keep-build-dir"@) {
        let j = choose|j: int|
            0 <= j < args.len() && 0 <= j && #[trigger] args[j] == "--keep-build-dir"@;
        assert(args[j] == "--keep-build-dir"@);
    }
}

/// Each font slot takes the family given for that same slot, and only a
/// missing slot falls back to Source Sans 3.
pub proof fn lemma_font_slots(font: Option<YamlFont>, f: FontConfig)
    requires
        font_config_from(font, f),
    ensures
        font matches Some(y) ==> (y.main matches Some(m) ==> f.main@ == m@),
        font matches Some(y) ==> (y.sans matches Some(m) ==> f.sans@ == m@),
        font matches Some(y) ==> (y.mono matches Some(m) ==> f.mono@ == m@),
        font matches Some(y) ==> (y.main is None ==> f.main@ == "Source Sans 3"@),
        font matches Some(y) ==> (y.sans is None ==> f.sans@ == "Source Sans 3"@),
        font matches Some(y) ==> (y.mono is None ==> f.mono@ == "Source Sans 3"@),
        font is None ==> f.main@ == "Source Sans 3"@ && f.sans@ == "Source Sans 3"@ && f.mono@
            == "Source Sans 3"@,
{
}

/// A converted entry keeps every field of the entry as read in the field of
/// the same name, and likewise an item and the personal details.
pub proof fn lemma_conversions_keep_fields(e: YamlEntry, i: YamlItem, p: YamlPersonal)
    ensures
        entry_from(e).dates == e.dates,
        entry_from(e).title == e.title,
        entry_from(e).org == e.org,
        entry_from(e).location == e.location,
        entry_from(e).url == e.url,
        entry_from(e).bullets == e.bullets,
        item_from(i).label == i.label,
        item_from(i).value == i.value,
        personal_from(p).name == p.name,
        personal_from(p).address_one == p.address_one,
        personal_from(p).address_two == p.address_two,
        personal_from(p).address_three == p.address_three,
        personal_from(p).town == p.town,
        personal_from(p).phone == p.phone,
        personal_from(p).email == p.email,
        personal_from(p).citizenship == p.citizenship,
        personal_from(p).github == p.github,
        personal_from(p).linkedin == p.linkedin,
        personal_from(p).xing == p.xing,
        personal_from(p).homepage == p.homepage,
{
}

/// A section of entries converted from the input holds, position by
/// position, entries whose fields are those of the entries as read.
pub proof fn lemma_section_entries_keep_fields(y: YamlSection, s: Section)
    requires
        section_from(y, s),
        y.kind@ == "entries"@,
    ensures
        s matches Section::Entries { entries, .. } && entries@.len() == yaml_entries(y.entries).len()
            && forall|j: int|
            0 <= j < entries@.len() ==> {
                &&& (#[trigger] entries@[j]).dates == yaml_entries(y.entries)[j].dates
                &&& entries@[j].title == yaml_entries(y.entries)[j].title
                &&& entries@[j].org == yaml_entries(y.entries)[j].org
                &&& entries@[j].location == yaml_entries(y.entries)[j].location
                &&& entries@[j].url == yaml_entries(y.entries)[j].url
                &&& entries@[j].bullets == yaml_entries(y.entries)[j].bullets
            },
{
    reveal_strlit("entries");
    reveal_strlit("summary");
    assert("entries"@[0] != "summary"@[0]);
}

/// Without an override, the theme that the file names is the theme used,
/// and every theme's own name selects that theme.
pub proof fn lemma_file_theme_used(name: Seq<char>, t: Theme)
    ensures
        resolved_theme(None, Some(name)) == Ok::<Theme, Seq<char>>(t) <==> parse_theme(name)
            == Some(t),
        resolved_theme(None, Some(theme_name(t))) == Ok::<Theme, Seq<char>>(t),
        resolved_theme(None, None) == Ok::<Theme, Seq<char>>(Theme::ModernResume),
{
    lemma_theme_name_round_trip(t, name);
}

/// Asking for help anywhere on the command line wins over everything else.
pub proof fn lemma_help_wins(args: Seq<Seq<char>>, i: int)
    requires
        0 <= i < args.len(),
        args[i] == "-h"@ || args[i] == "--help"@,
    ensures
        parse_command(args) == Ok::<CommandModel, Fault>(CommandModel::Help),
{
    assert(asks_for_help(args));
}

/// A theme given on the command line wins over the one in the file, even
/// over a name in the file that is no theme.
pub proof fn lemma_theme_override_wins(theme: Theme, named: Option<Seq<char>>)
    ensures
        resolved_theme(Some(theme), named) == Ok::<Theme, Seq<char>>(theme),
{
}

} // verus!
