//! Renders a document as the LaTeX source that the `andre-cv` class typesets.
use vstd::prelude::*;
use crate::ports::DocumentRenderer;
use crate::schema::{Document, Entry, Item, PersonalDetails, Section, theme_name};
use crate::text::{
    concat_map, is_blank, is_blank_str, lemma_concat_map_take, lemma_take_full, push_char, push_str,
    contains_text, lemma_contains_add, lemma_contains_self,
};

verus! {

/// A failure to render a document, with its message.
#[derive(Debug, Clone, PartialEq, Eq)]
pub struct RenderError {
    message: String,
}

impl RenderError {
    /// The message of the error.
    pub closed spec fn text(&self) -> Seq<char> {
        self.message@
    }

    /// The error with `message`.
    pub fn new(message: &str) -> (r: Self)
        ensures
            r.text() == message@,
    {
        RenderError { message: message.to_owned() }
    }

    /// The message, as the error displays itself.
    pub fn to_string(&self) -> (r: String)
        ensures
            r@ == self.text(),
    {
        self.message.clone()
    }
}

/// The renderer of the `andre-cv` LaTeX class.
#[derive(Debug, Default, Clone, Copy)]
pub struct LatexRenderer;

impl LatexRenderer {
    /// The renderer.
    pub fn new() -> (r: Self)
        ensures
            r == LatexRenderer,
    {
        LatexRenderer
    }
}

// ---------------------------------------------------------------------------
// Escaping
// ---------------------------------------------------------------------------

/// What a single character becomes in LaTeX text: the ten characters that
/// LaTeX treats specially are spelled out, every other one stands as it is.
pub open spec fn escape_char(c: char) -> Seq<char> {
    if c == '\\' {
        "\\textbackslash{}"@
    } else if c == '&' {
        "\\&"@
    } else if c == '%' {
        "\\%"@
    } else if c == '$' {
        "\\$"@
    } else if c == '#' {
        "\\#"@
    } else if c == '_' {
        "\\_"@
    } else if c == '{' {
        "\\{"@
    } else if c == '}' {
        "\\}"@
    } else if c == '~' {
        "\\textasciitilde{}"@
    } else if c == '^' {
        "\\textasciicircum{}"@
    } else {
        seq![c]
    }
}

/// Whether LaTeX treats `c` specially in running text.
pub open spec fn is_latex_special(c: char) -> bool {
    c == '\\' || c == '&' || c == '%' || c == '$' || c == '#' || c == '_' || c == '{' || c == '}'
        || c == '~' || c == '^'
}

/// `escape_char` as a function value.
pub open spec fn escape_char_fn() -> spec_fn(char) -> Seq<char> {
    |c: char| escape_char(c)
}

/// `s` with every special character escaped.
pub open spec fn escape(s: Seq<char>) -> Seq<char> {
    concat_map(s, escape_char_fn())
}

/// What a single character becomes in a file path: a backslash becomes a
/// slash and a space becomes `\space `.
pub open spec fn path_char(c: char) -> Seq<char> {
    if c == '\\' {
        seq!['/']
    } else if c == ' ' {
        "\\space "@
    } else {
        seq![c]
    }
}

/// `path_char` as a function value.
pub open spec fn path_char_fn() -> spec_fn(char) -> Seq<char> {
    |c: char| path_char(c)
}

/// `s` made fit to stand as a path in LaTeX.
pub open spec fn escape_path(s: Seq<char>) -> Seq<char> {
    concat_map(s, path_char_fn())
}

/// The characters that LaTeX takes for alignment, comments, math mode,
/// parameters and subscripts: in safe text each one is escaped by the
/// backslash right before it.
pub open spec fn is_escapable_symbol(c: char) -> bool {
    c == '&' || c == '%' || c == '$' || c == '#' || c == '_'
}

/// Text in which no tilde or caret is left, and in which every escapable
/// symbol comes right after a backslash.
pub open spec fn is_safe_latex(e: Seq<char>) -> bool {
    forall|i: int|
        0 <= i < e.len() ==> {
            &&& #[trigger] e[i] != '~'
            &&& e[i] != '^'
            &&& is_escapable_symbol(e[i]) ==> i > 0 && e[i - 1] == '\\'
        }
}

proof fn lemma_safe_concat(a: Seq<char>, b: Seq<char>)
    requires
        is_safe_latex(a),
        is_safe_latex(b),
    ensures
        is_safe_latex(a + b),
{
    let e = a + b;
    assert forall|i: int| 0 <= i < e.len() implies {
        &&& #[trigger] e[i] != '~'
        &&& e[i] != '^'
        &&& is_escapable_symbol(e[i]) ==> i > 0 && e[i - 1] == '\\'
    } by {
        if i < a.len() {
            assert(e[i] == a[i]);
            if i > 0 {
                assert(e[i - 1] == a[i - 1]);
            }
        } else {
            let k = i - a.len();
            assert(e[i] == b[k]);
            if k > 0 {
                assert(e[i - 1] == b[k - 1]);
            }
        }
    }
}

proof fn lemma_escape_char_safe(c: char)
    ensures
        is_safe_latex(escape_char(c)),
{
    reveal_strlit("\\textbackslash{}");
    reveal_strlit("\\&");
    reveal_strlit("\\%");
    reveal_strlit("\\$");
    reveal_strlit("\\#");
    reveal_strlit("\\_");
    reveal_strlit("\\{");
    reveal_strlit("\\}");
    reveal_strlit("\\textasciitilde{}");
    reveal_strlit("\\textasciicircum{}");
}

/// Escaping leaves text that LaTeX sets literally: no tilde or caret
/// remains, and every `&`, `%`, `$`, `#` and `_` follows a backslash.
pub proof fn lemma_escape_is_safe(s: Seq<char>)
    ensures
        is_safe_latex(escape(s)),
    decreases s.len(),
{
    if s.len() > 0 {
        lemma_escape_is_safe(s.drop_last());
        lemma_escape_char_safe(s.last());
        lemma_safe_concat(escape(s.drop_last()), escape_char(s.last()));
    }
}

proof fn lemma_escape_char_shape(c: char)
    ensures
        escape_char(c).len() >= 1,
        !is_latex_special(c) ==> escape_char(c) == seq![c],
        is_latex_special(c) ==> escape_char(c).len() >= 2 && escape_char(c)[0] == '\\',
        (c == '&' || c == '%' || c == '$' || c == '#' || c == '_' || c == '{' || c == '}')
            ==> escape_char(c) == seq!['\\', c],
        c == '\\' ==> escape_char(c).len() == 16,
        c == '~' ==> escape_char(c).len() == 17,
        c == '^' ==> escape_char(c).len() == 18,
        (c == '\\' || c == '~' || c == '^') ==> {
            let w = escape_char(c);
            &&& w[w.len() - 1] == '}'
            &&& w[w.len() - 2] == '{'
            &&& w[w.len() - 3] == (if c == '\\' {
                'h'
            } else if c == '~' {
                'e'
            } else {
                'm'
            })
        },
{
    reveal_strlit("\\textbackslash{}");
    reveal_strlit("\\&");
    reveal_strlit("\\%");
    reveal_strlit("\\$");
    reveal_strlit("\\#");
    reveal_strlit("\\_");
    reveal_strlit("\\{");
    reveal_strlit("\\}");
    reveal_strlit("\\textasciitilde{}");
    reveal_strlit("\\textasciicircum{}");
    if c == '&' || c == '%' || c == '$' || c == '#' || c == '_' || c == '{' || c == '}' {
        assert(escape_char(c) =~= seq!['\\', c]);
    }
}

/// No character's escape ends another's: when the escape of `c` is a suffix
/// of the escape of `d`, the two are the same character.
proof fn lemma_escape_char_suffix_free(c: char, d: char)
    requires
        escape_char(c).is_suffix_of(escape_char(d)),
    ensures
        c == d,
{
    let wc = escape_char(c);
    let wd = escape_char(d);
    lemma_escape_char_shape(c);
    lemma_escape_char_shape(d);
    let m = wc.len() as int;
    let n = wd.len() as int;
    assert(wc[m - 1] == wd.subrange(n - m, n)[m - 1]);
    assert(wc[m - 1] == wd[n - 1]);
    if m >= 2 {
        assert(wc[m - 2] == wd.subrange(n - m, n)[m - 2]);
        assert(wc[m - 2] == wd[n - 2]);
    }
    if m >= 3 {
        assert(wc[m - 3] == wd.subrange(n - m, n)[m - 3]);
        assert(wc[m - 3] == wd[n - 3]);
    }
}

/// Escaping loses nothing: two texts with the same escape are the same text.
pub proof fn lemma_escape_injective(a: Seq<char>, b: Seq<char>)
    requires
        escape(a) == escape(b),
    ensures
        a == b,
    decreases a.len() + b.len(),
{
    if a.len() == 0 && b.len() == 0 {
        assert(a =~= b);
    } else if a.len() == 0 {
        lemma_escape_char_shape(b.last());
        assert(escape(b).len() >= 1);
    } else if b.len() == 0 {
        lemma_escape_char_shape(a.last());
        assert(escape(a).len() >= 1);
    } else {
        let ea = escape(a.drop_last());
        let eb = escape(b.drop_last());
        let wa = escape_char(a.last());
        let wb = escape_char(b.last());
        let e = escape(a);
        assert(e == ea + wa);
        assert(e == eb + wb);
        if wa.len() <= wb.len() {
            assert(wa =~= wb.subrange(wb.len() - wa.len(), wb.len() as int)) by {
                assert forall|k: int| 0 <= k < wa.len() implies wa[k] == wb.subrange(
                    wb.len() - wa.len(),
                    wb.len() as int,
                )[k] by {
                    assert(wa[k] == (ea + wa)[ea.len() + k]);
                    assert(wb[wb.len() - wa.len() + k] == (eb + wb)[eb.len() + wb.len()
                        - wa.len() + k]);
                }
            }
            lemma_escape_char_suffix_free(a.last(), b.last());
        } else {
            assert(wb =~= wa.subrange(wa.len() - wb.len(), wa.len() as int)) by {
                assert forall|k: int| 0 <= k < wb.len() implies wb[k] == wa.subrange(
                    wa.len() - wb.len(),
                    wa.len() as int,
                )[k] by {
                    assert(wb[k] == (eb + wb)[eb.len() + k]);
                    assert(wa[wa.len() - wb.len() + k] == (ea + wa)[ea.len() + wa.len()
                        - wb.len() + k]);
                }
            }
            lemma_escape_char_suffix_free(b.last(), a.last());
        }
        assert(wa == wb);
        assert(ea =~= e.subrange(0, e.len() - wa.len()));
        assert(eb =~= e.subrange(0, e.len() - wb.len()));
        lemma_escape_injective(a.drop_last(), b.drop_last());
        assert(a =~= a.drop_last().push(a.last()));
        assert(b =~= b.drop_last().push(b.last()));
    }
}

/// Escaping works piece by piece: the escape of a concatenation is the
/// concatenation of the escapes.
pub proof fn lemma_escape_concat(a: Seq<char>, b: Seq<char>)
    ensures
        escape(a + b) == escape(a) + escape(b),
{
    crate::text::lemma_concat_map_add(a, b, escape_char_fn());
}

/// Text without special characters is left as it is.
pub proof fn lemma_escape_plain(s: Seq<char>)
    requires
        forall|i: int| 0 <= i < s.len() ==> !is_latex_special(#[trigger] s[i]),
    ensures
        escape(s) == s,
    decreases s.len(),
{
    if s.len() > 0 {
        let init = s.drop_last();
        assert forall|i: int| 0 <= i < init.len() implies !is_latex_special(#[trigger] init[i]) by {
            assert(init[i] == s[i]);
        }
        lemma_escape_plain(init);
        assert(init.push(s.last()) =~= s);
    }
}

/// `value` with LaTeX's special characters escaped, character by character.
pub fn escape_latex(value: &str) -> (r: String)
    ensures
        r@ == escape(value@),
{
    let mut escaped = String::new();
    let ghost f = escape_char_fn();
    for character in it: value.chars()
        invariant
            it.seq() == value@,
            f == escape_char_fn(),
            escaped@ == concat_map(value@.take(it.index() as int), f),
    {
        proof {
            lemma_concat_map_take(value@, f, it.index() as int);
        }
        if character == '\\' {
            push_str(&mut escaped, "\\textbackslash{}");
        } else if character == '&' {
            push_str(&mut escaped, "\\&");
        } else if character == '%' {
            push_str(&mut escaped, "\\%");
        } else if character == '$' {
            push_str(&mut escaped, "\\$");
        } else if character == '#' {
            push_str(&mut escaped, "\\#");
        } else if character == '_' {
            push_str(&mut escaped, "\\_");
        } else if character == '{' {
            push_str(&mut escaped, "\\{");
        } else if character == '}' {
            push_str(&mut escaped, "\\}");
        } else if character == '~' {
            push_str(&mut escaped, "\\textasciitilde{}");
        } else if character == '^' {
            push_str(&mut escaped, "\\textasciicircum{}");
        } else {
            push_char(&mut escaped, character);
            assert(escaped@ =~= concat_map(value@.take(it.index() as int), f) + seq![character]);
        }
    }
    proof {
        lemma_take_full(value@);
    }
    escaped
}

/// `value` with backslashes turned into slashes and spaces into `\space `.
pub fn escape_latex_path(value: &str) -> (r: String)
    ensures
        r@ == escape_path(value@),
{
    let mut out = String::new();
    let ghost f = path_char_fn();
    for character in it: value.chars()
        invariant
            it.seq() == value@,
            f == path_char_fn(),
            out@ == concat_map(value@.take(it.index() as int), f),
    {
        proof {
            lemma_concat_map_take(value@, f, it.index() as int);
        }
        if character == '\\' {
            push_char(&mut out, '/');
            assert(out@ =~= concat_map(value@.take(it.index() as int), f) + seq!['/']);
        } else if character == ' ' {
            push_str(&mut out, "\\space ");
        } else {
            push_char(&mut out, character);
            assert(out@ =~= concat_map(value@.take(it.index() as int), f) + seq![character]);
        }
    }
    proof {
        lemma_take_full(value@);
    }
    out
}

// ---------------------------------------------------------------------------
// The document, piece by piece
// ---------------------------------------------------------------------------

/// `l` as a line of its own.
pub open spec fn line(l: Seq<char>) -> Seq<char> {
    l + seq!['\n']
}

/// The line `\<command>{<value, escaped>}`.
pub open spec fn command_line(command: Seq<char>, value: Seq<char>) -> Seq<char> {
    line("\\"@ + command + "{"@ + escape(value) + "}"@)
}

/// The command line for `value`, when there is a value that is not blank;
/// nothing otherwise.
pub open spec fn optional_command(command: Seq<char>, value: Option<Seq<char>>) -> Seq<char> {
    match value {
        Some(v) => if is_blank(v) {
            Seq::empty()
        } else {
            command_line(command, v)
        },
        None => Seq::empty(),
    }
}

/// The text of an optional string.
pub open spec fn opt_text(o: Option<String>) -> Option<Seq<char>> {
    match o {
        Some(s) => Some(s@),
        None => None,
    }
}

/// The text of an optional string slice.
pub open spec fn opt_str_text(o: Option<&str>) -> Option<Seq<char>> {
    match o {
        Some(s) => Some(s@),
        None => None,
    }
}

/// The text of an optional string, or the empty text.
pub open spec fn text_or_empty(o: Option<String>) -> Seq<char> {
    match o {
        Some(s) => s@,
        None => Seq::empty(),
    }
}

/// The key-value line `\t<key> = {<value, escaped>},` of an entry.
pub open spec fn key_value_line(key: Seq<char>, value: Seq<char>) -> Seq<char> {
    line("\t"@ + key + " = {"@ + escape(value) + "},"@)
}

/// The personal-detail commands: the name always, every other detail when
/// it is given and not blank.
pub open spec fn personal_block(p: PersonalDetails) -> Seq<char> {
    command_line("SetName"@, p.name@)
        + optional_command("SetAddressOne"@, opt_text(p.address_one))
        + optional_command("SetAddressTwo"@, opt_text(p.address_two))
        + optional_command("SetAddressThree"@, opt_text(p.address_three))
        + optional_command("SetTown"@, opt_text(p.town))
        + optional_command("SetPhone"@, opt_text(p.phone))
        + optional_command("SetEmail"@, opt_text(p.email))
        + optional_command("SetCitizenship"@, opt_text(p.citizenship))
        + optional_command("SetGithub"@, opt_text(p.github))
        + optional_command("SetLinkedIn"@, opt_text(p.linkedin))
        + optional_command("SetXing"@, opt_text(p.xing))
        + optional_command("SetHomepage"@, opt_text(p.homepage))
}

/// The header line: the subtitle, with the picture's path when there is one.
pub open spec fn header_block(document: Document) -> Seq<char> {
    match document.header.image {
        Some(image) => line(
            "\\DisplayHeader{"@ + escape(document.header.subtitle@) + "}{"@ + escape_path(image@)
                + "}"@,
        ),
        None => command_line("DisplayHeader"@, document.header.subtitle@),
    }
}

/// The `\item` line of a bullet point.
pub open spec fn bullet_line(bullet: String) -> Seq<char> {
    line("\t\\item "@ + escape(bullet@))
}

/// `bullet_line` as a function value.
pub open spec fn bullet_line_fn() -> spec_fn(String) -> Seq<char> {
    |b: String| bullet_line(b)
}

/// The link line of an entry, when it has a link.
pub open spec fn url_block(url: Option<String>) -> Seq<char> {
    match url {
        Some(u) => key_value_line("url"@, u@),
        None => Seq::empty(),
    }
}

/// The `\cventry` block of an entry: dates, title, organisation and location
/// always (empty when absent), the link when there is one, then the bullets.
pub open spec fn entry_block(entry: Entry) -> Seq<char> {
    line("\\cventry["@) + key_value_line("dates"@, text_or_empty(entry.dates)) + key_value_line(
        "title"@,
        entry.title@,
    ) + key_value_line("org"@, text_or_empty(entry.org)) + key_value_line(
        "location"@,
        text_or_empty(entry.location),
    ) + url_block(entry.url) + line("]{\\cvitemize{"@) + concat_map(entry.bullets@, bullet_line_fn()) + line("}}"@)
}

/// `entry_block` as a function value.
pub open spec fn entry_block_fn() -> spec_fn(Entry) -> Seq<char> {
    |e: Entry| entry_block(e)
}

/// The `\cvitem` line of an item.
pub open spec fn item_line(item: Item) -> Seq<char> {
    line("\\cvitem{"@ + escape(item.label@) + "}{"@ + escape(item.value@) + "}"@)
}

/// `item_line` as a function value.
pub open spec fn item_line_fn() -> spec_fn(Item) -> Seq<char> {
    |i: Item| item_line(i)
}

/// A section: its `\section` line, then its content.
pub open spec fn section_block(section: Section) -> Seq<char> {
    match section {
        Section::Summary { title, body } => command_line("section"@, title@) + line(escape(body@)),
        Section::Entries { title, entries } => command_line("section"@, title@) + concat_map(
            entries@,
            entry_block_fn(),
        ),
        Section::Items { title, items } => command_line("section"@, title@) + concat_map(
            items@,
            item_line_fn(),
        ),
    }
}

/// A section followed by an empty line.
pub open spec fn spaced_section(section: Section) -> Seq<char> {
    section_block(section) + seq!['\n']
}

/// `spaced_section` as a function value.
pub open spec fn spaced_section_fn() -> spec_fn(Section) -> Seq<char> {
    |s: Section| spaced_section(s)
}

/// The class line, an empty line, and the three font lines.
pub open spec fn preamble(document: Document) -> Seq<char> {
    line(
        "\\documentclass[theme="@ + theme_name(document.options.theme) + ","@
            + document.options.font_size@ + "]{andre-cv}"@,
    ) + seq!['\n'] + line("\\setmainfont{"@ + escape(document.font.main@) + "}"@) + line(
        "\\setsansfont{"@ + escape(document.font.sans@) + "}"@,
    ) + line("\\setmonofont{"@ + escape(document.font.mono@) + "}"@)
}

/// The whole LaTeX source of `document`.
pub open spec fn render_document(document: Document) -> Seq<char> {
    preamble(document) + seq!['\n'] + personal_block(document.personal) + seq!['\n'] + line(
        "\\begin{document}"@,
    ) + header_block(document) + seq!['\n'] + concat_map(document.sections@, spaced_section_fn())
        + line("\\end{document}"@)
}

/// Appends `line` and a line break.
fn push_line(output: &mut String, line_text: &str)
    ensures
        final(output)@ == old(output)@ + line(line_text@),
{
    push_str(output, line_text);
    push_char(output, '\n');
    assert(final(output)@ =~= old(output)@ + line(line_text@));
}

/// Appends the line `\<command>{<value, escaped>}`.
fn push_command(output: &mut String, command: &str, value: &str)
    ensures
        final(output)@ == old(output)@ + command_line(command@, value@),
{
    let mut l = String::new();
    push_str(&mut l, "\\");
    push_str(&mut l, command);
    push_str(&mut l, "{");
    let e = escape_latex(value);
    push_str(&mut l, e.as_str());
    push_str(&mut l, "}");
    push_line(output, l.as_str());
}

/// Appends the command line for `value` when it is given and not blank.
fn push_optional_command(output: &mut String, command: &str, value: Option<&str>)
    ensures
        final(output)@ == old(output)@ + optional_command(command@, opt_str_text(value)),
{
    if let Some(value) = value {
        if !is_blank_str(value) {
            push_command(output, command, value);
            return ;
        }
    }
    assert(final(output)@ =~= old(output)@ + Seq::<char>::empty());
}

/// Appends the key-value line of an entry.
fn push_key_value(output: &mut String, key: &str, value: &str)
    ensures
        final(output)@ == old(output)@ + key_value_line(key@, value@),
{
    let mut l = String::new();
    push_str(&mut l, "\t");
    push_str(&mut l, key);
    push_str(&mut l, " = {");
    let e = escape_latex(value);
    push_str(&mut l, e.as_str());
    push_str(&mut l, "},");
    push_line(output, l.as_str());
}

/// The optional string as an optional slice.
fn as_opt_str(o: &Option<String>) -> (r: Option<&str>)
    ensures
        opt_str_text(r) == opt_text(*o),
{
    match o {
        Some(s) => Some(s.as_str()),
        None => None,
    }
}

/// The optional string, or the empty slice.
fn str_or_empty(o: &Option<String>) -> (r: &str)
    ensures
        r@ == text_or_empty(*o),
{
    match o {
        Some(s) => s.as_str(),
        None => {
            proof {
                reveal_strlit("");
            }
            ""
        },
    }
}

/// Appends the personal-detail commands.
pub fn render_personal_details(output: &mut String, personal: &PersonalDetails)
    ensures
        final(output)@ == old(output)@ + personal_block(*personal),
{
    push_command(output, "SetName", personal.name.as_str());
    push_optional_command(output, "SetAddressOne", as_opt_str(&personal.address_one));
    push_optional_command(output, "SetAddressTwo", as_opt_str(&personal.address_two));
    push_optional_command(output, "SetAddressThree", as_opt_str(&personal.address_three));
    push_optional_command(output, "SetTown", as_opt_str(&personal.town));
    push_optional_command(output, "SetPhone", as_opt_str(&personal.phone));
    push_optional_command(output, "SetEmail", as_opt_str(&personal.email));
    push_optional_command(output, "SetCitizenship", as_opt_str(&personal.citizenship));
    push_optional_command(output, "SetGithub", as_opt_str(&personal.github));
    push_optional_command(output, "SetLinkedIn", as_opt_str(&personal.linkedin));
    push_optional_command(output, "SetXing", as_opt_str(&personal.xing));
    push_optional_command(output, "SetHomepage", as_opt_str(&personal.homepage));
    assert(final(output)@ =~= old(output)@ + personal_block(*personal));
}

/// Appends the header line.
pub fn render_header(output: &mut String, document: &Document)
    ensures
        final(output)@ == old(output)@ + header_block(*document),
{
    match &document.header.image {
        Some(image) => {
            let mut l = String::new();
            push_str(&mut l, "\\DisplayHeader{");
            let subtitle = escape_latex(document.header.subtitle.as_str());
            push_str(&mut l, subtitle.as_str());
            push_str(&mut l, "}{");
            let path = escape_latex_path(image.as_str());
            push_str(&mut l, path.as_str());
            push_str(&mut l, "}");
            push_line(output, l.as_str());
        },
        None => push_command(output, "DisplayHeader", document.header.subtitle.as_str()),
    }
}

/// Appends the `\cvitem` line of an item.
pub fn render_item(output: &mut String, item: &Item)
    ensures
        final(output)@ == old(output)@ + item_line(*item),
{
    let mut l = String::new();
    push_str(&mut l, "\\cvitem{");
    let label = escape_latex(item.label.as_str());
    push_str(&mut l, label.as_str());
    push_str(&mut l, "}{");
    let value = escape_latex(item.value.as_str());
    push_str(&mut l, value.as_str());
    push_str(&mut l, "}");
    push_line(output, l.as_str());
}

/// Appends the `\cventry` block of an entry.
pub fn render_entry(output: &mut String, entry: &Entry)
    ensures
        final(output)@ == old(output)@ + entry_block(*entry),
{
    push_line(output, "\\cventry[");
    push_key_value(output, "dates", str_or_empty(&entry.dates));
    push_key_value(output, "title", entry.title.as_str());
    push_key_value(output, "org", str_or_empty(&entry.org));
    push_key_value(output, "location", str_or_empty(&entry.location));
    let ghost before_url = output@;
    if let Some(url) = &entry.url {
        push_key_value(output, "url", url.as_str());
    }
    let ghost url_part = url_block(entry.url);
    assert(output@ =~= before_url + url_part);
    push_line(output, "]{\\cvitemize{");
    let ghost before_bullets = output@;
    let n = entry.bullets.len();
    for k in 0..n
        invariant
            n == entry.bullets.len(),
            output@ == before_bullets + concat_map(
                entry.bullets@.take(k as int),
                bullet_line_fn(),
            ),
    {
        proof {
            lemma_concat_map_take(entry.bullets@, bullet_line_fn(), k as int);
        }
        let mut l = String::new();
        push_str(&mut l, "\t\\item ");
        let b = escape_latex(entry.bullets[k].as_str());
        push_str(&mut l, b.as_str());
        push_line(output, l.as_str());
        assert(output@ =~= before_bullets + concat_map(
            entry.bullets@.take(k + 1),
            bullet_line_fn(),
        ));
    }
    proof {
        lemma_take_full(entry.bullets@);
    }
    push_line(output, "}}");
    assert(final(output)@ =~= old(output)@ + entry_block(*entry));
}

/// Appends a section: its title line, then its content.
pub fn render_section(output: &mut String, section: &Section)
    ensures
        final(output)@ == old(output)@ + section_block(*section),
{
    match section {
        Section::Summary { title, body } => {
            push_command(output, "section", title.as_str());
            let e = escape_latex(body.as_str());
            push_line(output, e.as_str());
        },
        Section::Entries { title, entries } => {
            push_command(output, "section", title.as_str());
            let ghost start = output@;
            let n = entries.len();
            for j in 0..n
                invariant
                    n == entries.len(),
                    output@ == start + concat_map(entries@.take(j as int), entry_block_fn()),
            {
                proof {
                    lemma_concat_map_take(entries@, entry_block_fn(), j as int);
                }
                render_entry(output, &entries[j]);
                assert(output@ =~= start + concat_map(entries@.take(j + 1), entry_block_fn()));
            }
            proof {
                lemma_take_full(entries@);
            }
        },
        Section::Items { title, items } => {
            push_command(output, "section", title.as_str());
            let ghost start = output@;
            let n = items.len();
            for j in 0..n
                invariant
                    n == items.len(),
                    output@ == start + concat_map(items@.take(j as int), item_line_fn()),
            {
                proof {
                    lemma_concat_map_take(items@, item_line_fn(), j as int);
                }
                render_item(output, &items[j]);
                assert(output@ =~= start + concat_map(items@.take(j + 1), item_line_fn()));
            }
            proof {
                lemma_take_full(items@);
            }
        },
    }
    assert(final(output)@ =~= old(output)@ + section_block(*section));
}

/// Appends the class line and the font lines.
pub fn render_preamble(output: &mut String, document: &Document)
    ensures
        final(output)@ == old(output)@ + preamble(*document),
{
    let mut l = String::new();
    push_str(&mut l, "\\documentclass[theme=");
    push_str(&mut l, document.options.theme.as_str());
    push_str(&mut l, ",");
    push_str(&mut l, document.options.font_size.as_str());
    push_str(&mut l, "]{andre-cv}");
    push_line(output, l.as_str());
    push_char(output, '\n');
    let mut main = String::new();
    push_str(&mut main, "\\setmainfont{");
    let e = escape_latex(document.font.main.as_str());
    push_str(&mut main, e.as_str());
    push_str(&mut main, "}");
    push_line(output, main.as_str());
    let mut sans = String::new();
    push_str(&mut sans, "\\setsansfont{");
    let e = escape_latex(document.font.sans.as_str());
    push_str(&mut sans, e.as_str());
    push_str(&mut sans, "}");
    push_line(output, sans.as_str());
    let mut mono = String::new();
    push_str(&mut mono, "\\setmonofont{");
    let e = escape_latex(document.font.mono.as_str());
    push_str(&mut mono, e.as_str());
    push_str(&mut mono, "}");
    push_line(output, mono.as_str());
    assert(final(output)@ =~= old(output)@ + preamble(*document));
}

/// The LaTeX source of `document`.
pub fn render_latex(document: &Document) -> (r: String)
    ensures
        r@ == render_document(*document),
{
    let mut output = String::new();
    render_preamble(&mut output, document);
    push_char(&mut output, '\n');
    render_personal_details(&mut output, &document.personal);
    push_char(&mut output, '\n');
    push_line(&mut output, "\\begin{document}");
    render_header(&mut output, document);
    push_char(&mut output, '\n');
    let ghost start = output@;
    let n = document.sections.len();
    for i in 0..n
        invariant
            n == document.sections.len(),
            output@ == start + concat_map(document.sections@.take(i as int), spaced_section_fn()),
    {
        proof {
            lemma_concat_map_take(document.sections@, spaced_section_fn(), i as int);
        }
        render_section(&mut output, &document.sections[i]);
        push_char(&mut output, '\n');
        assert(output@ =~= start + concat_map(document.sections@.take(i + 1), spaced_section_fn()));
    }
    proof {
        lemma_take_full(document.sections@);
    }
    push_line(&mut output, "\\end{document}");
    assert(output@ =~= render_document(*document));
    output
}

impl DocumentRenderer for LatexRenderer {
    /// The rendering of a document is its LaTeX source.
    open spec fn renders(&self, document: Document, text: Seq<char>) -> bool {
        text == render_document(document)
    }

    /// The LaTeX renderer never fails.
    open spec fn fails_with(&self, document: Document, error: RenderError) -> bool {
        false
    }

    /// Always succeeds, with the LaTeX source of `document`.
    fn render(&self, document: &Document) -> (r: Result<String, RenderError>)
        ensures
            r matches Ok(s) && s@ == render_document(*document),
    {
        Ok(render_latex(document))
    }
}

// ---------------------------------------------------------------------------
// What every rendering looks like
// ---------------------------------------------------------------------------

/// The `\documentclass` line that opens every rendering.
pub open spec fn class_line(document: Document) -> Seq<char> {
    line(
        "\\documentclass[theme="@ + theme_name(document.options.theme) + ","@
            + document.options.font_size@ + "]{andre-cv}"@,
    )
}

/// Every rendering opens with the class line, which names the theme and the
/// font size, and closes with `\end{document}`.
#[verifier::spinoff_prover]
pub proof fn lemma_render_frame(document: Document)
    ensures
        class_line(document).is_prefix_of(render_document(document)),
        line("\\end{document}"@).is_suffix_of(render_document(document)),
{
    let c = class_line(document);
    let e = line("\\end{document}"@);
    let r = render_document(document);
    let after = seq!['\n'] + line("\\setmainfont{"@ + escape(document.font.main@) + "}"@) + line(
        "\\setsansfont{"@ + escape(document.font.sans@) + "}"@,
    ) + line("\\setmonofont{"@ + escape(document.font.mono@) + "}"@);
    assert(preamble(document) =~= c + after);
    let rest = after + seq!['\n'] + personal_block(document.personal) + seq!['\n'] + line(
        "\\begin{document}"@,
    ) + header_block(document) + seq!['\n'] + concat_map(document.sections@, spaced_section_fn());
    assert(r =~= c + (rest + e));
    assert(r.subrange(0, c.len() as int) =~= c);
    assert(r.subrange(r.len() - e.len(), r.len() as int) =~= e);
}

/// A personal detail that is absent or blank leaves no line; one that is
/// given and not blank becomes its command.
pub proof fn lemma_optional_detail(command: Seq<char>, value: Option<Seq<char>>)
    ensures
        (value is None || is_blank(value->0)) ==> optional_command(command, value)
            == Seq::<char>::empty(),
        (value is Some && !is_blank(value->0)) ==> optional_command(command, value)
            == command_line(command, value->0),
{
}

/// A path without backslashes or spaces is left as it is.
pub proof fn lemma_escape_path_plain(s: Seq<char>)
    requires
        forall|i: int| 0 <= i < s.len() ==> #[trigger] s[i] != '\\' && s[i] != ' ',
    ensures
        escape_path(s) == s,
    decreases s.len(),
{
    if s.len() > 0 {
        let init = s.drop_last();
        assert forall|i: int| 0 <= i < init.len() implies #[trigger] init[i] != '\\' && init[i]
            != ' ' by {
            assert(init[i] == s[i]);
        }
        lemma_escape_path_plain(init);
        assert(init.push(s.last()) =~= s);
    }
}

/// Every personal detail that is given and not blank is rendered as its own
/// command line, `\<Command>{<value, escaped>}`, and the name always is.
pub proof fn lemma_personal_details_rendered(d: Document)
    ensures
        contains_text(render_document(d), "\\SetName{"@ + escape(d.personal.name@) + "}\n"@),
        d.personal.address_one matches Some(v) ==> !is_blank(v@) ==> contains_text(
            render_document(d),
            "\\SetAddressOne{"@ + escape(v@) + "}\n"@,
        ),
        d.personal.address_two matches Some(v) ==> !is_blank(v@) ==> contains_text(
            render_document(d),
            "\\SetAddressTwo{"@ + escape(v@) + "}\n"@,
        ),
        d.personal.address_three matches Some(v) ==> !is_blank(v@) ==> contains_text(
            render_document(d),
            "\\SetAddressThree{"@ + escape(v@) + "}\n"@,
        ),
        d.personal.town matches Some(v) ==> !is_blank(v@) ==> contains_text(
            render_document(d),
            "\\SetTown{"@ + escape(v@) + "}\n"@,
        ),
        d.personal.phone matches Some(v) ==> !is_blank(v@) ==> contains_text(
            render_document(d),
            "\\SetPhone{"@ + escape(v@) + "}\n"@,
        ),
        d.personal.email matches Some(v) ==> !is_blank(v@) ==> contains_text(
            render_document(d),
            "\\SetEmail{"@ + escape(v@) + "}\n"@,
        ),
        d.personal.citizenship matches Some(v) ==> !is_blank(v@) ==> contains_text(
            render_document(d),
            "\\SetCitizenship{"@ + escape(v@) + "}\n"@,
        ),
        d.personal.github matches Some(v) ==> !is_blank(v@) ==> contains_text(
            render_document(d),
            "\\SetGithub{"@ + escape(v@) + "}\n"@,
        ),
        d.personal.linkedin matches Some(v) ==> !is_blank(v@) ==> contains_text(
            render_document(d),
            "\\SetLinkedIn{"@ + escape(v@) + "}\n"@,
        ),
        d.personal.xing matches Some(v) ==> !is_blank(v@) ==> contains_text(
            render_document(d),
            "\\SetXing{"@ + escape(v@) + "}\n"@,
        ),
        d.personal.homepage matches Some(v) ==> !is_blank(v@) ==> contains_text(
            render_document(d),
            "\\SetHomepage{"@ + escape(v@) + "}\n"@,
        ),
{
    let p = d.personal;
    reveal_strlit("\\");
    reveal_strlit("{");
    reveal_strlit("SetName");
    reveal_strlit("\\SetName{");
    assert("\\"@ + "SetName"@ + "{"@ =~= "\\SetName{"@);
    reveal_strlit("SetAddressOne");
    reveal_strlit("\\SetAddressOne{");
    assert("\\"@ + "SetAddressOne"@ + "{"@ =~= "\\SetAddressOne{"@);
    reveal_strlit("SetAddressTwo");
    reveal_strlit("\\SetAddressTwo{");
    assert("\\"@ + "SetAddressTwo"@ + "{"@ =~= "\\SetAddressTwo{"@);
    reveal_strlit("SetAddressThree");
    reveal_strlit("\\SetAddressThree{");
    assert("\\"@ + "SetAddressThree"@ + "{"@ =~= "\\SetAddressThree{"@);
    reveal_strlit("SetTown");
    reveal_strlit("\\SetTown{");
    assert("\\"@ + "SetTown"@ + "{"@ =~= "\\SetTown{"@);
    reveal_strlit("SetPhone");
    reveal_strlit("\\SetPhone{");
    assert("\\"@ + "SetPhone"@ + "{"@ =~= "\\SetPhone{"@);
    reveal_strlit("SetEmail");
    reveal_strlit("\\SetEmail{");
    assert("\\"@ + "SetEmail"@ + "{"@ =~= "\\SetEmail{"@);
    reveal_strlit("SetCitizenship");
    reveal_strlit("\\SetCitizenship{");
    assert("\\"@ + "SetCitizenship"@ + "{"@ =~= "\\SetCitizenship{"@);
    reveal_strlit("SetGithub");
    reveal_strlit("\\SetGithub{");
    assert("\\"@ + "SetGithub"@ + "{"@ =~= "\\SetGithub{"@);
    reveal_strlit("SetLinkedIn");
    reveal_strlit("\\SetLinkedIn{");
    assert("\\"@ + "SetLinkedIn"@ + "{"@ =~= "\\SetLinkedIn{"@);
    reveal_strlit("SetXing");
    reveal_strlit("\\SetXing{");
    assert("\\"@ + "SetXing"@ + "{"@ =~= "\\SetXing{"@);
    reveal_strlit("SetHomepage");
    reveal_strlit("\\SetHomepage{");
    assert("\\"@ + "SetHomepage"@ + "{"@ =~= "\\SetHomepage{"@);
    lemma_command_line_text("SetName"@, p.name@);
    lemma_in_personal(p, command_line("SetName"@, p.name@));
    lemma_in_render(d, command_line("SetName"@, p.name@));
    lemma_detail_rendered(d, "SetAddressOne"@, p.address_one);
    lemma_detail_rendered(d, "SetAddressTwo"@, p.address_two);
    lemma_detail_rendered(d, "SetAddressThree"@, p.address_three);
    lemma_detail_rendered(d, "SetTown"@, p.town);
    lemma_detail_rendered(d, "SetPhone"@, p.phone);
    lemma_detail_rendered(d, "SetEmail"@, p.email);
    lemma_detail_rendered(d, "SetCitizenship"@, p.citizenship);
    lemma_detail_rendered(d, "SetGithub"@, p.github);
    lemma_detail_rendered(d, "SetLinkedIn"@, p.linkedin);
    lemma_detail_rendered(d, "SetXing"@, p.xing);
    lemma_detail_rendered(d, "SetHomepage"@, p.homepage);
}

proof fn lemma_command_line_text(command: Seq<char>, value: Seq<char>)
    ensures
        command_line(command, value) == "\\"@ + command + "{"@ + escape(value) + "}\n"@,
{
    reveal_strlit("}\n");
    reveal_strlit("}");
    assert(command_line(command, value) =~= "\\"@ + command + "{"@ + escape(value) + "}\n"@);
}

/// Each of the personal-detail pieces occurs in the personal block.
proof fn lemma_in_personal(p: PersonalDetails, t: Seq<char>)
    ensures
        (t == command_line("SetName"@, p.name@)
            || t == optional_command("SetAddressOne"@, opt_text(p.address_one))
            || t == optional_command("SetAddressTwo"@, opt_text(p.address_two))
            || t == optional_command("SetAddressThree"@, opt_text(p.address_three))
            || t == optional_command("SetTown"@, opt_text(p.town))
            || t == optional_command("SetPhone"@, opt_text(p.phone))
            || t == optional_command("SetEmail"@, opt_text(p.email))
            || t == optional_command("SetCitizenship"@, opt_text(p.citizenship))
            || t == optional_command("SetGithub"@, opt_text(p.github))
            || t == optional_command("SetLinkedIn"@, opt_text(p.linkedin))
            || t == optional_command("SetXing"@, opt_text(p.xing))
            || t == optional_command("SetHomepage"@, opt_text(p.homepage))) ==> contains_text(
            personal_block(p),
            t,
        ),
{
    let c0 = command_line("SetName"@, p.name@);
    let o1 = optional_command("SetAddressOne"@, opt_text(p.address_one));
    let o2 = optional_command("SetAddressTwo"@, opt_text(p.address_two));
    let o3 = optional_command("SetAddressThree"@, opt_text(p.address_three));
    let o4 = optional_command("SetTown"@, opt_text(p.town));
    let o5 = optional_command("SetPhone"@, opt_text(p.phone));
    let o6 = optional_command("SetEmail"@, opt_text(p.email));
    let o7 = optional_command("SetCitizenship"@, opt_text(p.citizenship));
    let o8 = optional_command("SetGithub"@, opt_text(p.github));
    let o9 = optional_command("SetLinkedIn"@, opt_text(p.linkedin));
    let o10 = optional_command("SetXing"@, opt_text(p.xing));
    let o11 = optional_command("SetHomepage"@, opt_text(p.homepage));
    let l1 = c0 + o1;
    let l2 = l1 + o2;
    let l3 = l2 + o3;
    let l4 = l3 + o4;
    let l5 = l4 + o5;
    let l6 = l5 + o6;
    let l7 = l6 + o7;
    let l8 = l7 + o8;
    let l9 = l8 + o9;
    let l10 = l9 + o10;
    let l11 = l10 + o11;
    lemma_contains_self(t);
    lemma_contains_add(c0, o1, t);
    lemma_contains_add(l1, o2, t);
    lemma_contains_add(l2, o3, t);
    lemma_contains_add(l3, o4, t);
    lemma_contains_add(l4, o5, t);
    lemma_contains_add(l5, o6, t);
    lemma_contains_add(l6, o7, t);
    lemma_contains_add(l7, o8, t);
    lemma_contains_add(l8, o9, t);
    lemma_contains_add(l9, o10, t);
    lemma_contains_add(l10, o11, t);
    assert(personal_block(p) == l11);
}

/// What occurs in the personal block occurs in the rendering.
proof fn lemma_in_render(d: Document, t: Seq<char>)
    requires
        contains_text(personal_block(d.personal), t) || t == personal_block(d.personal),
    ensures
        contains_text(render_document(d), t),
{
    lemma_contains_self(t);
    let nl = seq!['\n'];
    let r0 = preamble(d) + nl;
    let r1 = r0 + personal_block(d.personal);
    let r2 = r1 + nl;
    let r3 = r2 + line("\\begin{document}"@);
    let r4 = r3 + header_block(d);
    let r5 = r4 + nl;
    let r6 = r5 + concat_map(d.sections@, spaced_section_fn());
    let r7 = r6 + line("\\end{document}"@);
    lemma_contains_add(r0, personal_block(d.personal), t);
    lemma_contains_add(r1, nl, t);
    lemma_contains_add(r2, line("\\begin{document}"@), t);
    lemma_contains_add(r3, header_block(d), t);
    lemma_contains_add(r4, nl, t);
    lemma_contains_add(r5, concat_map(d.sections@, spaced_section_fn()), t);
    lemma_contains_add(r6, line("\\end{document}"@), t);
    assert(render_document(d) == r7);
}

proof fn lemma_detail_rendered(d: Document, command: Seq<char>, value: Option<String>)
    requires
        (command == "SetAddressOne"@ && value == d.personal.address_one) || (command == "SetAddressTwo"@ && value == d.personal.address_two) || (command == "SetAddressThree"@ && value == d.personal.address_three) || (command == "SetTown"@ && value == d.personal.town) || (command == "SetPhone"@ && value == d.personal.phone) || (command == "SetEmail"@ && value == d.personal.email) || (command == "SetCitizenship"@ && value == d.personal.citizenship) || (command == "SetGithub"@ && value == d.personal.github) || (command == "SetLinkedIn"@ && value == d.personal.linkedin) || (command == "SetXing"@ && value == d.personal.xing) || (command == "SetHomepage"@ && value == d.personal.homepage),
    ensures
        value matches Some(v) ==> !is_blank(v@) ==> contains_text(
            render_document(d),
            "\\"@ + command + "{"@ + escape(v@) + "}\n"@,
        ),
{
    if let Some(v) = value {
        if !is_blank(v@) {
            lemma_command_line_text(command, v@);
            lemma_in_personal(d.personal, optional_command(command, opt_text(value)));
            lemma_in_render(d, command_line(command, v@));
        }
    }
}

} // verus!
