//! Checks that a document has everything the renderer needs, and reports
//! every missing piece by its path in the document.
use vstd::prelude::*;
use crate::schema::{Document, Entry, Item, Section, section_title};
use crate::text::{
    is_blank, is_blank_str, join, push_decimal, push_str, views, decimal, lemma_take_full,
};

verus! {

/// The messages of a failed validation, in the order the checks ran.
#[derive(Debug, Clone, PartialEq, Eq)]
pub struct ValidationError {
    messages: Vec<String>,
}

impl View for ValidationError {
    type V = Seq<Seq<char>>;

    closed spec fn view(&self) -> Seq<Seq<char>> {
        views(self.messages@)
    }
}

impl ValidationError {
    /// The error that reports `messages`.
    pub fn new(messages: Vec<String>) -> (r: Self)
        ensures
            r@ == views(messages@),
    {
        ValidationError { messages }
    }

    /// The messages, in order.
    pub fn messages(&self) -> (r: &[String])
        ensures
            views(r@) == self@,
    {
        self.messages.as_slice()
    }

    /// The messages joined by `"; "`.
    pub fn to_string(&self) -> (r: String)
        ensures
            r@ == join(self@, "; "@),
    {
        let mut out = String::new();
        let n = self.messages.len();
        let ghost all = views(self.messages@);
        for i in 0..n
            invariant
                n == self.messages.len(),
                all == views(self.messages@),
                all == self@,
                out@ == join(all.take(i as int), "; "@),
        {
            proof {
                assert(all.take(i + 1).drop_last() =~= all.take(i as int));
            }
            if i > 0 {
                push_str(&mut out, "; ");
            }
            push_str(&mut out, self.messages[i].as_str());
            proof {
                if i == 0 {
                    assert(all.take(1) =~= seq![all[0]]);
                    assert(out@ =~= join(all.take(1), "; "@));
                } else {
                    assert(out@ =~= join(all.take(i + 1), "; "@));
                }
            }
        }
        proof {
            lemma_take_full(all);
        }
        out
    }
}

/// `sections[i]`, the path of the section at index `i`.
pub open spec fn section_path(i: nat) -> Seq<char> {
    "sections["@ + decimal(i) + "]"@
}

/// `<section>.entries[j]`, the path of an entry.
pub open spec fn entry_path(section: Seq<char>, j: nat) -> Seq<char> {
    section + ".entries["@ + decimal(j) + "]"@
}

/// `<section>.items[j]`, the path of an item.
pub open spec fn item_path(section: Seq<char>, j: nat) -> Seq<char> {
    section + ".items["@ + decimal(j) + "]"@
}

/// The message `m`, when `cond` holds; nothing otherwise.
pub open spec fn message_if(cond: bool, m: Seq<char>) -> Seq<Seq<char>> {
    if cond {
        seq![m]
    } else {
        Seq::empty()
    }
}

/// Whether some bullet of the list is blank.
pub open spec fn has_blank_bullet(bullets: Seq<String>) -> bool {
    exists|k: int| 0 <= k < bullets.len() && is_blank(#[trigger] bullets[k]@)
}

/// What is wrong with the entry at index `j` of the section at `path`.
pub open spec fn entry_messages(path: Seq<char>, j: nat, entry: Entry) -> Seq<Seq<char>> {
    let p = entry_path(path, j);
    message_if(is_blank(entry.title@), p + ".title is required"@) + message_if(
        has_blank_bullet(entry.bullets@),
        p + ".bullets must not contain empty values"@,
    )
}

/// What is wrong with the entries of the section at `path`, entry by entry.
pub open spec fn entries_messages(path: Seq<char>, entries: Seq<Entry>) -> Seq<Seq<char>>
    decreases entries.len(),
{
    if entries.len() == 0 {
        Seq::empty()
    } else {
        entries_messages(path, entries.drop_last()) + entry_messages(
            path,
            (entries.len() - 1) as nat,
            entries.last(),
        )
    }
}

/// What is wrong with the item at index `j` of the section at `path`.
pub open spec fn item_messages(path: Seq<char>, j: nat, item: Item) -> Seq<Seq<char>> {
    let p = item_path(path, j);
    message_if(is_blank(item.label@), p + ".label is required"@) + message_if(
        is_blank(item.value@),
        p + ".value is required"@,
    )
}

/// What is wrong with the items of the section at `path`, item by item.
pub open spec fn items_messages(path: Seq<char>, items: Seq<Item>) -> Seq<Seq<char>>
    decreases items.len(),
{
    if items.len() == 0 {
        Seq::empty()
    } else {
        items_messages(path, items.drop_last()) + item_messages(
            path,
            (items.len() - 1) as nat,
            items.last(),
        )
    }
}

/// What is wrong with the content of a section, by its kind.
pub open spec fn section_body_messages(path: Seq<char>, section: Section) -> Seq<Seq<char>> {
    match section {
        Section::Summary { body, .. } => message_if(is_blank(body@), path + ".body is required"@),
        Section::Entries { entries, .. } => message_if(
            entries@.len() == 0,
            path + ".entries must not be empty"@,
        ) + entries_messages(path, entries@),
        Section::Items { items, .. } => message_if(
            items@.len() == 0,
            path + ".items must not be empty"@,
        ) + items_messages(path, items@),
    }
}

/// What is wrong with the section at index `i`: its title first, then its
/// content.
pub open spec fn section_messages(i: nat, section: Section) -> Seq<Seq<char>> {
    let path = section_path(i);
    message_if(is_blank(section_title(section)), path + ".title is required"@)
        + section_body_messages(path, section)
}

/// What is wrong with the sections, section by section.
pub open spec fn sections_messages(sections: Seq<Section>) -> Seq<Seq<char>>
    decreases sections.len(),
{
    if sections.len() == 0 {
        Seq::empty()
    } else {
        sections_messages(sections.drop_last()) + section_messages(
            (sections.len() - 1) as nat,
            sections.last(),
        )
    }
}

/// Every message that validating `document` reports, in order: the name,
/// the subtitle, the presence of sections, then each section.
pub open spec fn document_messages(document: Document) -> Seq<Seq<char>> {
    message_if(is_blank(document.personal.name@), "personal.name is required"@) + message_if(
        is_blank(document.header.subtitle@),
        "header.subtitle is required"@,
    ) + message_if(document.sections@.len() == 0, "at least one section is required"@)
        + sections_messages(document.sections@)
}

/// A document is valid when validating it reports nothing.
pub open spec fn is_valid_document(document: Document) -> bool {
    document_messages(document).len() == 0
}

/// Appends `message` to the list.
fn push_message(messages: &mut Vec<String>, message: String)
    ensures
        views(final(messages)@) == views(old(messages)@).push(message@),
{
    messages.push(message);
    assert(views(final(messages)@) =~= views(old(messages)@).push(message@));
}

/// Appends `path` followed by `suffix` as one message.
fn push_path_message(messages: &mut Vec<String>, path: &str, suffix: &str)
    ensures
        views(final(messages)@) == views(old(messages)@).push(path@ + suffix@),
{
    let mut m = String::new();
    push_str(&mut m, path);
    push_str(&mut m, suffix);
    assert(m@ =~= path@ + suffix@);
    push_message(messages, m);
}

/// The path `<prefix>[<index>]` of a list element.
fn indexed_path(prefix: &str, index: usize, tail: &str) -> (r: String)
    ensures
        r@ == prefix@ + decimal(index as nat) + tail@,
{
    let mut p = String::new();
    push_str(&mut p, prefix);
    push_decimal(&mut p, index);
    push_str(&mut p, tail);
    p
}

/// Whether some bullet is blank.
fn any_blank_bullet(bullets: &Vec<String>) -> (r: bool)
    ensures
        r == has_blank_bullet(bullets@),
{
    let n = bullets.len();
    for k in 0..n
        invariant
            n == bullets.len(),
            forall|m: int| 0 <= m < k ==> !is_blank(#[trigger] bullets@[m]@),
    {
        if is_blank_str(bullets[k].as_str()) {
            return true;
        }
    }
    false
}

/// Checks the entries of the section at `path`.
fn check_entries(messages: &mut Vec<String>, path: &str, entries: &Vec<Entry>)
    ensures
        views(final(messages)@) == views(old(messages)@) + entries_messages(path@, entries@),
{
    let n = entries.len();
    for j in 0..n
        invariant
            n == entries.len(),
            views(messages@) == views(old(messages)@) + entries_messages(
                path@,
                entries@.take(j as int),
            ),
    {
        let ghost before = views(messages@);
        let entry = &entries[j];
        let mut p = String::new();
        push_str(&mut p, path);
        push_str(&mut p, ".entries[");
        push_decimal(&mut p, j);
        push_str(&mut p, "]");
        assert(p@ =~= entry_path(path@, j as nat));
        if is_blank_str(entry.title.as_str()) {
            push_path_message(messages, p.as_str(), ".title is required");
        }
        if any_blank_bullet(&entry.bullets) {
            push_path_message(messages, p.as_str(), ".bullets must not contain empty values");
        }
        assert(entries@.take(j + 1).drop_last() =~= entries@.take(j as int));
        assert(views(messages@) =~= before + entry_messages(path@, j as nat, *entry));
        assert(views(messages@) =~= views(old(messages)@) + entries_messages(
            path@,
            entries@.take(j + 1),
        ));
    }
    proof {
        lemma_take_full(entries@);
    }
}

/// Checks the items of the section at `path`.
fn check_items(messages: &mut Vec<String>, path: &str, items: &Vec<Item>)
    ensures
        views(final(messages)@) == views(old(messages)@) + items_messages(path@, items@),
{
    let n = items.len();
    for j in 0..n
        invariant
            n == items.len(),
            views(messages@) == views(old(messages)@) + items_messages(
                path@,
                items@.take(j as int),
            ),
    {
        let ghost before = views(messages@);
        let item = &items[j];
        let mut p = String::new();
        push_str(&mut p, path);
        push_str(&mut p, ".items[");
        push_decimal(&mut p, j);
        push_str(&mut p, "]");
        assert(p@ =~= item_path(path@, j as nat));
        if is_blank_str(item.label.as_str()) {
            push_path_message(messages, p.as_str(), ".label is required");
        }
        if is_blank_str(item.value.as_str()) {
            push_path_message(messages, p.as_str(), ".value is required");
        }
        assert(items@.take(j + 1).drop_last() =~= items@.take(j as int));
        assert(views(messages@) =~= before + item_messages(path@, j as nat, *item));
        assert(views(messages@) =~= views(old(messages)@) + items_messages(
            path@,
            items@.take(j + 1),
        ));
    }
    proof {
        lemma_take_full(items@);
    }
}

/// Checks the section at index `index`.
fn check_section(messages: &mut Vec<String>, index: usize, section: &Section)
    ensures
        views(final(messages)@) == views(old(messages)@) + section_messages(index as nat, *section),
{
    let path = indexed_path("sections[", index, "]");
    assert(path@ == section_path(index as nat));
    let ghost start = views(messages@);
    if is_blank_str(section.title()) {
        push_path_message(messages, path.as_str(), ".title is required");
    }
    let ghost after_title = views(messages@);
    match section {
        Section::Summary { body, .. } => {
            if is_blank_str(body.as_str()) {
                push_path_message(messages, path.as_str(), ".body is required");
            }
        },
        Section::Entries { entries, .. } => {
            if entries.len() == 0 {
                push_path_message(messages, path.as_str(), ".entries must not be empty");
            }
            check_entries(messages, path.as_str(), entries);
        },
        Section::Items { items, .. } => {
            if items.len() == 0 {
                push_path_message(messages, path.as_str(), ".items must not be empty");
            }
            check_items(messages, path.as_str(), items);
        },
    }
    assert(views(messages@) =~= after_title + section_body_messages(path@, *section));
    assert(views(messages@) =~= start + section_messages(index as nat, *section));
}

/// Checks `document`: `Ok` exactly when nothing is missing, and otherwise the
/// error lists every problem, in the order the checks ran.
pub fn validate_document(document: &Document) -> (r: Result<(), ValidationError>)
    ensures
        match r {
            Ok(()) => is_valid_document(*document),
            Err(e) => !is_valid_document(*document) && e@ == document_messages(*document),
        },
{
    let mut messages: Vec<String> = Vec::new();
    assert(views(messages@) =~= Seq::<Seq<char>>::empty());
    if is_blank_str(document.personal.name.as_str()) {
        push_message(&mut messages, "personal.name is required".to_owned());
    }
    if is_blank_str(document.header.subtitle.as_str()) {
        push_message(&mut messages, "header.subtitle is required".to_owned());
    }
    if document.sections.len() == 0 {
        push_message(&mut messages, "at least one section is required".to_owned());
    }
    let ghost head = views(messages@);
    assert(head =~= message_if(is_blank(document.personal.name@), "personal.name is required"@)
        + message_if(is_blank(document.header.subtitle@), "header.subtitle is required"@)
        + message_if(document.sections@.len() == 0, "at least one section is required"@));
    let n = document.sections.len();
    for i in 0..n
        invariant
            n == document.sections.len(),
            views(messages@) == head + sections_messages(document.sections@.take(i as int)),
    {
        check_section(&mut messages, i, &document.sections[i]);
        assert(document.sections@.take(i + 1).drop_last() =~= document.sections@.take(i as int));
        assert(views(messages@) =~= head + sections_messages(document.sections@.take(i + 1)));
    }
    proof {
        lemma_take_full(document.sections@);
    }
    assert(views(messages@) =~= document_messages(*document));
    if messages.len() == 0 {
        Ok(())
    } else {
        Err(ValidationError::new(messages))
    }
}

// ---------------------------------------------------------------------------
// What a valid document is
// ---------------------------------------------------------------------------

/// An entry is complete when its title is not blank and no bullet is blank.
pub open spec fn entry_is_complete(entry: Entry) -> bool {
    !is_blank(entry.title@) && !has_blank_bullet(entry.bullets@)
}

/// An item is complete when neither its label nor its value is blank.
pub open spec fn item_is_complete(item: Item) -> bool {
    !is_blank(item.label@) && !is_blank(item.value@)
}

/// A section is complete when its title is not blank and its content is
/// there: a summary's body is not blank; a list of entries or items is not
/// empty and each of its elements is complete.
pub open spec fn section_is_complete(section: Section) -> bool {
    &&& !is_blank(section_title(section))
    &&& match section {
        Section::Summary { body, .. } => !is_blank(body@),
        Section::Entries { entries, .. } => entries@.len() > 0 && forall|j: int|
            0 <= j < entries@.len() ==> entry_is_complete(#[trigger] entries@[j]),
        Section::Items { items, .. } => items@.len() > 0 && forall|j: int|
            0 <= j < items@.len() ==> item_is_complete(#[trigger] items@[j]),
    }
}

proof fn lemma_entries_messages_empty(path: Seq<char>, entries: Seq<Entry>)
    ensures
        entries_messages(path, entries).len() == 0 <==> forall|j: int|
            0 <= j < entries.len() ==> entry_is_complete(#[trigger] entries[j]),
    decreases entries.len(),
{
    if entries.len() > 0 {
        let init = entries.drop_last();
        lemma_entries_messages_empty(path, init);
        assert forall|j: int| 0 <= j < init.len() implies init[j] == entries[j] by {}
        if entries_messages(path, entries).len() == 0 {
            assert forall|j: int| 0 <= j < entries.len() implies entry_is_complete(
                #[trigger] entries[j],
            ) by {
                if j < init.len() {
                    assert(init[j] == entries[j]);
                }
            }
        }
    }
}

proof fn lemma_items_messages_empty(path: Seq<char>, items: Seq<Item>)
    ensures
        items_messages(path, items).len() == 0 <==> forall|j: int|
            0 <= j < items.len() ==> item_is_complete(#[trigger] items[j]),
    decreases items.len(),
{
    if items.len() > 0 {
        let init = items.drop_last();
        lemma_items_messages_empty(path, init);
        assert forall|j: int| 0 <= j < init.len() implies init[j] == items[j] by {}
        if items_messages(path, items).len() == 0 {
            assert forall|j: int| 0 <= j < items.len() implies item_is_complete(
                #[trigger] items[j],
            ) by {
                if j < init.len() {
                    assert(init[j] == items[j]);
                }
            }
        }
    }
}

proof fn lemma_section_messages_empty(i: nat, section: Section)
    ensures
        section_messages(i, section).len() == 0 <==> section_is_complete(section),
{
    let path = section_path(i);
    match section {
        Section::Summary { .. } => {},
        Section::Entries { entries, .. } => {
            lemma_entries_messages_empty(path, entries@);
        },
        Section::Items { items, .. } => {
            lemma_items_messages_empty(path, items@);
        },
    }
}

proof fn lemma_sections_messages_empty(sections: Seq<Section>)
    ensures
        sections_messages(sections).len() == 0 <==> forall|i: int|
            0 <= i < sections.len() ==> section_is_complete(#[trigger] sections[i]),
    decreases sections.len(),
{
    if sections.len() > 0 {
        let init = sections.drop_last();
        lemma_sections_messages_empty(init);
        lemma_section_messages_empty((sections.len() - 1) as nat, sections.last());
        assert forall|j: int| 0 <= j < init.len() implies init[j] == sections[j] by {}
        if sections_messages(sections).len() == 0 {
            assert forall|j: int| 0 <= j < sections.len() implies section_is_complete(
                #[trigger] sections[j],
            ) by {
                if j < init.len() {
                    assert(init[j] == sections[j]);
                }
            }
        }
    }
}

/// Validation accepts exactly the documents whose name and subtitle are not
/// blank, that have at least one section, and whose every section is
/// complete.
pub proof fn lemma_valid_document_characterization(document: Document)
    ensures
        is_valid_document(document) <==> {
            &&& !is_blank(document.personal.name@)
            &&& !is_blank(document.header.subtitle@)
            &&& document.sections@.len() > 0
            &&& forall|i: int|
                0 <= i < document.sections@.len() ==> section_is_complete(
                    #[trigger] document.sections@[i],
                )
        },
{
    lemma_sections_messages_empty(document.sections@);
}

} // verus!
