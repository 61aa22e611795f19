//! What the client gets to see of the vault.

use vstd::prelude::*;
use crate::config::search::Field;
use crate::config::search::Search;
use crate::config::search::SearchView;
use crate::keepass::db;
use crate::keepass::db::field_at;
use crate::keepass::db::field_value;
use crate::keepass::db::fields_view;
use crate::keepass::db::lemma_field_at;
use crate::keepass::db::FieldView;
use crate::keepass::db::ValueView;
use crate::text::clone_strings;
use crate::text::opt_view;
use crate::text::str_eq;
use crate::text::texts_view;

verus! {

/// `regex::Regex`: a compiled search term. What it matches is known only
/// through `term_matches`.
#[verifier::external_type_specification]
#[verifier::external_body]
pub struct ExRegex(regex::Regex);

/// Whether the search term matches somewhere in `text`.
pub uninterp spec fn term_matches(term: regex::Regex, text: Seq<char>) -> bool;

/// `Regex::is_match`: whether the term matches somewhere in the text.
#[verifier::external_body]
fn is_match(term: &regex::Regex, text: &str) -> (r: bool)
    ensures
        r == term_matches(*term, text@),
{
    term.is_match(text)
}

/// A group as the client sees it: its name, its looks and the groups below
/// it.
#[derive(Debug)]
pub struct Group {
    pub id: u128,
    pub title: String,
    pub icon: Option<usize>,
    pub custom_icon_uuid: Option<u128>,
    pub children: Vec<Group>,
    pub expanded: bool,
}

/// What a `Group` holds, as mathematical values.
pub struct GroupView {
    pub id: u128,
    pub title: Seq<char>,
    pub icon: Option<usize>,
    pub custom_icon_uuid: Option<u128>,
    pub children: Seq<GroupView>,
    pub expanded: bool,
}

/// The view of a group.
pub open spec fn group_view(group: Group) -> GroupView
    decreases group,
{
    GroupView {
        id: group.id,
        title: group.title@,
        icon: group.icon,
        custom_icon_uuid: group.custom_icon_uuid,
        children: Seq::new(
            group.children@.len(),
            |i: int|
                if 0 <= i < group.children@.len() {
                    group_view(group.children@[i])
                } else {
                    arbitrary()
                },
        ),
        expanded: group.expanded,
    }
}

impl View for Group {
    type V = GroupView;

    open spec fn view(&self) -> GroupView {
        group_view(*self)
    }
}

/// The views of a list of groups.
pub open spec fn groups_view(groups: Seq<Group>) -> Seq<GroupView> {
    Seq::new(groups.len(), |i: int| groups[i]@)
}

/// An entry as the client sees it. What is protected is named, not shown.
#[derive(Debug)]
pub struct Entry {
    pub id: u128,
    pub title: Option<String>,
    pub username: Option<String>,
    pub notes: Option<String>,
    pub binary: Option<Vec<String>>,
    pub protected: Option<Vec<String>>,
    pub tags: Option<Vec<String>>,
    pub icon: Option<usize>,
    pub custom_icon_uuid: Option<u128>,
    pub url: Option<String>,
    pub strings: Option<Vec<(String, Option<String>)>>,
}

/// What an `Entry` holds, as mathematical values.
pub struct EntryView {
    pub id: u128,
    pub title: Option<Seq<char>>,
    pub username: Option<Seq<char>>,
    pub notes: Option<Seq<char>>,
    pub binary: Option<Seq<Seq<char>>>,
    pub protected: Option<Seq<Seq<char>>>,
    pub tags: Option<Seq<Seq<char>>>,
    pub icon: Option<usize>,
    pub custom_icon_uuid: Option<u128>,
    pub url: Option<Seq<char>>,
    pub strings: Option<Seq<(Seq<char>, Option<Seq<char>>)>>,
}

/// The views of an optional list of texts.
pub open spec fn opt_texts_view(texts: Option<Vec<String>>) -> Option<Seq<Seq<char>>> {
    match texts {
        Some(list) => Some(texts_view(list@)),
        None => None,
    }
}

/// The views of a list of named texts.
pub open spec fn strings_view(strings: Seq<(String, Option<String>)>) -> Seq<
    (Seq<char>, Option<Seq<char>>),
> {
    Seq::new(strings.len(), |i: int| (strings[i].0@, opt_view(strings[i].1)))
}

impl View for Entry {
    type V = EntryView;

    open spec fn view(&self) -> EntryView {
        EntryView {
            id: self.id,
            title: opt_view(self.title),
            username: opt_view(self.username),
            notes: opt_view(self.notes),
            binary: opt_texts_view(self.binary),
            protected: opt_texts_view(self.protected),
            tags: opt_texts_view(self.tags),
            icon: self.icon,
            custom_icon_uuid: self.custom_icon_uuid,
            url: opt_view(self.url),
            strings: match self.strings {
                Some(list) => Some(strings_view(list@)),
                None => None,
            },
        }
    }
}

/// The views of a list of entries.
pub open spec fn entries_view(entries: Seq<Entry>) -> Seq<EntryView> {
    Seq::new(entries.len(), |i: int| entries[i]@)
}

/// The entries of a group, or the entries that a search found.
#[derive(Debug)]
pub struct EntryGroup {
    pub title: String,
    pub icon: Option<usize>,
    pub custom_icon_uuid: Option<u128>,
    pub entries: Vec<Entry>,
}

/// What an `EntryGroup` holds, as mathematical values.
pub struct EntryGroupView {
    pub title: Seq<char>,
    pub icon: Option<usize>,
    pub custom_icon_uuid: Option<u128>,
    pub entries: Seq<EntryView>,
}

impl View for EntryGroup {
    type V = EntryGroupView;

    open spec fn view(&self) -> EntryGroupView {
        EntryGroupView {
            title: self.title@,
            icon: self.icon,
            custom_icon_uuid: self.custom_icon_uuid,
            entries: entries_view(self.entries@),
        }
    }
}

/// The unprotected text of the first field called `name`.
pub open spec fn shown(fields: Seq<FieldView>, name: Seq<char>) -> Option<Seq<char>> {
    match field_value(fields, name) {
        Some(ValueView::Unprotected(text)) => Some(text),
        _ => None,
    }
}

/// Whether a field of this name has a place of its own in an entry, or is
/// never shown.
pub open spec fn is_reserved(name: Seq<char>) -> bool {
    name == "Password"@ || name == "Title"@ || name == "UserName"@ || name == "Notes"@ || name
        == "URL"@
}

/// Whether the `i`-th field is the first of its name.
pub open spec fn is_first(fields: Seq<FieldView>, i: int) -> bool {
    field_at(fields, fields[i].name, 0) == Some(i)
}

/// The further texts of an entry, from its first `upto` fields: each text
/// field that is the first of its name and has no place of its own, in the
/// fields' order, with its text where that is unprotected.
pub open spec fn strings_upto(fields: Seq<FieldView>, upto: int) -> Seq<
    (Seq<char>, Option<Seq<char>>),
>
    decreases upto,
{
    if upto <= 0 || upto > fields.len() {
        Seq::empty()
    } else {
        let before = strings_upto(fields, upto - 1);
        let field = fields[upto - 1];
        if is_first(fields, upto - 1) && !is_reserved(field.name) {
            match field.value {
                ValueView::Unprotected(text) => before.push((field.name, Some(text))),
                ValueView::Protected(_) => before.push((field.name, None)),
                ValueView::Bytes(_) => before,
            }
        } else {
            before
        }
    }
}

/// The names of the protected fields among the first `upto` fields of an
/// entry, each once, in the fields' order.
pub open spec fn protected_upto(fields: Seq<FieldView>, upto: int) -> Seq<Seq<char>>
    decreases upto,
{
    if upto <= 0 || upto > fields.len() {
        Seq::empty()
    } else {
        let before = protected_upto(fields, upto - 1);
        let field = fields[upto - 1];
        if is_first(fields, upto - 1) && field.value is Protected {
            before.push(field.name)
        } else {
            before
        }
    }
}

/// An entry of the vault as the client sees it in full: title, user name,
/// notes and address as far as they are unprotected text; the tags; the
/// names of what is protected; and the further texts.
pub open spec fn entry_of(entry: db::Entry) -> EntryView {
    let fields = fields_view(entry.fields@);
    EntryView {
        id: entry.uuid,
        title: shown(fields, "Title"@),
        username: shown(fields, "UserName"@),
        notes: shown(fields, "Notes"@),
        binary: Some(Seq::empty()),
        protected: Some(protected_upto(fields, fields.len() as int)),
        tags: Some(texts_view(entry.tags@)),
        icon: entry.icon_id,
        custom_icon_uuid: entry.custom_icon_uuid,
        url: shown(fields, "URL"@),
        strings: Some(strings_upto(fields, fields.len() as int)),
    }
}

/// An entry of the vault as the client sees it in a list: title, user name
/// and address as far as they are text, and its looks.
pub open spec fn listed(entry: db::Entry) -> EntryView {
    let fields = fields_view(entry.fields@);
    EntryView {
        id: entry.uuid,
        title: db::field_text(fields, "Title"@),
        username: db::field_text(fields, "UserName"@),
        notes: None,
        binary: None,
        protected: None,
        tags: None,
        icon: entry.icon_id,
        custom_icon_uuid: entry.custom_icon_uuid,
        url: db::field_text(fields, "URL"@),
        strings: None,
    }
}

/// `texts`, with `separator` between each two.
pub open spec fn joined(texts: Seq<Seq<char>>, separator: Seq<char>) -> Seq<char>
    decreases texts.len(),
{
    if texts.len() == 0 {
        Seq::empty()
    } else if texts.len() == 1 {
        texts[0]
    } else {
        joined(texts.drop_last(), separator) + separator + texts.last()
    }
}

/// The text, or no text.
pub open spec fn or_empty(text: Option<Seq<char>>) -> Seq<char> {
    match text {
        Some(text) => text,
        None => Seq::empty(),
    }
}

/// The text of an entry that a search looks at for `field`. The tags count
/// as one text, with semicolons between them.
pub open spec fn search_text(entry: EntryView, field: Field) -> Seq<char> {
    match field {
        Field::Title => or_empty(entry.title),
        Field::Username => or_empty(entry.username),
        Field::Tags => match entry.tags {
            Some(tags) => joined(tags, ";"@),
            None => Seq::empty(),
        },
        Field::Notes => or_empty(entry.notes),
        Field::Url => or_empty(entry.url),
    }
}

/// Whether the term matches one of the first `upto` fields that the search
/// looks at.
pub open spec fn matches_fields(
    term: regex::Regex,
    entry: EntryView,
    fields: Seq<Field>,
    upto: int,
) -> bool {
    exists|i: int| 0 <= i < upto && #[trigger] term_matches(term, search_text(entry, fields[i]))
}

/// Whether the term matches the name or the text of the `j`-th further
/// text.
pub open spec fn matches_string(
    term: regex::Regex,
    strings: Seq<(Seq<char>, Option<Seq<char>>)>,
    j: int,
) -> bool {
    term_matches(term, strings[j].0) || term_matches(term, or_empty(strings[j].1))
}

/// Whether the term matches the name or the text of one of the first `upto`
/// further texts.
pub open spec fn matches_strings(
    term: regex::Regex,
    strings: Seq<(Seq<char>, Option<Seq<char>>)>,
    upto: int,
) -> bool {
    exists|j: int| 0 <= j < upto && #[trigger] matches_string(term, strings, j)
}

/// Whether a search for `term` finds the entry: the term matches one of the
/// fields that the search looks at, or, where the search looks at the
/// further texts too, the name or the text of one of them.
pub open spec fn entry_matches(term: regex::Regex, entry: EntryView, search: SearchView) -> bool {
    matches_fields(term, entry, search.fields, search.fields.len() as int) || (search.extra_fields
        && entry.strings is Some && matches_strings(
        term,
        entry.strings->Some_0,
        entry.strings->Some_0.len() as int,
    ))
}

/// `texts`, with `separator` between each two.
pub fn join(texts: &Vec<String>, separator: &str) -> (text: String)
    ensures
        text@ == joined(texts_view(texts@), separator@),
{
    let mut text = String::new();
    let ghost all = texts_view(texts@);
    let mut i: usize = 0;
    while i < texts.len()
        invariant
            i <= texts.len(),
            all == texts_view(texts@),
            text@ == joined(all.subrange(0, i as int), separator@),
        decreases texts.len() - i,
    {
        let ghost before = all.subrange(0, i as int);
        let ghost after = all.subrange(0, i + 1);
        assert(after.drop_last() == before);
        assert(after.last() == texts@[i as int]@);
        if i > 0 {
            text.append(separator);
        } else {
            assert(text@ + texts@[i as int]@ == texts@[i as int]@);
        }
        text.append(texts[i].as_str());
        i = i + 1;
    }
    assert(all.subrange(0, i as int) == all);
    text
}

impl Entry {
    /// The entry as the client sees it in full.
    pub fn from(entry: &db::Entry) -> (seen: Entry)
        ensures
            seen@ == entry_of(*entry),
    {
        let ghost fields = fields_view(entry.fields@);
        let mut strings: Vec<(String, Option<String>)> = Vec::new();
        let mut protected: Vec<String> = Vec::new();
        let mut i: usize = 0;
        while i < entry.fields.len()
            invariant
                i <= entry.fields.len(),
                fields == fields_view(entry.fields@),
                strings_view(strings@) == strings_upto(fields, i as int),
                texts_view(protected@) == protected_upto(fields, i as int),
            decreases entry.fields.len() - i,
        {
            let field = &entry.fields[i];
            assert(fields[i as int] == field@);
            let first = match position(entry, field.name.as_str()) {
                Some(at) => at == i,
                None => false,
            };
            if first {
                match &field.value {
                    db::Value::Bytes(_) => {},
                    db::Value::Unprotected(text) => {
                        if !reserved(field.name.as_str()) {
                            let ghost before = strings_view(strings@);
                            strings.push((field.name.clone(), Some(text.clone())));
                            assert(strings_view(strings@) == before.push(
                                (field.name@, Some(text@)),
                            ));
                        }
                    },
                    db::Value::Protected(_) => {
                        let ghost named = texts_view(protected@);
                        protected.push(field.name.clone());
                        assert(texts_view(protected@) == named.push(field.name@));
                        if !reserved(field.name.as_str()) {
                            let ghost before = strings_view(strings@);
                            strings.push((field.name.clone(), None));
                            assert(strings_view(strings@) == before.push(
                                (field.name@, None::<Seq<char>>),
                            ));
                        }
                    },
                }
            }
            i = i + 1;
        }
        let binary: Vec<String> = Vec::new();
        assert(texts_view(binary@) == Seq::<Seq<char>>::empty());
        Entry {
            id: entry.uuid,
            title: unprotected(entry, "Title"),
            username: unprotected(entry, "UserName"),
            notes: unprotected(entry, "Notes"),
            binary: Some(binary),
            protected: Some(protected),
            tags: Some(clone_strings(&entry.tags)),
            icon: entry.icon_id,
            custom_icon_uuid: entry.custom_icon_uuid,
            url: unprotected(entry, "URL"),
            strings: Some(strings),
        }
    }

    /// The entry as the client sees it in a list.
    pub fn listed(entry: &db::Entry) -> (seen: Entry)
        ensures
            seen@ == listed(*entry),
    {
        Entry {
            id: entry.uuid,
            title: entry.get_title(),
            username: entry.get_username(),
            notes: None,
            binary: None,
            protected: None,
            tags: None,
            icon: entry.icon_id,
            custom_icon_uuid: entry.custom_icon_uuid,
            url: entry.get_url(),
            strings: None,
        }
    }

    /// Whether a search for `term` finds the entry.
    pub fn matches_regex(&self, term: &regex::Regex, config: &Search) -> (r: bool)
        ensures
            r == entry_matches(*term, self@, config@),
    {
        let mut i: usize = 0;
        while i < config.fields.len()
            invariant
                i <= config.fields.len(),
                !matches_fields(*term, self@, config@.fields, i as int),
            decreases config.fields.len() - i,
        {
            let found = match config.fields[i] {
                Field::Title => is_match(term, text_or_empty(&self.title)),
                Field::Username => is_match(term, text_or_empty(&self.username)),
                Field::Tags => match &self.tags {
                    None => is_match(term, text_or_empty(&None)),
                    Some(tags) => is_match(term, join(tags, ";").as_str()),
                },
                Field::Notes => is_match(term, text_or_empty(&self.notes)),
                Field::Url => is_match(term, text_or_empty(&self.url)),
            };
            assert(found == term_matches(*term, search_text(self@, config@.fields[i as int])));
            if found {
                assert(matches_fields(*term, self@, config@.fields, config@.fields.len() as int));
                return true;
            }
            i = i + 1;
        }
        if config.extra_fields {
            match &self.strings {
                Some(strings) => {
                    let ghost all = strings_view(strings@);
                    let mut j: usize = 0;
                    while j < strings.len()
                        invariant
                            j <= strings.len(),
                            all == strings_view(strings@),
                            config.extra_fields,
                            self@.strings == Some(all),
                            !matches_strings(*term, all, j as int),
                        decreases strings.len() - j,
                    {
                        let found = is_match(term, strings[j].0.as_str()) || is_match(
                            term,
                            text_or_empty(&strings[j].1),
                        );
                        assert(found == matches_string(*term, all, j as int));
                        if found {
                            assert(matches_strings(*term, all, all.len() as int));
                            return true;
                        }
                        j = j + 1;
                    }
                },
                None => {},
            }
        }
        false
    }
}

/// The text, or no text.
fn text_or_empty(text: &Option<String>) -> (r: &str)
    ensures
        r@ == or_empty(opt_view(*text)),
{
    match text {
        Some(text) => text.as_str(),
        None => {
            proof {
                reveal_strlit("");
            }
            ""
        },
    }
}

/// The place of the first field called `name`.
fn position(entry: &db::Entry, name: &str) -> (found: Option<usize>)
    ensures
        match found {
            Some(i) => field_at(fields_view(entry.fields@), name@, 0) == Some(i as int),
            None => field_at(fields_view(entry.fields@), name@, 0) is None,
        },
{
    let wanted = name.to_owned();
    let ghost fields = fields_view(entry.fields@);
    let mut i: usize = 0;
    while i < entry.fields.len()
        invariant
            i <= entry.fields.len(),
            wanted@ == name@,
            fields == fields_view(entry.fields@),
            field_at(fields, name@, 0) == field_at(fields, name@, i as int),
        decreases entry.fields.len() - i,
    {
        assert(fields[i as int] == entry.fields@[i as int]@);
        if entry.fields[i].name == wanted {
            return Some(i);
        }
        i = i + 1;
    }
    None
}

/// Whether a field of this name has a place of its own in an entry, or is
/// never shown.
fn reserved(name: &str) -> (r: bool)
    ensures
        r == is_reserved(name@),
{
    str_eq(name, "Password") || str_eq(name, "Title")
        || str_eq(name, "UserName") || str_eq(name, "Notes")
        || str_eq(name, "URL")
}

/// The unprotected text of the first field called `name`.
fn unprotected(entry: &db::Entry, name: &str) -> (text: Option<String>)
    ensures
        opt_view(text) == shown(fields_view(entry.fields@), name@),
{
    match entry.field(name) {
        Some(field) => {
            proof {
                lemma_field_at(fields_view(entry.fields@), name@, 0);
            }
            match &field.value {
                db::Value::Unprotected(text) => Some(text.clone()),
                _ => None,
            }
        },
        None => None,
    }
}

} // verus!
