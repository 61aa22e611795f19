//! The vault as a tree of groups and entries, in plain values.

use vstd::prelude::*;
use vstd::utf8::decode_utf8;
use vstd::utf8::valid_utf8;
use crate::text::opt_view;

verus! {

/// The text that `String::from_utf8_lossy` makes of `bytes`.
pub uninterp spec fn utf8_lossy(bytes: Seq<u8>) -> Seq<char>;

/// `String::from_utf8_lossy`: the text of valid UTF-8 as it is; in anything
/// else, what is no valid UTF-8 is replaced.
#[verifier::external_body]
fn from_utf8_lossy(bytes: &Vec<u8>) -> (text: String)
    ensures
        text@ == utf8_lossy(bytes@),
        valid_utf8(bytes@) ==> text@ == decode_utf8(bytes@),
{
    String::from_utf8_lossy(bytes).into_owned()
}

/// `std::str::from_utf8`: the text that the bytes encode, where they are
/// valid UTF-8.
#[verifier::external_body]
fn from_utf8(bytes: &Vec<u8>) -> (text: Option<String>)
    ensures
        opt_view(text) == strict_text(bytes@),
{
    match std::str::from_utf8(bytes) {
        Ok(text) => Some(text.to_owned()),
        Err(_) => None,
    }
}

/// The text that `bytes` encode, where they are valid UTF-8.
pub open spec fn strict_text(bytes: Seq<u8>) -> Option<Seq<char>> {
    if valid_utf8(bytes) {
        Some(decode_utf8(bytes))
    } else {
        None
    }
}

/// The value of one field of an entry.
#[derive(Debug)]
pub enum Value {
    /// Raw bytes.
    Bytes(Vec<u8>),
    /// Text that may be shown.
    Unprotected(String),
    /// Text that is shown on demand only, as bytes.
    Protected(Vec<u8>),
}

/// What a `Value` holds, as mathematical values.
pub enum ValueView {
    Bytes(Seq<u8>),
    Unprotected(Seq<char>),
    Protected(Seq<u8>),
}

impl View for Value {
    type V = ValueView;

    open spec fn view(&self) -> ValueView {
        match *self {
            Value::Bytes(bytes) => ValueView::Bytes(bytes@),
            Value::Unprotected(text) => ValueView::Unprotected(text@),
            Value::Protected(bytes) => ValueView::Protected(bytes@),
        }
    }
}

impl ValueView {
    /// The value as text, where it is text: unprotected text as it is,
    /// protected text where its bytes are valid UTF-8.
    pub open spec fn text(self) -> Option<Seq<char>> {
        match self {
            ValueView::Bytes(_) => None,
            ValueView::Unprotected(text) => Some(text),
            ValueView::Protected(bytes) => strict_text(bytes),
        }
    }

    /// The value as text, whatever it is: bytes of any kind are converted
    /// with replacement of what is no valid UTF-8.
    pub open spec fn any_text(self) -> Seq<char> {
        match self {
            ValueView::Bytes(bytes) => utf8_lossy(bytes),
            ValueView::Unprotected(text) => text,
            ValueView::Protected(bytes) => utf8_lossy(bytes),
        }
    }
}

impl Value {
    /// The value as text, where it is text.
    pub fn text(&self) -> (text: Option<String>)
        ensures
            opt_view(text) == self@.text(),
    {
        match self {
            Value::Bytes(_) => None,
            Value::Unprotected(text) => Some(text.clone()),
            Value::Protected(bytes) => from_utf8(bytes),
        }
    }

    /// The value as text, whatever it is.
    pub fn any_text(&self) -> (text: String)
        ensures
            text@ == self@.any_text(),
    {
        match self {
            Value::Bytes(bytes) => from_utf8_lossy(bytes),
            Value::Unprotected(text) => text.clone(),
            Value::Protected(bytes) => from_utf8_lossy(bytes),
        }
    }
}

/// One named field of an entry.
#[derive(Debug)]
pub struct Field {
    pub name: String,
    pub value: Value,
}

/// What a `Field` holds, as mathematical values.
pub struct FieldView {
    pub name: Seq<char>,
    pub value: ValueView,
}

impl View for Field {
    type V = FieldView;

    open spec fn view(&self) -> FieldView {
        FieldView { name: self.name@, value: self.value@ }
    }
}

/// The views of a list of fields.
pub open spec fn fields_view(fields: Seq<Field>) -> Seq<FieldView> {
    Seq::new(fields.len(), |i: int| fields[i]@)
}

/// The place of the first field called `name`, from the `from`-th field on.
pub open spec fn field_at(fields: Seq<FieldView>, name: Seq<char>, from: int) -> Option<int>
    decreases fields.len() - from,
{
    if from < 0 || from >= fields.len() {
        None
    } else if fields[from].name == name {
        Some(from)
    } else {
        field_at(fields, name, from + 1)
    }
}

/// Where a field called `name` is found, it is a field, and it is called
/// `name`.
pub proof fn lemma_field_at(fields: Seq<FieldView>, name: Seq<char>, from: int)
    requires
        0 <= from,
    ensures
        field_at(fields, name, from) matches Some(i) ==> from <= i < fields.len() && fields[i].name
            == name,
    decreases fields.len() - from,
{
    if from < fields.len() && fields[from].name != name {
        lemma_field_at(fields, name, from + 1);
    }
}

/// The value of the first field called `name`.
pub open spec fn field_value(fields: Seq<FieldView>, name: Seq<char>) -> Option<ValueView> {
    match field_at(fields, name, 0) {
        Some(i) => Some(fields[i].value),
        None => None,
    }
}

/// The text of the first field called `name`, where that field is text.
pub open spec fn field_text(fields: Seq<FieldView>, name: Seq<char>) -> Option<Seq<char>> {
    match field_value(fields, name) {
        Some(value) => value.text(),
        None => None,
    }
}

/// An entry of the vault.
#[derive(Debug)]
pub struct Entry {
    pub uuid: u128,
    pub fields: Vec<Field>,
    pub tags: Vec<String>,
    pub icon_id: Option<usize>,
    pub custom_icon_uuid: Option<u128>,
}

impl Entry {
    /// The first field called `name`.
    pub fn field(&self, name: &str) -> (found: Option<&Field>)
        ensures
            match found {
                Some(field) => field_at(fields_view(self.fields@), name@, 0) is Some
                    && self.fields@[field_at(fields_view(self.fields@), name@, 0)->Some_0] == *field,
                None => field_at(fields_view(self.fields@), name@, 0) is None,
            },
    {
        let wanted = name.to_owned();
        let ghost fields = fields_view(self.fields@);
        let mut i: usize = 0;
        while i < self.fields.len()
            invariant
                i <= self.fields.len(),
                wanted@ == name@,
                fields == fields_view(self.fields@),
                field_at(fields, name@, 0) == field_at(fields, name@, i as int),
            decreases self.fields.len() - i,
        {
            assert(fields[i as int] == self.fields@[i as int]@);
            if self.fields[i].name == wanted {
                return Some(&self.fields[i]);
            }
            i = i + 1;
        }
        None
    }

    /// The text of the first field called `name`, where that field is text.
    pub fn get(&self, name: &str) -> (text: Option<String>)
        ensures
            opt_view(text) == field_text(fields_view(self.fields@), name@),
    {
        match self.field(name) {
            Some(field) => {
                proof {
                    lemma_field_at(fields_view(self.fields@), name@, 0);
                }
                field.value.text()
            },
            None => None,
        }
    }

    /// The title.
    pub fn get_title(&self) -> (text: Option<String>)
        ensures
            opt_view(text) == field_text(fields_view(self.fields@), "Title"@),
    {
        self.get("Title")
    }

    /// The user's name.
    pub fn get_username(&self) -> (text: Option<String>)
        ensures
            opt_view(text) == field_text(fields_view(self.fields@), "UserName"@),
    {
        self.get("UserName")
    }

    /// The address.
    pub fn get_url(&self) -> (text: Option<String>)
        ensures
            opt_view(text) == field_text(fields_view(self.fields@), "URL"@),
    {
        self.get("URL")
    }
}

/// What a group holds: a group or an entry.
#[derive(Debug)]
pub enum Node {
    Group(Group),
    Entry(Entry),
}

/// A group of the vault, with the groups and entries below it.
#[derive(Debug)]
pub struct Group {
    pub uuid: u128,
    pub name: String,
    pub icon_id: Option<usize>,
    pub custom_icon_uuid: Option<u128>,
    pub children: Vec<Node>,
    pub is_expanded: bool,
}

/// An icon that the vault brings along.
#[derive(Debug)]
pub struct Icon {
    pub uuid: u128,
    pub data: Vec<u8>,
}

impl Clone for Icon {
    fn clone(&self) -> (copy: Self)
        ensures
            copy.uuid == self.uuid,
            copy.data@ == self.data@,
    {
        Icon { uuid: self.uuid, data: self.data.clone() }
    }
}

/// An open vault.
#[derive(Debug)]
pub struct Database {
    /// The group that holds everything.
    pub root: Group,
    /// The group that was selected last.
    pub last_selected_group: Option<u128>,
    /// The icons that the vault brings along.
    pub custom_icons: Vec<Icon>,
}

/// The first group with the id `id` among `group` and the groups below it,
/// parents before children and children in their order.
pub open spec fn find_group(group: Group, id: u128) -> Option<Group>
    decreases group, 1int,
{
    if group.uuid == id {
        Some(group)
    } else {
        find_group_among(group, 0, id)
    }
}

/// The first group with the id `id` among the children of `group` from the
/// `from`-th on, and the groups below them.
pub open spec fn find_group_among(group: Group, from: int, id: u128) -> Option<Group>
    decreases group, 0int, group.children@.len() - from,
{
    if from < 0 || from >= group.children@.len() {
        None
    } else {
        let below = match group.children@[from] {
            Node::Group(child) => find_group(child, id),
            Node::Entry(_) => None,
        };
        if below is Some {
            below
        } else {
            find_group_among(group, from + 1, id)
        }
    }
}

/// The first entry with the id `id` below `group`, in the order in which the
/// tree is walked: the children of a group in their order, and what lies
/// below a child before the next child.
pub open spec fn find_entry(group: Group, id: u128) -> Option<Entry>
    decreases group, 1int,
{
    find_entry_among(group, 0, id)
}

/// The first entry with the id `id` among the children of `group` from the
/// `from`-th on, and below them.
pub open spec fn find_entry_among(group: Group, from: int, id: u128) -> Option<Entry>
    decreases group, 0int, group.children@.len() - from,
{
    if from < 0 || from >= group.children@.len() {
        None
    } else {
        let here = match group.children@[from] {
            Node::Group(child) => find_entry(child, id),
            Node::Entry(entry) => if entry.uuid == id {
                Some(entry)
            } else {
                None
            },
        };
        if here is Some {
            here
        } else {
            find_entry_among(group, from + 1, id)
        }
    }
}

/// The first icon with the id `id`, from the `from`-th icon on.
pub open spec fn find_icon(icons: Seq<Icon>, id: u128, from: int) -> Option<Icon>
    decreases icons.len() - from,
{
    if from < 0 || from >= icons.len() {
        None
    } else if icons[from].uuid == id {
        Some(icons[from])
    } else {
        find_icon(icons, id, from + 1)
    }
}

} // verus!
