//! The open vault: what it is opened with, how it goes into the cache and
//! comes out of it, and what it answers.

use vstd::prelude::*;
use base64::engine::general_purpose;
use base64::Engine;
use crate::auth::is_token;
use crate::auth::DbLogin;
use crate::config::config::Config;
use crate::config::search::Search;
use crate::config::search::SearchView;
use crate::keepass::db;
use crate::keepass::entry::entries_view;
use crate::keepass::entry::entry_matches;
use crate::keepass::entry::entry_of;
use crate::keepass::entry::groups_view;
use crate::keepass::entry::listed;
use crate::keepass::entry::Entry;
use crate::keepass::entry::EntryGroup;
use crate::keepass::entry::EntryGroupView;
use crate::keepass::entry::EntryView;
use crate::keepass::entry::Group;
use crate::keepass::entry::GroupView;
use crate::keepass::encrypted::fits;
use crate::keepass::encrypted::opens_to;
use crate::keepass::encrypted::sealed;
use crate::keepass::encrypted::CryptoError;
use crate::keepass::encrypted::Encrypted;
use crate::keepass::encrypted::LENGTH_IV;
use crate::keepass::encrypted::TAG_LENGTH;
use crate::keepass::encrypted::NONCE_LENGTH;
use crate::keepass::key::SecretBytes;
use crate::keepass::key::SecretKey;
use crate::keepass::key::ID_LENGTH;
use crate::keepass::key::KEY_LENGTH;
use crate::text::clone_opt;
use crate::text::concat;
use crate::text::opt_view;
use crate::text::str_eq;

verus! {

/// `base64::DecodeError`: why a text is no base64. The cause is not looked
/// at.
#[verifier::external_type_specification]
#[verifier::external_body]
pub struct ExDecodeError(base64::DecodeError);

/// The bytes that a text stands for in the standard base64 alphabet with
/// padding, where it stands for any.
pub uninterp spec fn base64_decoded(encoded: Seq<u8>) -> Option<Seq<u8>>;

/// `Engine::decode` of `base64::engine::general_purpose::STANDARD`: the
/// bytes that the text stands for, or an error where it is no base64.
#[verifier::external_body]
fn base64_decode(encoded: &Vec<u8>) -> (r: Result<Vec<u8>, base64::DecodeError>)
    ensures
        match r {
            Ok(bytes) => base64_decoded(encoded@) == Some(bytes@),
            Err(_) => base64_decoded(encoded@) is None,
        },
{
    general_purpose::STANDARD.decode(encoded)
}

/// The key file that came with the request is no base64.
#[derive(Debug, Clone, Copy, PartialEq, Eq, Structural)]
pub struct InvalidKeyfile;

impl InvalidKeyfile {
    /// The error in words.
    pub fn message(&self) -> (text: String)
        ensures
            text@ == "key file is not valid base64"@,
    {
        "key file is not valid base64".to_owned()
    }
}

/// What a vault is opened with.
#[derive(Debug)]
pub struct DbKey {
    /// The bytes of the key file that came with the request.
    pub keyfile: Option<Vec<u8>>,
    /// Whether the vault's backend is to be asked for a key file, because
    /// none came with the request.
    pub ask_backend: bool,
    /// The password.
    pub password: Option<String>,
}

/// What a `DbKey` holds, as mathematical values.
pub struct DbKeyView {
    pub keyfile: Option<Seq<u8>>,
    pub ask_backend: bool,
    pub password: Option<Seq<char>>,
}

impl View for DbKey {
    type V = DbKeyView;

    open spec fn view(&self) -> DbKeyView {
        DbKeyView {
            keyfile: match self.keyfile {
                Some(bytes) => Some(bytes@),
                None => None,
            },
            ask_backend: self.ask_backend,
            password: opt_view(self.password),
        }
    }
}

/// What the request's credentials come to. A key file that came with the
/// request is decoded and used; only where none came is the backend asked
/// for one. The password goes along where there is one.
pub open spec fn db_key(key: Option<Seq<u8>>, password: Option<Seq<char>>) -> Result<
    DbKeyView,
    InvalidKeyfile,
> {
    match key {
        Some(encoded) => match base64_decoded(encoded) {
            Some(bytes) => Ok(DbKeyView { keyfile: Some(bytes), ask_backend: false, password }),
            None => Err(InvalidKeyfile),
        },
        None => Ok(DbKeyView { keyfile: None, ask_backend: true, password }),
    }
}

/// Works out from the request's credentials what the vault is opened with.
pub fn db_key_from_params(params: &DbLogin) -> (r: Result<DbKey, InvalidKeyfile>)
    ensures
        match r {
            Ok(key) => Ok::<DbKeyView, InvalidKeyfile>(key@),
            Err(e) => Err::<DbKeyView, InvalidKeyfile>(e),
        } == db_key(
            match params.key {
                Some(encoded) => Some(encoded@),
                None => None,
            },
            opt_view(params.password),
        ),
{
    let password = clone_opt(&params.password);
    match &params.key {
        Some(encoded) => match base64_decode(encoded) {
            Ok(bytes) => Ok(DbKey { keyfile: Some(bytes), ask_backend: false, password }),
            Err(_) => Err(InvalidKeyfile),
        },
        None => Ok(DbKey { keyfile: None, ask_backend: true, password }),
    }
}

/// `regex::Error`: why a search term does not compile.
#[verifier::external_type_specification]
#[verifier::external_body]
pub struct ExRegexError(regex::Error);

/// The compiled form of a pattern, where the pattern is one.
pub uninterp spec fn compiled(pattern: Seq<char>) -> Option<regex::Regex>;

/// `Regex::new`: the pattern compiled, or an error where the text is no
/// pattern or too large a one.
#[verifier::external_body]
fn regex_new(pattern: &str) -> (r: Result<regex::Regex, regex::Error>)
    ensures
        match r {
            Ok(term) => compiled(pattern@) == Some(term),
            Err(_) => compiled(pattern@) is None,
        },
{
    regex::Regex::new(pattern)
}

/// The text of a `regex::Error`, as its `Display` gives it.
#[verifier::external_body]
fn regex_error_text(error: &regex::Error) -> String {
    error.to_string()
}

/// Whether `c` means something in a pattern.
pub open spec fn is_meta_character(c: char) -> bool {
    c == '\\' || c == '.' || c == '+' || c == '*' || c == '?' || c == '(' || c == ')' || c == '|'
        || c == '[' || c == ']' || c == '{' || c == '}' || c == '^' || c == '$' || c == '#' || c
        == '&' || c == '-' || c == '~'
}

/// `text` as a pattern that matches just that text: a backslash stands
/// before every character that means something in a pattern.
pub open spec fn escaped_pattern(text: Seq<char>) -> Seq<char>
    decreases text.len(),
{
    if text.len() == 0 {
        Seq::empty()
    } else if is_meta_character(text.last()) {
        escaped_pattern(text.drop_last()) + seq!['\\', text.last()]
    } else {
        escaped_pattern(text.drop_last()) + seq![text.last()]
    }
}

/// `regex::escape`: the text with a backslash before every character that
/// means something in a pattern.
#[verifier::external_body]
fn regex_escape(text: &str) -> (pattern: String)
    ensures
        pattern@ == escaped_pattern(text@),
{
    regex::escape(text)
}

/// The id of a group, an entry or an icon.
#[derive(Debug)]
pub struct Id {
    pub id: u128,
}

/// A protected field of an entry.
#[derive(Debug)]
pub struct Protected {
    pub entry_id: u128,
    pub name: String,
}

/// A file that an entry holds.
#[derive(Debug)]
pub struct File {
    pub entry_id: u128,
    pub filename: String,
}

/// Why the vault does not give what it was asked for.
#[derive(Debug)]
pub enum VaultError {
    GroupNotFound,
    EntryNotFound,
    NotProtected,
    FieldNotFound,
    OtpNotFound,
    FileNotFound,
    IconNotFound,
    /// The search term is no pattern; the words are those of the pattern
    /// compiler.
    InvalidPattern { message: String },
}

/// What a `VaultError` holds, as mathematical values.
pub enum VaultErrorView {
    GroupNotFound,
    EntryNotFound,
    NotProtected,
    FieldNotFound,
    OtpNotFound,
    FileNotFound,
    IconNotFound,
    InvalidPattern { message: Seq<char> },
}

impl View for VaultError {
    type V = VaultErrorView;

    open spec fn view(&self) -> VaultErrorView {
        match *self {
            VaultError::GroupNotFound => VaultErrorView::GroupNotFound,
            VaultError::EntryNotFound => VaultErrorView::EntryNotFound,
            VaultError::NotProtected => VaultErrorView::NotProtected,
            VaultError::FieldNotFound => VaultErrorView::FieldNotFound,
            VaultError::OtpNotFound => VaultErrorView::OtpNotFound,
            VaultError::FileNotFound => VaultErrorView::FileNotFound,
            VaultError::IconNotFound => VaultErrorView::IconNotFound,
            VaultError::InvalidPattern { message } => VaultErrorView::InvalidPattern {
                message: message@,
            },
        }
    }
}

impl VaultErrorView {
    /// The error in words.
    pub open spec fn message(self) -> Seq<char> {
        match self {
            VaultErrorView::GroupNotFound => "group not found"@,
            VaultErrorView::EntryNotFound => "entry not found"@,
            VaultErrorView::NotProtected => "not a protected field"@,
            VaultErrorView::FieldNotFound => "field not found"@,
            VaultErrorView::OtpNotFound => "otp not found"@,
            VaultErrorView::FileNotFound => "file not found"@,
            VaultErrorView::IconNotFound => "icon not found"@,
            VaultErrorView::InvalidPattern { message } => message,
        }
    }
}

impl VaultError {
    /// The error in words.
    pub fn message(&self) -> (text: String)
        ensures
            text@ == self@.message(),
    {
        match self {
            VaultError::GroupNotFound => "group not found".to_owned(),
            VaultError::EntryNotFound => "entry not found".to_owned(),
            VaultError::NotProtected => "not a protected field".to_owned(),
            VaultError::FieldNotFound => "field not found".to_owned(),
            VaultError::OtpNotFound => "otp not found".to_owned(),
            VaultError::FileNotFound => "file not found".to_owned(),
            VaultError::IconNotFound => "icon not found".to_owned(),
            VaultError::InvalidPattern { message } => message.clone(),
        }
    }
}

/// The groups of the vault from `group` down, as the client sees them.
pub open spec fn groups_of(group: db::Group) -> GroupView
    decreases group, 1int,
{
    GroupView {
        id: group.uuid,
        title: group.name@,
        icon: group.icon_id,
        custom_icon_uuid: None,
        children: groups_below(group, group.children@.len() as int),
        expanded: group.is_expanded,
    }
}

/// The groups among the first `upto` children of `group`, in their order,
/// each with the groups below it.
pub open spec fn groups_below(group: db::Group, upto: int) -> Seq<GroupView>
    decreases group, 0int, upto,
{
    if upto <= 0 || upto > group.children@.len() {
        Seq::empty()
    } else {
        let before = groups_below(group, upto - 1);
        match group.children@[upto - 1] {
            db::Node::Group(child) => before.push(groups_of(child)),
            db::Node::Entry(_) => before,
        }
    }
}

/// The entries among the first `upto` children of `group`, in their order,
/// as the client sees them in a list.
pub open spec fn listed_below(group: db::Group, upto: int) -> Seq<EntryView>
    decreases upto,
{
    if upto <= 0 || upto > group.children@.len() {
        Seq::empty()
    } else {
        let before = listed_below(group, upto - 1);
        match group.children@[upto - 1] {
            db::Node::Group(_) => before,
            db::Node::Entry(entry) => before.push(listed(entry)),
        }
    }
}

/// The entries below `group` that a search for `term` finds, in the order in
/// which the tree is walked.
pub open spec fn found_in(group: db::Group, term: regex::Regex, search: SearchView) -> Seq<
    EntryView,
>
    decreases group, 1int,
{
    found_below(group, group.children@.len() as int, term, search)
}

/// The entries among the first `upto` children of `group` and below them
/// that a search for `term` finds.
pub open spec fn found_below(
    group: db::Group,
    upto: int,
    term: regex::Regex,
    search: SearchView,
) -> Seq<EntryView>
    decreases group, 0int, upto,
{
    if upto <= 0 || upto > group.children@.len() {
        Seq::empty()
    } else {
        let before = found_below(group, upto - 1, term, search);
        match group.children@[upto - 1] {
            db::Node::Group(child) => before + found_in(child, term, search),
            db::Node::Entry(entry) => if entry_matches(term, entry_of(entry), search) {
                before.push(entry_of(entry))
            } else {
                before
            },
        }
    }
}

/// The pattern that a search for `term` compiles: the term itself where the
/// search takes patterns, the term as a literal where not; either way
/// without regard to case.
pub open spec fn search_pattern(search: SearchView, term: Seq<char>) -> Seq<char> {
    if search.allow_regex {
        "(?i)"@ + term
    } else {
        "(?i)"@ + escaped_pattern(term)
    }
}

/// The number of the icon that stands for a search.
pub const SEARCH_ICON: usize = 40;

/// An open vault, with the way it is searched.
pub struct KeePass {
    config: Search,
    db: db::Database,
}

impl KeePass {
    /// The vault `db`, searched as `config` says.
    pub fn new(config: &Config, db: db::Database) -> (vault: Self)
        ensures
            vault.search() == config.search@,
            vault.database() == db,
    {
        KeePass { config: config.search.clone(), db }
    }

    /// The way the vault is searched.
    pub closed spec fn search(&self) -> SearchView {
        self.config@
    }

    /// The vault itself.
    pub closed spec fn database(&self) -> db::Database {
        self.db
    }

    /// Decrypts a vault's blob with `key`, into the vault's serialized form.
    /// No associated data is bound to the blob.
    ///
    /// What `to_enc` made of a serialized vault comes back as that under the
    /// key that `to_enc` returned.
    pub fn from_enc(key: SecretKey, enc: Encrypted) -> (r: Result<SecretBytes, CryptoError>)
        ensures
            forall|db: Seq<u8>|
                key@.data.len() == KEY_LENGTH && enc@.iv.len() == NONCE_LENGTH && fits(db.len(), 0)
                    && #[trigger] sealed(key@.data, enc@.iv, Seq::<u8>::empty(), db) == enc@.data
                    ==> r is Ok && r->Ok_0@ == db,
            r matches Ok(vault) ==> opens_to(
                key@.data,
                enc@.iv,
                Seq::<u8>::empty(),
                enc@.data,
                vault@,
            ),
            r matches Err(e) ==> e == (if key@.data.len() != KEY_LENGTH {
                CryptoError::KeyLength
            } else if enc@.iv.len() != NONCE_LENGTH {
                CryptoError::NonceLength
            } else {
                CryptoError::Rejected
            }),
    {
        let aad: Vec<u8> = Vec::new();
        assert(aad@ =~= Seq::<u8>::empty());
        enc.decrypt(key, aad.as_slice())
    }

    /// Encrypts a vault's serialized form under a fresh key, into a blob
    /// that expires after the time that `config` gives to vaults, counted
    /// from `now`. No associated data is bound to the blob.
    pub fn to_enc(config: &Config, serialized: Vec<u8>, now: u64) -> (r: Result<
        (SecretKey, Encrypted),
        CryptoError,
    >)
        requires
            now + config.db_session_timeout <= u64::MAX,
        ensures
            r is Ok <==> fits(serialized@.len(), 0),
            r is Err ==> r == Err::<(SecretKey, Encrypted), CryptoError>(CryptoError::TooLong),
            r matches Ok((key, enc)) ==> {
                &&& is_token(key@.key_id, ID_LENGTH as nat)
                &&& key@.timeout == 0
                &&& key@.data.len() == KEY_LENGTH
                &&& enc@.iv.len() == NONCE_LENGTH
                &&& enc@.expiry == now + config.db_session_timeout
                &&& enc@.data == sealed(key@.data, enc@.iv, Seq::<u8>::empty(), serialized@)
                &&& enc@.data.len() == serialized@.len() + LENGTH_IV + TAG_LENGTH
            },
    {
        let aad: Vec<u8> = Vec::new();
        assert(aad@ =~= Seq::<u8>::empty());
        Encrypted::encrypt(serialized, aad.as_slice(), now, config.db_session_timeout)
    }

    /// The tree of groups, and the group that was selected last, as far as
    /// it still exists.
    pub fn get_groups(&self) -> (r: (Group, Option<u128>))
        ensures
            r.0@ == groups_of(self.database().root),
            r.1 == (match self.database().last_selected_group {
                Some(id) => if db::find_group(self.database().root, id) is Some {
                    Some(id)
                } else {
                    None
                },
                None => None,
            }),
    {
        let last_selected = match self.db.last_selected_group {
            Some(id) => if Self::find_group_by_id(&self.db.root, id).is_some() {
                Some(id)
            } else {
                None
            },
            None => None,
        };
        (Self::find_all_groups(&self.db.root), last_selected)
    }

    /// The entries of the group `params.id`, as a list.
    pub fn get_group_entries(&self, params: &Id) -> (r: Result<EntryGroup, VaultError>)
        ensures
            match db::find_group(self.database().root, params.id) {
                Some(group) => r is Ok && r->Ok_0@ == (EntryGroupView {
                    title: group.name@,
                    icon: group.icon_id,
                    custom_icon_uuid: group.custom_icon_uuid,
                    entries: listed_below(group, group.children@.len() as int),
                }),
                None => r is Err && r->Err_0@ == VaultErrorView::GroupNotFound,
            },
    {
        let group = match Self::find_group_by_id(&self.db.root, params.id) {
            Some(group) => group,
            None => return Err(VaultError::GroupNotFound),
        };
        let mut entries: Vec<Entry> = Vec::new();
        let mut i: usize = 0;
        while i < group.children.len()
            invariant
                i <= group.children.len(),
                entries_view(entries@) == listed_below(*group, i as int),
            decreases group.children.len() - i,
        {
            match &group.children[i] {
                db::Node::Entry(entry) => {
                    let ghost before = entries_view(entries@);
                    let seen = Entry::listed(entry);
                    entries.push(seen);
                    assert(entries_view(entries@) == before.push(listed(*entry)));
                },
                db::Node::Group(_) => {},
            }
            i = i + 1;
        }
        Ok(
            EntryGroup {
                title: group.name.clone(),
                entries,
                icon: group.icon_id,
                custom_icon_uuid: group.custom_icon_uuid,
            },
        )
    }

    /// The entry `params.id`, in full.
    pub fn get_entry(&self, params: &Id) -> (r: Result<Entry, VaultError>)
        ensures
            match db::find_entry(self.database().root, params.id) {
                Some(entry) => r is Ok && r->Ok_0@ == entry_of(entry),
                None => r is Err && r->Err_0@ == VaultErrorView::EntryNotFound,
            },
    {
        match Self::find_entry_by_id(&self.db.root, params.id) {
            Some(entry) => Ok(Entry::from(entry)),
            None => Err(VaultError::EntryNotFound),
        }
    }

    /// The name of the field that a request for the protected field `name`
    /// means: `password` stands for the password field.
    pub open spec fn protected_name(name: Seq<char>) -> Seq<char> {
        if name == "password"@ {
            "Password"@
        } else {
            name
        }
    }

    /// The text of the protected field `params.name` of the entry
    /// `params.entry_id`, in bytes.
    pub fn get_protected(&self, params: &Protected) -> (r: Result<SecretBytes, VaultError>)
        ensures
            match db::find_entry(self.database().root, params.entry_id) {
                None => r is Err && r->Err_0@ == VaultErrorView::EntryNotFound,
                Some(entry) => match db::field_value(
                    db::fields_view(entry.fields@),
                    Self::protected_name(params.name@),
                ) {
                    None => r is Err && r->Err_0@ == VaultErrorView::FieldNotFound,
                    Some(db::ValueView::Protected(bytes)) => r is Ok && r->Ok_0@
                        == vstd::utf8::encode_utf8(db::utf8_lossy(bytes)),
                    Some(_) => r is Err && r->Err_0@ == VaultErrorView::NotProtected,
                },
            },
    {
        let entry = match Self::find_entry_by_id(&self.db.root, params.entry_id) {
            Some(entry) => entry,
            None => return Err(VaultError::EntryNotFound),
        };
        let field = if str_eq(params.name.as_str(), "password") {
            entry.field("Password")
        } else {
            entry.field(params.name.as_str())
        };
        proof {
            db::lemma_field_at(
                db::fields_view(entry.fields@),
                Self::protected_name(params.name@),
                0,
            );
        }
        match field {
            Some(field) => match &field.value {
                db::Value::Protected(_) => Ok(
                    SecretBytes::new(field.value.any_text().as_str().as_bytes_vec()),
                ),
                _ => Err(VaultError::NotProtected),
            },
            None => Err(VaultError::FieldNotFound),
        }
    }

    /// The address that describes the one-time passwords of the entry
    /// `params.id`: the text of its field `otp`, whatever kind of value it
    /// is.
    pub fn get_otp(&self, params: &Id) -> (r: Result<String, VaultError>)
        ensures
            match db::find_entry(self.database().root, params.id) {
                None => r is Err && r->Err_0@ == VaultErrorView::EntryNotFound,
                Some(entry) => match db::field_value(db::fields_view(entry.fields@), "otp"@) {
                    None => r is Err && r->Err_0@ == VaultErrorView::OtpNotFound,
                    Some(value) => r is Ok && r->Ok_0@ == value.any_text(),
                },
            },
    {
        let entry = match Self::find_entry_by_id(&self.db.root, params.id) {
            Some(entry) => entry,
            None => return Err(VaultError::EntryNotFound),
        };
        proof {
            db::lemma_field_at(db::fields_view(entry.fields@), "otp"@, 0);
        }
        match entry.field("otp") {
            Some(field) => Ok(field.value.any_text()),
            None => Err(VaultError::OtpNotFound),
        }
    }

    /// The file `params.filename` of the entry `params.entry_id`. Entries
    /// hold no files yet: an entry that exists has none.
    pub fn get_file(&self, params: &File) -> (r: Result<Vec<u8>, VaultError>)
        ensures
            r is Err,
            r->Err_0@ == (if db::find_entry(self.database().root, params.entry_id) is Some {
                VaultErrorView::FileNotFound
            } else {
                VaultErrorView::EntryNotFound
            }),
    {
        match Self::find_entry_by_id(&self.db.root, params.entry_id) {
            Some(_) => Err(VaultError::FileNotFound),
            None => Err(VaultError::EntryNotFound),
        }
    }

    /// The entries that a search for `params.term` finds, under a title
    /// that names the term.
    pub fn search_entries(&self, params: &SearchTerm) -> (r: Result<EntryGroup, VaultError>)
        ensures
            match compiled(search_pattern(self.search(), params.term@)) {
                Some(term) => r is Ok && r->Ok_0@ == (EntryGroupView {
                    title: "Search results for '"@ + params.term@ + "'"@,
                    icon: Some(SEARCH_ICON),
                    custom_icon_uuid: None,
                    entries: found_in(self.database().root, term, self.search()),
                }),
                None => r is Err && r->Err_0@ is InvalidPattern,
            },
    {
        let pattern = if self.config.allow_regex {
            concat("(?i)", params.term.as_str())
        } else {
            concat("(?i)", regex_escape(params.term.as_str()).as_str())
        };
        let rgx = match regex_new(pattern.as_str()) {
            Ok(rgx) => rgx,
            Err(e) => return Err(VaultError::InvalidPattern { message: regex_error_text(&e) }),
        };
        let entries = Self::find_entries_by_string(&self.db.root, &rgx, &self.config);
        let mut title = concat("Search results for '", params.term.as_str());
        title.append("'");
        Ok(EntryGroup { title, entries, icon: Some(SEARCH_ICON), custom_icon_uuid: None })
    }

    /// The icon `params.id`.
    pub fn get_icon(&self, params: &Id) -> (r: Result<db::Icon, VaultError>)
        ensures
            match db::find_icon(self.database().custom_icons@, params.id, 0) {
                Some(icon) => r is Ok && r->Ok_0.uuid == icon.uuid && r->Ok_0.data@ == icon.data@,
                None => r is Err && r->Err_0@ == VaultErrorView::IconNotFound,
            },
    {
        let mut i: usize = 0;
        while i < self.db.custom_icons.len()
            invariant
                i <= self.db.custom_icons.len(),
                db::find_icon(self.db.custom_icons@, params.id, 0) == db::find_icon(
                    self.db.custom_icons@,
                    params.id,
                    i as int,
                ),
            decreases self.db.custom_icons.len() - i,
        {
            if self.db.custom_icons[i].uuid == params.id {
                return Ok(self.db.custom_icons[i].clone());
            }
            i = i + 1;
        }
        Err(VaultError::IconNotFound)
    }

    /// The groups from `group` down, as the client sees them.
    pub fn find_all_groups(group: &db::Group) -> (seen: Group)
        ensures
            seen@ == groups_of(*group),
        decreases group,
    {
        let mut children: Vec<Group> = Vec::new();
        let mut i: usize = 0;
        while i < group.children.len()
            invariant
                i <= group.children.len(),
                groups_view(children@) == groups_below(*group, i as int),
            decreases group.children.len() - i,
        {
            match &group.children[i] {
                db::Node::Group(child) => {
                    let ghost before = groups_view(children@);
                    let seen = Self::find_all_groups(child);
                    children.push(seen);
                    assert(groups_view(children@) == before.push(groups_of(*child)));
                },
                db::Node::Entry(_) => {},
            }
            i = i + 1;
        }
        let seen = Group {
            id: group.uuid,
            title: group.name.clone(),
            icon: group.icon_id,
            custom_icon_uuid: None,
            children,
            expanded: group.is_expanded,
        };
        assert(seen@.children == groups_view(seen.children@));
        seen
    }

    /// The first group with the id `id` among `group` and the groups below
    /// it.
    pub fn find_group_by_id<'a>(group: &'a db::Group, id: u128) -> (found: Option<&'a db::Group>)
        ensures
            match found {
                Some(g) => db::find_group(*group, id) == Some(*g),
                None => db::find_group(*group, id) is None,
            },
        decreases group,
    {
        if group.uuid == id {
            return Some(group);
        }
        let mut i: usize = 0;
        while i < group.children.len()
            invariant
                i <= group.children.len(),
                group.uuid != id,
                db::find_group(*group, id) == db::find_group_among(*group, i as int, id),
            decreases group.children.len() - i,
        {
            match &group.children[i] {
                db::Node::Group(child) => {
                    let found = Self::find_group_by_id(child, id);
                    if found.is_some() {
                        return found;
                    }
                },
                db::Node::Entry(_) => {},
            }
            i = i + 1;
        }
        None
    }

    /// The first entry with the id `id` below `group`.
    pub fn find_entry_by_id<'a>(group: &'a db::Group, id: u128) -> (found: Option<&'a db::Entry>)
        ensures
            match found {
                Some(e) => db::find_entry(*group, id) == Some(*e),
                None => db::find_entry(*group, id) is None,
            },
        decreases group,
    {
        let mut i: usize = 0;
        while i < group.children.len()
            invariant
                i <= group.children.len(),
                db::find_entry(*group, id) == db::find_entry_among(*group, i as int, id),
            decreases group.children.len() - i,
        {
            match &group.children[i] {
                db::Node::Group(child) => {
                    let found = Self::find_entry_by_id(child, id);
                    if found.is_some() {
                        return found;
                    }
                },
                db::Node::Entry(entry) => {
                    if entry.uuid == id {
                        return Some(entry);
                    }
                },
            }
            i = i + 1;
        }
        None
    }

    /// The entries below `group` that a search for `term` finds, as the
    /// client sees them in full.
    pub fn find_entries_by_string(group: &db::Group, term: &regex::Regex, config: &Search) -> (found:
        Vec<Entry>)
        ensures
            entries_view(found@) == found_in(*group, *term, config@),
        decreases group,
    {
        let mut entries: Vec<Entry> = Vec::new();
        let mut i: usize = 0;
        while i < group.children.len()
            invariant
                i <= group.children.len(),
                entries_view(entries@) == found_below(*group, i as int, *term, config@),
            decreases group.children.len() - i,
        {
            let ghost before = entries_view(entries@);
            match &group.children[i] {
                db::Node::Group(child) => {
                    let mut below = Self::find_entries_by_string(child, term, config);
                    let ghost more = entries_view(below@);
                    entries.append(&mut below);
                    assert(entries_view(entries@) == before + more);
                },
                db::Node::Entry(entry) => {
                    let seen = Entry::from(entry);
                    if seen.matches_regex(term, config) {
                        entries.push(seen);
                        assert(entries_view(entries@) == before.push(entry_of(*entry)));
                    }
                },
            }
            i = i + 1;
        }
        entries
    }
}

/// What a search asks for.
#[derive(Debug)]
pub struct SearchTerm {
    pub term: String,
}

/// A one-time password and the seconds for which it still holds.
#[derive(Debug)]
pub struct Totp {
    pub token: String,
    pub ttl: u64,
}

} // verus!
