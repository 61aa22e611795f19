use vstd::prelude::*;
use crate::auth_backend::login_view;
use crate::auth_backend::AuthError;
use crate::auth_backend::AuthErrorView;
use crate::auth_backend::LoginType;
use crate::auth_backend::LoginTypeView;
use crate::auth_backend::UserInfo;
use crate::auth_backend::UserInfoView;
use crate::config::config::Config;
use crate::config::ldap::LdapView;
use crate::config::ldap::Scope;
use crate::text::concat;
use crate::text::opt_view;
use crate::text::texts_view;

verus! {

/// The attribute that holds a user's display name.
pub const CN_ATTR: &'static str = "CN";

/// Whether `c` must not stand as itself in a filter literal.
pub open spec fn needs_escape(c: char) -> bool {
    c == '\\' || c == '*' || c == '(' || c == ')' || c == '\0'
}

/// What stands for `c` in a filter literal: the character itself, or a
/// backslash and its two hexadecimal digits.
pub open spec fn escape_char(c: char) -> Seq<char> {
    if c == '\\' {
        seq!['\\', '5', 'c']
    } else if c == '*' {
        seq!['\\', '2', 'a']
    } else if c == '(' {
        seq!['\\', '2', '8']
    } else if c == ')' {
        seq!['\\', '2', '9']
    } else if c == '\0' {
        seq!['\\', '0', '0']
    } else {
        seq![c]
    }
}

/// `text` as a filter literal.
pub open spec fn escaped(text: Seq<char>) -> Seq<char>
    decreases text.len(),
{
    if text.len() == 0 {
        Seq::<char>::empty()
    } else {
        escaped(text.drop_last()) + escape_char(text.last())
    }
}

/// `ldap3::ldap_escape`: the text with each backslash, asterisk, parenthesis
/// and NUL replaced by a backslash and the character's two hexadecimal
/// digits, and everything else as it was.
#[verifier::external_body]
fn ldap_escape(text: &str) -> (literal: String)
    ensures
        literal@ == escaped(text@),
{
    ldap3::ldap_escape(text).into_owned()
}

/// A filter literal holds no asterisk, parenthesis or NUL: whatever the
/// text, it cannot end the comparison that it stands in, nor open another.
pub proof fn lemma_escaped_is_inert(text: Seq<char>)
    ensures
        forall|i: int|
            0 <= i < escaped(text).len() ==> {
                let c = #[trigger] escaped(text)[i];
                c != '*' && c != '(' && c != ')' && c != '\0'
            },
    decreases text.len(),
{
    if text.len() > 0 {
        lemma_escaped_is_inert(text.drop_last());
        let head = escaped(text.drop_last());
        let tail = escape_char(text.last());
        assert forall|i: int| 0 <= i < escaped(text).len() implies {
            let c = #[trigger] escaped(text)[i];
            c != '*' && c != '(' && c != ')' && c != '\0'
        } by {
            if i < head.len() {
                assert(escaped(text)[i] == head[i]);
            } else {
                assert(escaped(text)[i] == tail[i - head.len()]);
            }
        }
    }
}

/// The lower-case form of a text, as `str::to_lowercase` gives it.
pub uninterp spec fn lowercased(text: Seq<char>) -> Seq<char>;

/// `str::to_lowercase`.
#[verifier::external_body]
fn to_lowercase(text: &str) -> (lower: String)
    ensures
        lower@ == lowercased(text@),
{
    text.to_lowercase()
}

/// One attribute of a directory entry, with its values.
#[derive(Debug)]
pub struct Attribute {
    pub name: String,
    pub values: Vec<String>,
}

/// A directory entry as a search hands it out.
#[derive(Debug)]
pub struct DirectoryEntry {
    pub dn: String,
    pub attrs: Vec<Attribute>,
}

/// What a `Attribute` holds, as mathematical values.
pub struct AttributeView {
    pub name: Seq<char>,
    pub values: Seq<Seq<char>>,
}

/// What a `DirectoryEntry` holds, as mathematical values.
pub struct DirectoryEntryView {
    pub dn: Seq<char>,
    pub attrs: Seq<AttributeView>,
}

impl View for Attribute {
    type V = AttributeView;

    open spec fn view(&self) -> AttributeView {
        AttributeView { name: self.name@, values: texts_view(self.values@) }
    }
}

impl View for DirectoryEntry {
    type V = DirectoryEntryView;

    open spec fn view(&self) -> DirectoryEntryView {
        DirectoryEntryView {
            dn: self.dn@,
            attrs: Seq::new(self.attrs@.len(), |i: int| self.attrs@[i]@),
        }
    }
}

/// The first value of the first attribute called `name`, where there is such
/// an attribute and it has a value.
pub open spec fn first_value(attrs: Seq<AttributeView>, name: Seq<char>) -> Option<Seq<char>>
    decreases attrs.len(),
{
    if attrs.len() == 0 {
        None
    } else if attrs.first().name == name {
        if attrs.first().values.len() > 0 {
            Some(attrs.first().values.first())
        } else {
            None
        }
    } else {
        first_value(attrs.drop_first(), name)
    }
}

/// The value that an optional attribute has in the entry.
pub open spec fn optional_value(attrs: Seq<AttributeView>, name: Option<Seq<char>>) -> Option<
    Seq<char>,
> {
    match name {
        Some(name) => first_value(attrs, name),
        None => None,
    }
}

/// The identity that a directory entry stands for: the id is the lower-case
/// form of the login attribute, the display name is the common name, and the
/// places of vault and key file are what the configured attributes hold, if
/// anything. An entry without a common name or without the login attribute
/// stands for nobody.
pub open spec fn directory_identity(config: LdapView, entry: DirectoryEntryView) -> Result<
    UserInfoView,
    AuthErrorView,
> {
    match first_value(entry.attrs, CN_ATTR@) {
        None => Err(AuthErrorView::CnAttributeMissing),
        Some(cn) => match first_value(entry.attrs, config.login_attribute) {
            None => Err(
                AuthErrorView::LoginAttributeMissing { attribute: config.login_attribute },
            ),
            Some(id) => Ok(
                UserInfoView {
                    id: lowercased(id),
                    name: cn,
                    db_location: optional_value(entry.attrs, config.database_attribute),
                    keyfile_location: optional_value(entry.attrs, config.keyfile_attribute),
                    additional_data: None,
                },
            ),
        },
    }
}

/// The filter that finds the user `username`.
pub open spec fn search_filter(config: LdapView, username: Seq<char>) -> Seq<char> {
    "(&("@ + escaped(config.login_attribute) + "="@ + escaped(username) + ")"@ + config.filter
        + ")"@
}

/// The attributes that a search asks for: the common name, then the
/// configured attributes of vault and key file, as far as there are any.
pub open spec fn search_attrs(config: LdapView) -> Seq<Seq<char>> {
    seq![CN_ATTR@] + (match config.database_attribute {
        Some(name) => seq![name],
        None => Seq::<Seq<char>>::empty(),
    }) + (match config.keyfile_attribute {
        Some(name) => seq![name],
        None => Seq::<Seq<char>>::empty(),
    })
}

impl DirectoryEntry {
    /// The first value of the first attribute called `name`.
    pub fn first_value(&self, name: &str) -> (value: Option<String>)
        ensures
            opt_view(value) == first_value(self@.attrs, name@),
    {
        let wanted = name.to_owned();
        let mut i: usize = 0;
        assert(self@.attrs.skip(0) == self@.attrs);
        while i < self.attrs.len()
            invariant
                i <= self.attrs.len(),
                wanted@ == name@,
                first_value(self@.attrs, name@) == first_value(self@.attrs.skip(i as int), name@),
            decreases self.attrs.len() - i,
        {
            let ghost rest = self@.attrs.skip(i as int);
            assert(rest.first() == self.attrs@[i as int]@);
            assert(rest.drop_first() == self@.attrs.skip(i + 1));
            if self.attrs[i].name == wanted {
                if self.attrs[i].values.len() > 0 {
                    assert(rest.first().values.first() == self.attrs@[i as int].values@[0]@);
                    return Some(self.attrs[i].values[0].clone());
                }
                return None;
            }
            i = i + 1;
        }
        None
    }

    /// The value that an optional attribute has in the entry.
    pub fn optional_value(&self, name: &Option<String>) -> (value: Option<String>)
        ensures
            opt_view(value) == optional_value(self@.attrs, opt_view(*name)),
    {
        match name {
            Some(name) => self.first_value(name.as_str()),
            None => None,
        }
    }
}

/// What the directory is to be asked next, or how the login ended.
#[derive(Debug)]
pub enum LdapAction {
    /// Connect and bind as the service account.
    ServiceBind { uri: String, dn: String, password: String },
    /// Search for the user's entry.
    Search { base_dn: String, scope: Scope, filter: String, attrs: Vec<String> },
    /// Unbind.
    Unbind,
    /// Bind as the user that the search found.
    UserBind { dn: String, password: String },
    /// The login is over.
    Done(Result<UserInfo, AuthError>),
}

/// What a `LdapAction` holds, as mathematical values.
pub enum LdapActionView {
    ServiceBind { uri: Seq<char>, dn: Seq<char>, password: Seq<char> },
    Search { base_dn: Seq<char>, scope: Scope, filter: Seq<char>, attrs: Seq<Seq<char>> },
    Unbind,
    UserBind { dn: Seq<char>, password: Seq<char> },
    Done(Result<UserInfoView, AuthErrorView>),
}

impl View for LdapAction {
    type V = LdapActionView;

    open spec fn view(&self) -> LdapActionView {
        match *self {
            LdapAction::ServiceBind { uri, dn, password } => LdapActionView::ServiceBind {
                uri: uri@,
                dn: dn@,
                password: password@,
            },
            LdapAction::Search { base_dn, scope, filter, attrs } => LdapActionView::Search {
                base_dn: base_dn@,
                scope: scope,
                filter: filter@,
                attrs: texts_view(attrs@),
            },
            LdapAction::Unbind => LdapActionView::Unbind,
            LdapAction::UserBind { dn, password } => LdapActionView::UserBind {
                dn: dn@,
                password: password@,
            },
            LdapAction::Done(outcome) => LdapActionView::Done(login_view(outcome)),
        }
    }
}

/// What the directory said to the last thing it was asked.
#[derive(Debug)]
pub enum LdapEvent {
    /// Nothing was asked yet.
    Begin,
    /// The bind went through, or did not.
    Bound { ok: bool },
    /// The search came back with these entries, or failed.
    Found { entries: Option<Vec<DirectoryEntry>> },
    /// The unbind went through, or did not.
    Unbound { ok: bool },
}

/// What a `LdapEvent` holds, as mathematical values.
pub enum LdapEventView {
    Begin,
    Bound { ok: bool },
    Found { entries: Option<Seq<DirectoryEntryView>> },
    Unbound { ok: bool },
}

impl View for LdapEvent {
    type V = LdapEventView;

    open spec fn view(&self) -> LdapEventView {
        match *self {
            LdapEvent::Begin => LdapEventView::Begin,
            LdapEvent::Bound { ok } => LdapEventView::Bound { ok },
            LdapEvent::Found { entries } => LdapEventView::Found {
                entries: match entries {
                    Some(list) => Some(Seq::new(list@.len(), |i: int| list@[i]@)),
                    None => None,
                },
            },
            LdapEvent::Unbound { ok } => LdapEventView::Unbound { ok },
        }
    }
}

/// How far a login has come.
#[derive(Debug, Clone, Copy, PartialEq, Eq, Structural)]
pub enum LdapStage {
    /// Nothing was asked yet.
    Start,
    /// The service account's bind is under way.
    ServiceBinding,
    /// The search is under way.
    Searching,
    /// The service account's unbind is under way.
    Releasing,
    /// The user's bind is under way.
    UserBinding,
    /// The user's unbind is under way.
    Leaving,
    /// The login is over.
    Finished,
}

/// A login in progress.
#[derive(Debug)]
pub struct LdapLogin {
    pub stage: LdapStage,
    pub username: String,
    pub password: String,
    /// The entry that the search found first.
    pub entry: Option<DirectoryEntry>,
}

/// What a `LdapLogin` holds, as mathematical values.
pub struct LdapLoginView {
    pub stage: LdapStage,
    pub username: Seq<char>,
    pub password: Seq<char>,
    pub entry: Option<DirectoryEntryView>,
}

impl View for LdapLogin {
    type V = LdapLoginView;

    open spec fn view(&self) -> LdapLoginView {
        LdapLoginView {
            stage: self.stage,
            username: self.username@,
            password: self.password@,
            entry: match self.entry {
                Some(entry) => Some(entry@),
                None => None,
            },
        }
    }
}

/// A login that is over.
pub open spec fn finished(login: LdapLoginView) -> LdapLoginView {
    LdapLoginView { stage: LdapStage::Finished, entry: None, ..login }
}

/// The login's next step. The service account binds and searches for the
/// user, then unbinds; the first entry found binds with the user's password,
/// then unbinds; only then does the entry give the identity. Whatever else
/// happens, be it a bind that fails, a search that fails or finds nobody, an
/// unbind that fails or an answer out of turn, ends the login with one and
/// the same error.
pub open spec fn ldap_step(config: LdapView, login: LdapLoginView, event: LdapEventView) -> (
    LdapLoginView,
    LdapActionView,
) {
    let failed = (
        finished(login),
        LdapActionView::Done(Err(AuthErrorView::IncorrectCredentials)),
    );
    match login.stage {
        LdapStage::Start => match event {
            LdapEventView::Begin => (
                LdapLoginView { stage: LdapStage::ServiceBinding, ..login },
                LdapActionView::ServiceBind {
                    uri: config.uri,
                    dn: config.bind,
                    password: config.password,
                },
            ),
            _ => failed,
        },
        LdapStage::ServiceBinding => match event {
            LdapEventView::Bound { ok: true } => (
                LdapLoginView { stage: LdapStage::Searching, ..login },
                LdapActionView::Search {
                    base_dn: config.base_dn,
                    scope: config.scope,
                    filter: search_filter(config, login.username),
                    attrs: search_attrs(config),
                },
            ),
            _ => failed,
        },
        LdapStage::Searching => match event {
            LdapEventView::Found { entries: Some(entries) } => (
                LdapLoginView {
                    stage: LdapStage::Releasing,
                    entry: if entries.len() > 0 {
                        Some(entries.first())
                    } else {
                        None
                    },
                    ..login
                },
                LdapActionView::Unbind,
            ),
            _ => failed,
        },
        LdapStage::Releasing => match (event, login.entry) {
            (LdapEventView::Unbound { ok: true }, Some(entry)) => (
                LdapLoginView { stage: LdapStage::UserBinding, ..login },
                LdapActionView::UserBind { dn: entry.dn, password: login.password },
            ),
            _ => failed,
        },
        LdapStage::UserBinding => match event {
            LdapEventView::Bound { ok: true } => (
                LdapLoginView { stage: LdapStage::Leaving, ..login },
                LdapActionView::Unbind,
            ),
            _ => failed,
        },
        LdapStage::Leaving => match (event, login.entry) {
            (LdapEventView::Unbound { ok: true }, Some(entry)) => (
                finished(login),
                LdapActionView::Done(directory_identity(config, entry)),
            ),
            _ => failed,
        },
        LdapStage::Finished => failed,
    }
}

/// A login of `username` with `password`, before anything was asked.
pub open spec fn ldap_start(username: Seq<char>, password: Seq<char>) -> LdapLoginView {
    LdapLoginView { stage: LdapStage::Start, username, password, entry: None }
}

/// Where a login stands after the directory's answers `events`, and the
/// last action that it was told to take.
pub open spec fn ldap_run(config: LdapView, login: LdapLoginView, events: Seq<LdapEventView>) -> (
    LdapLoginView,
    Option<LdapActionView>,
)
    decreases events.len(),
{
    if events.len() == 0 {
        (login, None)
    } else {
        let before = ldap_run(config, login, events.drop_last()).0;
        let next = ldap_step(config, before, events.last());
        (next.0, Some(next.1))
    }
}

/// Whether `events` begins with the answers that lead a login to `stage`:
/// the beginning, the service account's bind, the search with its entries,
/// the service account's unbind, the user's bind.
pub open spec fn on_course(events: Seq<LdapEventView>, stage: LdapStage) -> bool {
    let steps: int = match stage {
        LdapStage::Start => 0,
        LdapStage::ServiceBinding => 1,
        LdapStage::Searching => 2,
        LdapStage::Releasing => 3,
        LdapStage::UserBinding => 4,
        LdapStage::Leaving => 5,
        LdapStage::Finished => 6,
    };
    &&& events.len() == steps
    &&& steps >= 1 ==> events[0] == LdapEventView::Begin
    &&& steps >= 2 ==> events[1] == (LdapEventView::Bound { ok: true })
    &&& steps >= 3 ==> events[2] is Found && events[2]->entries is Some
    &&& steps >= 4 ==> events[3] == (LdapEventView::Unbound { ok: true })
        && events[2]->entries->Some_0.len() > 0
    &&& steps >= 5 ==> events[4] == (LdapEventView::Bound { ok: true })
    &&& steps >= 6 ==> events[5] == (LdapEventView::Unbound { ok: true })
}

proof fn lemma_run_stays_on_course(
    config: LdapView,
    username: Seq<char>,
    password: Seq<char>,
    events: Seq<LdapEventView>,
)
    ensures
        ({
            let now = ldap_run(config, ldap_start(username, password), events).0;
            &&& now.username == username
            &&& now.password == password
            &&& now.stage != LdapStage::Finished ==> on_course(events, now.stage)
            &&& now.stage == LdapStage::Releasing ==> now.entry == (if events[2]->entries->Some_0.len()
                > 0 {
                Some(events[2]->entries->Some_0.first())
            } else {
                None::<DirectoryEntryView>
            })
            &&& (now.stage == LdapStage::UserBinding || now.stage == LdapStage::Leaving)
                ==> now.entry == Some(events[2]->entries->Some_0.first())
        }),
    decreases events.len(),
{
    if events.len() > 0 {
        let earlier = events.drop_last();
        lemma_run_stays_on_course(config, username, password, earlier);
        let before = ldap_run(config, ldap_start(username, password), earlier).0;
        let now = ldap_step(config, before, events.last()).0;
        if now.stage != LdapStage::Finished {
            assert(before.stage != LdapStage::Finished);
            assert(on_course(earlier, before.stage));
            assert(forall|i: int| 0 <= i < earlier.len() ==> earlier[i] == events[i]);
        }
    }
}

/// A login gives an identity only after both binds went through and each
/// was unbound again: the directory's answers were, in this order, the
/// service account's bind, a search that found somebody, its unbind, the
/// user's bind and its unbind. The identity is that of the first entry found.
pub proof fn lemma_identity_needs_both_binds(
    config: LdapView,
    username: Seq<char>,
    password: Seq<char>,
    events: Seq<LdapEventView>,
)
    requires
        ldap_run(config, ldap_start(username, password), events).1 is Some,
        ldap_run(config, ldap_start(username, password), events).1->Some_0 is Done,
        ldap_run(config, ldap_start(username, password), events).1->Some_0->Done_0 is Ok,
    ensures
        on_course(events, LdapStage::Finished),
        ldap_run(config, ldap_start(username, password), events).1->Some_0->Done_0
            == directory_identity(config, events[2]->entries->Some_0.first()),
{
    let earlier = events.drop_last();
    lemma_run_stays_on_course(config, username, password, earlier);
    let before = ldap_run(config, ldap_start(username, password), earlier).0;
    assert(before.stage == LdapStage::Leaving);
    assert(on_course(earlier, LdapStage::Leaving));
    assert(forall|i: int| 0 <= i < earlier.len() ==> earlier[i] == events[i]);
}

/// The backend that asks a directory who the user is.
pub struct Ldap {
    pub config: crate::config::ldap::Ldap,
}

impl Ldap {
    /// The backend with its part of `config`.
    pub fn new(config: &Config) -> (backend: Self)
        ensures
            backend.config@ == config.ldap@,
    {
        Ldap { config: config.ldap.clone() }
    }

    /// The login form.
    pub fn get_login_type(&self) -> (login: LoginType)
        ensures
            login@ == LoginTypeView::Mask,
    {
        LoginType::Mask
    }

    /// The filter that finds the user `username`. Name and login attribute
    /// go in as literals: nothing in them is read as part of the filter.
    pub fn search_filter(&self, username: &str) -> (filter: String)
        ensures
            filter@ == search_filter(self.config@, username@),
    {
        let mut filter = concat("(&(", ldap_escape(self.config.login_attribute.as_str()).as_str());
        filter.append("=");
        filter.append(ldap_escape(username).as_str());
        filter.append(")");
        filter.append(self.config.filter.as_str());
        filter.append(")");
        filter
    }

    /// The attributes that a search asks for.
    pub fn search_attrs(&self) -> (attrs: Vec<String>)
        ensures
            texts_view(attrs@) == search_attrs(self.config@),
    {
        let mut attrs: Vec<String> = Vec::new();
        attrs.push(CN_ATTR.to_owned());
        match &self.config.database_attribute {
            Some(name) => attrs.push(name.clone()),
            None => {},
        }
        match &self.config.keyfile_attribute {
            Some(name) => attrs.push(name.clone()),
            None => {},
        }
        assert(texts_view(attrs@) =~= search_attrs(self.config@));
        attrs
    }

    /// A login of `username` with `password`, before anything was asked.
    pub fn login(&self, username: &str, password: &str) -> (login: LdapLogin)
        ensures
            login@ == (LdapLoginView {
                stage: LdapStage::Start,
                username: username@,
                password: password@,
                entry: None,
            }),
    {
        LdapLogin {
            stage: LdapStage::Start,
            username: username.to_owned(),
            password: password.to_owned(),
            entry: None,
        }
    }

    /// Takes the directory's answer to the last action and says what to do
    /// next. The first event of a login is `Begin`; the login is over when the
    /// action is `Done`.
    pub fn step(&self, login: LdapLogin, event: LdapEvent) -> (next: (LdapLogin, LdapAction))
        ensures
            (next.0@, next.1@) == ldap_step(self.config@, login@, event@),
    {
        let LdapLogin { stage, username, password, entry } = login;
        match stage {
            LdapStage::Start => match event {
                LdapEvent::Begin => {
                    let action = LdapAction::ServiceBind {
                        uri: self.config.uri.clone(),
                        dn: self.config.bind.clone(),
                        password: self.config.password.clone(),
                    };
                    return (
                        LdapLogin { stage: LdapStage::ServiceBinding, username, password, entry },
                        action,
                    );
                },
                _ => {},
            },
            LdapStage::ServiceBinding => match event {
                LdapEvent::Bound { ok: true } => {
                    let action = LdapAction::Search {
                        base_dn: self.config.base_dn.clone(),
                        scope: self.config.scope,
                        filter: self.search_filter(username.as_str()),
                        attrs: self.search_attrs(),
                    };
                    return (
                        LdapLogin { stage: LdapStage::Searching, username, password, entry },
                        action,
                    );
                },
                _ => {},
            },
            LdapStage::Searching => match event {
                LdapEvent::Found { entries: Some(entries) } => {
                    let mut entries = entries;
                    let ghost found = event@->entries->Some_0;
                    let first = if entries.len() > 0 {
                        assert(found.first() == entries@[0]@);
                        Some(entries.swap_remove(0))
                    } else {
                        None
                    };
                    return (
                        LdapLogin { stage: LdapStage::Releasing, username, password, entry: first },
                        LdapAction::Unbind,
                    );
                },
                _ => {},
            },
            LdapStage::Releasing => match event {
                LdapEvent::Unbound { ok: true } => match entry {
                    Some(found) => {
                        let action = LdapAction::UserBind {
                            dn: found.dn.clone(),
                            password: password.clone(),
                        };
                        return (
                            LdapLogin {
                                stage: LdapStage::UserBinding,
                                username,
                                password,
                                entry: Some(found),
                            },
                            action,
                        );
                    },
                    None => {},
                },
                _ => {},
            },
            LdapStage::UserBinding => match event {
                LdapEvent::Bound { ok: true } => {
                    return (
                        LdapLogin { stage: LdapStage::Leaving, username, password, entry },
                        LdapAction::Unbind,
                    );
                },
                _ => {},
            },
            LdapStage::Leaving => match event {
                LdapEvent::Unbound { ok: true } => match entry {
                    Some(found) => {
                        let outcome = self.user_info(&found);
                        return (
                            LdapLogin { stage: LdapStage::Finished, username, password, entry: None },
                            LdapAction::Done(outcome),
                        );
                    },
                    None => {},
                },
                _ => {},
            },
            LdapStage::Finished => {},
        }
        (
            LdapLogin { stage: LdapStage::Finished, username, password, entry: None },
            LdapAction::Done(Err(AuthError::IncorrectCredentials)),
        )
    }

    /// The identity that a directory entry stands for.
    pub fn user_info(&self, entry: &DirectoryEntry) -> (r: Result<UserInfo, AuthError>)
        ensures
            login_view(r) == directory_identity(self.config@, entry@),
    {
        let cn = match entry.first_value(CN_ATTR) {
            Some(cn) => cn,
            None => return Err(AuthError::CnAttributeMissing),
        };
        let id = match entry.first_value(self.config.login_attribute.as_str()) {
            Some(id) => id,
            None => return Err(
                AuthError::LoginAttributeMissing { attribute: self.config.login_attribute.clone() },
            ),
        };
        Ok(
            UserInfo {
                id: to_lowercase(id.as_str()),
                name: cn,
                db_location: entry.optional_value(&self.config.database_attribute),
                keyfile_location: entry.optional_value(&self.config.keyfile_attribute),
                additional_data: None,
            },
        )
    }
}

} // verus!
