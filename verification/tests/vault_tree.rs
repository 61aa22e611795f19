use keepass4web::config::config::Config;
use keepass4web::config::search::Field as SearchField;
use keepass4web::keepass::db::Database;
use keepass4web::keepass::db::Entry as VaultEntry;
use keepass4web::keepass::db::Field;
use keepass4web::keepass::db::Group as VaultGroup;
use keepass4web::keepass::db::Icon;
use keepass4web::keepass::db::Node;
use keepass4web::keepass::db::Value;
use keepass4web::keepass::entry::join;
use keepass4web::keepass::entry::Entry;
use keepass4web::keepass::keepass::File;
use keepass4web::keepass::keepass::Id;
use keepass4web::keepass::keepass::KeePass;
use keepass4web::keepass::keepass::Protected;
use keepass4web::keepass::keepass::SearchTerm;
use keepass4web::keepass::keepass::Totp;
use keepass4web::keepass::keepass::VaultError;
use keepass4web::keepass::keepass::SEARCH_ICON;
use regex::Regex;

fn field(name: &str, value: Value) -> Field {
    Field { name: name.to_string(), value }
}

fn text(s: &str) -> Value {
    Value::Unprotected(s.to_string())
}

fn secret(s: &str) -> Value {
    Value::Protected(s.as_bytes().to_vec())
}

fn entry(uuid: u128, fields: Vec<Field>, tags: &[&str]) -> VaultEntry {
    VaultEntry {
        uuid,
        fields,
        tags: tags.iter().map(|t| t.to_string()).collect(),
        icon_id: Some(3),
        custom_icon_uuid: None,
    }
}

fn group(uuid: u128, name: &str, children: Vec<Node>) -> VaultGroup {
    VaultGroup { uuid, name: name.to_string(), icon_id: Some(48), custom_icon_uuid: Some(900), children, is_expanded: true }
}

fn mail() -> VaultEntry {
    entry(
        11,
        vec![
            field("Title", text("Mail")),
            field("UserName", text("alice@example.org")),
            field("Password", secret("hunter2")),
            field("URL", text("https://mail.example.org")),
            field("Notes", text("personal")),
            field("otp", text("otpauth://totp/x")),
            field("Recovery", secret("word word")),
            field("Pin", text("1234")),
            field("Blob", Value::Bytes(vec![1, 2, 3])),
            field("Pin", text("shadowed")),
        ],
        &["mail", "private"],
    )
}

fn bank() -> VaultEntry {
    entry(21, vec![field("Title", text("Bank")), field("UserName", secret("alice"))], &[])
}

fn vault() -> Database {
    let inner = group(3, "Money", vec![Node::Entry(bank())]);
    let empty = group(4, "Empty", vec![]);
    let root = group(1, "Root", vec![Node::Entry(mail()), Node::Group(inner), Node::Group(empty), Node::Entry(entry(12, vec![], &[]))]);
    Database {
        root,
        last_selected_group: Some(3),
        custom_icons: vec![Icon { uuid: 900, data: vec![0x89, 0x50] }, Icon { uuid: 901, data: vec![7] }],
    }
}

fn open() -> KeePass {
    KeePass::new(&Config::default(), vault())
}

#[test]
fn full_entry_hides_what_is_protected() {
    let seen = Entry::from(&mail());
    assert_eq!(seen.id, 11);
    assert_eq!(seen.title.as_deref(), Some("Mail"));
    assert_eq!(seen.username.as_deref(), Some("alice@example.org"));
    assert_eq!(seen.notes.as_deref(), Some("personal"));
    assert_eq!(seen.url.as_deref(), Some("https://mail.example.org"));
    assert_eq!(seen.binary, Some(vec![]));
    assert_eq!(seen.protected, Some(vec!["Password".to_string(), "Recovery".to_string()]));
    assert_eq!(seen.tags, Some(vec!["mail".to_string(), "private".to_string()]));
    assert_eq!(seen.icon, Some(3));
    assert_eq!(
        seen.strings,
        Some(vec![
            ("otp".to_string(), Some("otpauth://totp/x".to_string())),
            ("Recovery".to_string(), None),
            ("Pin".to_string(), Some("1234".to_string())),
        ])
    );
}

#[test]
fn full_entry_of_protected_title_has_no_title() {
    let hidden = entry(5, vec![field("Title", secret("x")), field("Notes", Value::Bytes(vec![1]))], &[]);
    let seen = Entry::from(&hidden);
    assert!(seen.title.is_none());
    assert!(seen.notes.is_none());
    assert_eq!(seen.protected, Some(vec!["Title".to_string()]));
    assert_eq!(seen.strings, Some(vec![]));
}

#[test]
fn listed_entry_shows_title_name_and_address_only() {
    let seen = Entry::listed(&bank());
    assert_eq!(seen.id, 21);
    assert_eq!(seen.title.as_deref(), Some("Bank"));
    assert_eq!(seen.username.as_deref(), Some("alice"));
    assert!(seen.url.is_none());
    assert!(seen.notes.is_none() && seen.strings.is_none() && seen.protected.is_none());
    assert!(seen.tags.is_none() && seen.binary.is_none());
    let odd = entry(6, vec![field("Title", Value::Protected(vec![0xff, 0xfe])), field("URL", Value::Bytes(vec![65]))], &[]);
    let seen = Entry::listed(&odd);
    assert!(seen.title.is_none());
    assert!(seen.url.is_none());
}

#[test]
fn vault_entry_lookups() {
    let e = mail();
    assert_eq!(e.get("Pin"), Some("1234".to_string()));
    assert_eq!(e.get("Password"), Some("hunter2".to_string()));
    assert_eq!(e.get("Blob"), None);
    assert_eq!(e.get("Missing"), None);
    assert_eq!(e.get_title(), Some("Mail".to_string()));
    assert_eq!(e.get_username(), Some("alice@example.org".to_string()));
    assert_eq!(e.get_url(), Some("https://mail.example.org".to_string()));
    assert!(matches!(e.field("Pin"), Some(f) if matches!(&f.value, Value::Unprotected(t) if t == "1234")));
    assert!(e.field("pin").is_none());
    assert_eq!(Value::Bytes(vec![0x61, 0xff]).any_text(), "a\u{fffd}");
    assert_eq!(Value::Protected(vec![0x61, 0x62]).any_text(), "ab");
    assert_eq!(Value::Protected(vec![0xff]).text(), None);
    assert_eq!(Value::Bytes(vec![0x61]).text(), None);
    assert_eq!(text("x").text(), Some("x".to_string()));
}

#[test]
fn join_puts_the_separator_between() {
    assert_eq!(join(&vec![], ";"), "");
    assert_eq!(join(&vec!["a".to_string()], ";"), "a");
    assert_eq!(join(&vec!["a".to_string(), "".to_string(), "c".to_string()], ";"), "a;;c");
    assert_eq!(join(&vec!["a".to_string(), "b".to_string()], ", "), "a, b");
}

#[test]
fn matches_regex_looks_at_the_configured_fields() {
    let seen = Entry::from(&mail());
    let mut search = Config::default().search;
    search.extra_fields = false;
    assert!(seen.matches_regex(&Regex::new("(?i)MAIL").unwrap(), &search));
    assert!(seen.matches_regex(&Regex::new("^mail;private$").unwrap(), &search));
    assert!(seen.matches_regex(&Regex::new("personal").unwrap(), &search));
    assert!(seen.matches_regex(&Regex::new("mail\\.example").unwrap(), &search));
    assert!(!seen.matches_regex(&Regex::new("1234").unwrap(), &search));
    assert!(!seen.matches_regex(&Regex::new("hunter2").unwrap(), &search));
    search.fields = vec![SearchField::Username];
    assert!(!seen.matches_regex(&Regex::new("personal").unwrap(), &search));
    assert!(seen.matches_regex(&Regex::new("alice@").unwrap(), &search));
    search.fields = vec![];
    assert!(!seen.matches_regex(&Regex::new("").unwrap(), &search));
    search.fields = vec![SearchField::Tags];
    let bare = Entry::listed(&mail());
    assert!(bare.matches_regex(&Regex::new("^$").unwrap(), &search));
    assert!(!bare.matches_regex(&Regex::new("mail").unwrap(), &search));
}

#[test]
fn matches_regex_looks_at_further_texts_where_asked() {
    let seen = Entry::from(&mail());
    let mut search = Config::default().search;
    assert!(search.extra_fields);
    assert!(seen.matches_regex(&Regex::new("1234").unwrap(), &search));
    assert!(seen.matches_regex(&Regex::new("^Recovery$").unwrap(), &search));
    assert!(seen.matches_regex(&Regex::new("otpauth").unwrap(), &search));
    assert!(!seen.matches_regex(&Regex::new("word word").unwrap(), &search));
    assert!(!seen.matches_regex(&Regex::new("hunter2").unwrap(), &search));
    assert!(!seen.matches_regex(&Regex::new("shadowed").unwrap(), &search));
    search.fields = vec![];
    assert!(seen.matches_regex(&Regex::new("^$").unwrap(), &search));
    let bare = Entry::listed(&mail());
    assert!(!bare.matches_regex(&Regex::new("^$").unwrap(), &search));
}

#[test]
fn groups_are_projected_with_their_order() {
    let (groups, last) = open().get_groups();
    assert_eq!(last, Some(3));
    assert_eq!(groups.id, 1);
    assert_eq!(groups.title, "Root");
    assert_eq!(groups.icon, Some(48));
    assert_eq!(groups.custom_icon_uuid, None);
    assert!(groups.expanded);
    assert_eq!(groups.children.len(), 2);
    assert_eq!(groups.children[0].title, "Money");
    assert_eq!(groups.children[0].id, 3);
    assert!(groups.children[0].children.is_empty());
    assert_eq!(groups.children[1].title, "Empty");
    let mut db = vault();
    db.last_selected_group = Some(77);
    assert_eq!(KeePass::new(&Config::default(), db).get_groups().1, None);
    let mut db = vault();
    db.last_selected_group = None;
    assert_eq!(KeePass::new(&Config::default(), db).get_groups().1, None);
}

#[test]
fn find_by_id_walks_the_tree() {
    let db = vault();
    assert_eq!(KeePass::find_group_by_id(&db.root, 1).map(|g| g.name.as_str()), Some("Root"));
    assert_eq!(KeePass::find_group_by_id(&db.root, 3).map(|g| g.name.as_str()), Some("Money"));
    assert_eq!(KeePass::find_group_by_id(&db.root, 4).map(|g| g.name.as_str()), Some("Empty"));
    assert!(KeePass::find_group_by_id(&db.root, 11).is_none());
    assert_eq!(KeePass::find_entry_by_id(&db.root, 21).map(|e| e.uuid), Some(21));
    assert_eq!(KeePass::find_entry_by_id(&db.root, 12).map(|e| e.fields.len()), Some(0));
    assert!(KeePass::find_entry_by_id(&db.root, 3).is_none());
    let twice = group(1, "outer", vec![Node::Group(group(1, "inner", vec![]))]);
    assert_eq!(KeePass::find_group_by_id(&twice, 1).map(|g| g.name.as_str()), Some("outer"));
    assert_eq!(KeePass::find_all_groups(&twice).children[0].title, "inner");
}

#[test]
fn group_entries_are_listed() {
    let listing = open().get_group_entries(&Id { id: 1 }).unwrap();
    assert_eq!(listing.title, "Root");
    assert_eq!(listing.icon, Some(48));
    assert_eq!(listing.custom_icon_uuid, Some(900));
    assert_eq!(listing.entries.len(), 2);
    assert_eq!(listing.entries[0].id, 11);
    assert_eq!(listing.entries[0].title.as_deref(), Some("Mail"));
    assert!(listing.entries[0].notes.is_none());
    assert_eq!(listing.entries[1].id, 12);
    assert!(listing.entries[1].title.is_none());
    let listing = open().get_group_entries(&Id { id: 4 }).unwrap();
    assert!(listing.entries.is_empty());
    let r = open().get_group_entries(&Id { id: 11 });
    assert!(matches!(&r, Err(VaultError::GroupNotFound)));
    assert_eq!(r.unwrap_err().message(), "group not found");
}

#[test]
fn entries_are_fetched_by_id() {
    let seen = open().get_entry(&Id { id: 21 }).unwrap();
    assert_eq!(seen.title.as_deref(), Some("Bank"));
    assert!(seen.username.is_none());
    assert_eq!(seen.protected, Some(vec!["UserName".to_string()]));
    let r = open().get_entry(&Id { id: 1 });
    assert!(matches!(&r, Err(VaultError::EntryNotFound)));
    assert_eq!(r.unwrap_err().message(), "entry not found");
}

#[test]
fn protected_fields_are_served_on_demand() {
    let vault = open();
    let ask = |entry_id: u128, name: &str| vault.get_protected(&Protected { entry_id, name: name.to_string() });
    assert_eq!(ask(11, "password").ok().unwrap().expose_secret(), &b"hunter2".to_vec());
    assert_eq!(ask(11, "Password").ok().unwrap().expose_secret(), &b"hunter2".to_vec());
    assert_eq!(ask(11, "Recovery").ok().unwrap().expose_secret(), &b"word word".to_vec());
    assert!(matches!(ask(11, "Title").err(), Some(VaultError::NotProtected)));
    assert!(matches!(ask(11, "Blob").err(), Some(VaultError::NotProtected)));
    assert!(matches!(ask(11, "Nope").err(), Some(VaultError::FieldNotFound)));
    assert!(matches!(ask(21, "password").err(), Some(VaultError::FieldNotFound)));
    assert!(matches!(ask(99, "password").err(), Some(VaultError::EntryNotFound)));
    assert_eq!(VaultError::NotProtected.message(), "not a protected field");
    assert_eq!(VaultError::FieldNotFound.message(), "field not found");
}

#[test]
fn otp_address_comes_from_the_otp_field() {
    assert_eq!(open().get_otp(&Id { id: 11 }).unwrap(), "otpauth://totp/x");
    let r = open().get_otp(&Id { id: 21 });
    assert!(matches!(&r, Err(VaultError::OtpNotFound)));
    assert_eq!(r.unwrap_err().message(), "otp not found");
    assert!(matches!(open().get_otp(&Id { id: 5 }), Err(VaultError::EntryNotFound)));
    let totp = Totp { token: "123456".to_string(), ttl: 17 };
    assert_eq!(totp.ttl, 17);
}

#[test]
fn files_are_not_there() {
    let r = open().get_file(&File { entry_id: 11, filename: "a.txt".to_string() });
    assert!(matches!(&r, Err(VaultError::FileNotFound)));
    assert_eq!(r.unwrap_err().message(), "file not found");
    let r = open().get_file(&File { entry_id: 99, filename: "a.txt".to_string() });
    assert!(matches!(r, Err(VaultError::EntryNotFound)));
}

#[test]
fn icons_are_fetched_by_id() {
    let icon = open().get_icon(&Id { id: 901 }).unwrap();
    assert_eq!(icon.uuid, 901);
    assert_eq!(icon.data, vec![7]);
    assert_eq!(open().get_icon(&Id { id: 900 }).unwrap().data, vec![0x89, 0x50]);
    let r = open().get_icon(&Id { id: 1 });
    assert!(matches!(&r, Err(VaultError::IconNotFound)));
    assert_eq!(r.unwrap_err().message(), "icon not found");
}

#[test]
fn search_takes_the_term_literally_by_default() {
    let vault = open();
    let found = vault.search_entries(&SearchTerm { term: "MAIL".to_string() }).unwrap();
    assert_eq!(found.title, "Search results for 'MAIL'");
    assert_eq!(found.icon, Some(SEARCH_ICON));
    assert_eq!(found.icon, Some(40));
    assert_eq!(found.custom_icon_uuid, None);
    assert_eq!(found.entries.iter().map(|e| e.id).collect::<Vec<_>>(), vec![11]);
    assert_eq!(found.entries[0].notes.as_deref(), Some("personal"));
    let found = vault.search_entries(&SearchTerm { term: "a".to_string() }).unwrap();
    assert_eq!(found.entries.iter().map(|e| e.id).collect::<Vec<_>>(), vec![11, 21]);
    let found = vault.search_entries(&SearchTerm { term: "b.nk".to_string() }).unwrap();
    assert!(found.entries.is_empty());
    let found = vault.search_entries(&SearchTerm { term: "(".to_string() }).unwrap();
    assert!(found.entries.is_empty());
    let found = vault.search_entries(&SearchTerm { term: "mail.example".to_string() }).unwrap();
    assert_eq!(found.entries.len(), 1);
    let found = vault.search_entries(&SearchTerm { term: "".to_string() }).unwrap();
    assert_eq!(found.entries.iter().map(|e| e.id).collect::<Vec<_>>(), vec![11, 21, 12]);
}

#[test]
fn search_takes_patterns_where_allowed() {
    let mut config = Config::default();
    config.search.allow_regex = true;
    let vault = KeePass::new(&config, vault());
    let found = vault.search_entries(&SearchTerm { term: "b.nk".to_string() }).unwrap();
    assert_eq!(found.entries.iter().map(|e| e.id).collect::<Vec<_>>(), vec![21]);
    let r = vault.search_entries(&SearchTerm { term: "(".to_string() });
    match r {
        Err(VaultError::InvalidPattern { message }) => assert!(message.contains("unclosed group")),
        _ => panic!("a broken pattern was taken"),
    }
}

#[test]
fn find_entries_by_string_walks_below_groups() {
    let db = vault();
    let search = Config::default().search;
    let found = KeePass::find_entries_by_string(&db.root, &Regex::new("Bank").unwrap(), &search);
    assert_eq!(found.iter().map(|e| e.id).collect::<Vec<_>>(), vec![21]);
    let found = KeePass::find_entries_by_string(&db.root, &Regex::new("nothing like it").unwrap(), &search);
    assert!(found.is_empty());
}
