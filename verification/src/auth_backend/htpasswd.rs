use vstd::prelude::*;
use vstd::utf8::encode_utf8;
use crate::auth_backend::login_view;
use crate::auth_backend::AuthError;
use crate::auth_backend::AuthErrorView;
use crate::auth_backend::LoginType;
use crate::auth_backend::LoginTypeView;
use crate::auth_backend::UserInfo;
use crate::auth_backend::UserInfoView;
use crate::config::config::Config;

verus! {

/// The salted MD5 hash takes passwords of at most this many bytes: it reads
/// its input in blocks of this size, and a longer password can hold a whole
/// block behind the bytes that fill up the block before; such a block is
/// read in place, whatever its alignment.
pub const MD5_BLOCK_LENGTH: usize = 64;

/// What follows the first colon of a line: the hash of a password-file
/// entry. A line without colon is no entry.
pub open spec fn hash_part(line: Seq<u8>) -> Option<Seq<u8>>
    decreases line.len(),
{
    if line.len() == 0 {
        None
    } else if line.first() == 0x3a {
        Some(line.drop_first())
    } else {
        hash_part(line.drop_first())
    }
}

/// Whether `c` is a digit.
pub open spec fn is_digit(c: u8) -> bool {
    0x30 <= c && c <= 0x39
}

/// Whether `c` is a symbol of the bcrypt alphabet: a dot, a slash, a letter
/// or a digit.
pub open spec fn is_bcrypt_symbol(c: u8) -> bool {
    c == 0x2e || c == 0x2f || is_digit(c) || (0x41 <= c && c <= 0x5a) || (0x61 <= c && c <= 0x7a)
}

/// The six bits that a symbol of the bcrypt alphabet stands for.
pub open spec fn bcrypt_value(c: u8) -> int {
    if c == 0x2e {
        0
    } else if c == 0x2f {
        1
    } else if 0x41 <= c && c <= 0x5a {
        c - 0x41 + 2
    } else if 0x61 <= c && c <= 0x7a {
        c - 0x61 + 28
    } else {
        c - 0x30 + 54
    }
}

/// Whether `hash` begins with `$apr1$`.
pub open spec fn is_apr1(hash: Seq<u8>) -> bool {
    hash.len() >= 6 && hash[0] == 0x24 && hash[1] == 0x61 && hash[2] == 0x70 && hash[3] == 0x72
        && hash[4] == 0x31 && hash[5] == 0x24
}

/// Whether `hash` begins with `$2y$`.
pub open spec fn is_bcrypt(hash: Seq<u8>) -> bool {
    hash.len() >= 4 && hash[0] == 0x24 && hash[1] == 0x32 && hash[2] == 0x79 && hash[3] == 0x24
}

/// Whether `hash` begins with `{SHA}`.
pub open spec fn is_sha1(hash: Seq<u8>) -> bool {
    hash.len() >= 5 && hash[0] == 0x7b && hash[1] == 0x53 && hash[2] == 0x48 && hash[3] == 0x41
        && hash[4] == 0x7d
}

/// Whether a hash that begins with `$2y$` is a whole bcrypt hash: sixty
/// characters, made of a two-digit cost between 4 and 31, a dollar sign, and
/// 22 symbols of salt and 31 of digest whose last symbols leave no bits over.
pub open spec fn is_whole_bcrypt(hash: Seq<u8>) -> bool {
    &&& hash.len() == 60
    &&& is_digit(hash[4]) && is_digit(hash[5])
    &&& 4 <= (hash[4] - 0x30) * 10 + (hash[5] - 0x30) <= 31
    &&& hash[6] == 0x24
    &&& forall|i: int| 7 <= i < 60 ==> is_bcrypt_symbol(#[trigger] hash[i])
    &&& bcrypt_value(hash[28]) % 16 == 0
    &&& bcrypt_value(hash[59]) % 4 == 0
}

/// Whether a hash can be handed to the verification: it is plain ASCII, and
/// of a form that its kind of hash can have. A salted MD5 hash has at least
/// the salt and its separator; a bcrypt hash is whole; a crypt hash begins
/// with two printable characters, if it has that many.
pub open spec fn is_sound_hash(hash: Seq<u8>) -> bool {
    &&& forall|i: int| 0 <= i < hash.len() ==> #[trigger] hash[i] < 0x80
    &&& if is_apr1(hash) {
        hash.len() >= 15
    } else if is_bcrypt(hash) {
        is_whole_bcrypt(hash)
    } else if is_sha1(hash) {
        true
    } else {
        (hash.len() >= 1 ==> hash[0] >= 0x20) && (hash.len() >= 2 ==> hash[1] >= 0x20)
    }
}

/// Whether a line and a password can be handed to the verification: the
/// line is one line, its hash is sound, and the password is no longer than a
/// block where the hash is a salted MD5 hash.
pub open spec fn is_checkable(line: Seq<u8>, password: Seq<u8>) -> bool {
    &&& forall|i: int| 0 <= i < line.len() ==> #[trigger] line[i] != 0x0a
    &&& hash_part(line) matches Some(hash) ==> is_sound_hash(hash) && (is_apr1(hash)
        ==> password.len() <= MD5_BLOCK_LENGTH)
}

/// Whether the password-file entry on `line` is that of `username` and its
/// hash is that of `password`, as `htpasswd_verify` decides it.
pub uninterp spec fn htpasswd_accepts(
    line: Seq<char>,
    username: Seq<char>,
    password: Seq<char>,
) -> bool;

/// `htpasswd_verify::Htpasswd::from` on one line, then `check`: whether the
/// line is the entry of `username` and `password` matches its hash. The line
/// and the password must be such that the parsing and the hash functions take
/// them.
#[verifier::external_body]
fn check_entry(line: &str, username: &str, password: &str) -> (r: bool)
    requires
        is_checkable(encode_utf8(line@), encode_utf8(password@)),
    ensures
        r == htpasswd_accepts(line@, username@, password@),
{
    htpasswd_verify::Htpasswd::from(line).check(username, password)
}

/// Whether a line of the password file lets `username` in with `password`:
/// the line can be checked, and the check accepts.
pub open spec fn entry_matches(line: Seq<char>, username: Seq<char>, password: Seq<char>) -> bool {
    is_checkable(encode_utf8(line), encode_utf8(password)) && htpasswd_accepts(
        line,
        username,
        password,
    )
}

/// The place of the first colon.
fn find_colon(line: &[u8]) -> (found: Option<usize>)
    ensures
        match found {
            Some(i) => i < line@.len() && hash_part(line@) == Some(line@.skip(i + 1)),
            None => hash_part(line@) is None,
        },
{
    let mut i: usize = 0;
    assert(line@.skip(0) == line@);
    while i < line.len()
        invariant
            i <= line.len(),
            hash_part(line@) == hash_part(line@.skip(i as int)),
        decreases line.len() - i,
    {
        let ghost rest = line@.skip(i as int);
        assert(rest.first() == line@[i as int]);
        assert(rest.drop_first() == line@.skip(i + 1));
        if line[i] == 0x3a {
            return Some(i);
        }
        i = i + 1;
    }
    None
}

/// Whether no byte from `start` on is a line feed or beyond ASCII.
fn is_plain_from(line: &[u8], start: usize, ascii: bool) -> (r: bool)
    requires
        start <= line@.len(),
    ensures
        r == forall|i: int|
            start <= i < line@.len() ==> (#[trigger] line@[i]) != 0x0a && (ascii ==> line@[i]
                < 0x80),
{
    let mut i: usize = start;
    while i < line.len()
        invariant
            start <= i <= line.len(),
            forall|j: int|
                start <= j < i ==> (#[trigger] line@[j]) != 0x0a && (ascii ==> line@[j] < 0x80),
        decreases line.len() - i,
    {
        if line[i] == 0x0a || (ascii && line[i] >= 0x80) {
            return false;
        }
        i = i + 1;
    }
    true
}

fn bcrypt_symbol(c: u8) -> (r: bool)
    ensures
        r == is_bcrypt_symbol(c),
{
    c == 0x2e || c == 0x2f || (0x30 <= c && c <= 0x39) || (0x41 <= c && c <= 0x5a) || (0x61 <= c
        && c <= 0x7a)
}

fn bcrypt_symbol_value(c: u8) -> (v: u8)
    requires
        is_bcrypt_symbol(c),
    ensures
        v == bcrypt_value(c),
{
    if c == 0x2e {
        0
    } else if c == 0x2f {
        1
    } else if 0x41 <= c && c <= 0x5a {
        c - 0x41 + 2
    } else if 0x61 <= c && c <= 0x7a {
        c - 0x61 + 28
    } else {
        c - 0x30 + 54
    }
}

/// Whether the hash that begins at `start` is a whole bcrypt hash.
fn whole_bcrypt(line: &[u8], start: usize) -> (r: bool)
    requires
        start <= line@.len(),
        is_bcrypt(line@.skip(start as int)),
    ensures
        r == is_whole_bcrypt(line@.skip(start as int)),
{
    let ghost hash = line@.skip(start as int);
    let length = line.len();
    if length - start != 60 {
        return false;
    }
    assert(forall|i: int| 0 <= i < 60 ==> hash[i] == line@[start + i]);
    let tens = line[start + 4];
    let ones = line[start + 5];
    if !(0x30 <= tens && tens <= 0x39 && 0x30 <= ones && ones <= 0x39) {
        return false;
    }
    let cost: u8 = (tens - 0x30) * 10 + (ones - 0x30);
    if cost < 4 || cost > 31 || line[start + 6] != 0x24 {
        return false;
    }
    let mut i: usize = 7;
    while i < 60
        invariant
            7 <= i <= 60,
            start <= line@.len(),
            line@.len() - start == 60,
            line@.len() == length,
            hash == line@.skip(start as int),
            forall|j: int| 7 <= j < i ==> is_bcrypt_symbol(#[trigger] hash[j]),
        decreases 60 - i,
    {
        assert(hash[i as int] == line@[start + i]);
        if !bcrypt_symbol(line[start + i]) {
            return false;
        }
        i = i + 1;
    }
    assert(hash[28] == line@[start + 28]);
    assert(hash[59] == line@[start + 59]);
    bcrypt_symbol_value(line[start + 28]) % 16 == 0 && bcrypt_symbol_value(line[start + 59]) % 4
        == 0
}

/// Whether a line and a password can be handed to the verification.
fn checkable(line: &[u8], password: &[u8]) -> (r: bool)
    ensures
        r == is_checkable(line@, password@),
{
    let length = line.len();
    let start: usize = match find_colon(line) {
        Some(i) => {
            assert(i < length);
            i + 1
        },
        None => { return is_plain_from(line, 0, false); },
    };
    let ghost hash = line@.skip(start as int);
    assert(forall|i: int| 0 <= i < hash.len() ==> hash[i] == line@[start + i]);
    if !is_plain_from(line, 0, false) {
        return false;
    }
    if !is_plain_from(line, start, true) {
        assert(!is_sound_hash(hash)) by {
            let i = choose|i: int|
                start <= i < line@.len() && !((#[trigger] line@[i]) != 0x0a && line@[i] < 0x80);
            assert(hash[i - start] == line@[i]);
        }
        return false;
    }
    assert forall|i: int| 0 <= i < hash.len() implies #[trigger] hash[i] < 0x80 by {
        assert(hash[i] == line@[start + i]);
    }
    let n = line.len() - start;
    if n >= 6 && line[start] == 0x24 && line[start + 1] == 0x61 && line[start + 2] == 0x70
        && line[start + 3] == 0x72 && line[start + 4] == 0x31 && line[start + 5] == 0x24 {
        return n >= 15 && password.len() <= MD5_BLOCK_LENGTH;
    }
    if n >= 4 && line[start] == 0x24 && line[start + 1] == 0x32 && line[start + 2] == 0x79
        && line[start + 3] == 0x24 {
        return whole_bcrypt(line, start);
    }
    if n >= 5 && line[start] == 0x7b && line[start + 1] == 0x53 && line[start + 2] == 0x48
        && line[start + 3] == 0x41 && line[start + 4] == 0x7d {
        return true;
    }
    (n < 1 || line[start] >= 0x20) && (n < 2 || line[start + 1] >= 0x20)
}

/// What the reading of the password file came to.
#[derive(Debug)]
pub enum FileEvent {
    /// The next line.
    Line(String),
    /// There are no more lines.
    End,
    /// The file could not be opened or read.
    Failed { message: String },
}

/// What to do after a line.
#[derive(Debug)]
pub enum Scan {
    /// Read on.
    Continue,
    /// Stop: the login is decided.
    Done(Result<UserInfo, AuthError>),
}

/// What a `Scan` holds, as mathematical values.
pub enum ScanView {
    Continue,
    Done(Result<UserInfoView, AuthErrorView>),
}

impl View for Scan {
    type V = ScanView;

    open spec fn view(&self) -> ScanView {
        match *self {
            Scan::Continue => ScanView::Continue,
            Scan::Done(outcome) => ScanView::Done(login_view(outcome)),
        }
    }
}

/// What a login makes of the next thing read from the password file. The
/// first line that lets the user in ends the search with the user's
/// identity; the end of the file ends it with a refusal, and so does a file
/// that cannot be read.
pub open spec fn scanned(username: Seq<char>, password: Seq<char>, event: FileEvent) -> ScanView {
    match event {
        FileEvent::Line(line) => if entry_matches(line@, username, password) {
            ScanView::Done(
                Ok(
                    UserInfoView {
                        id: username,
                        name: username,
                        db_location: None,
                        keyfile_location: None,
                        additional_data: None,
                    },
                ),
            )
        } else {
            ScanView::Continue
        },
        FileEvent::End => ScanView::Done(Err(AuthErrorView::IncorrectCredentials)),
        FileEvent::Failed { message } => ScanView::Done(
            Err(AuthErrorView::Outside { message: message@ }),
        ),
    }
}

/// The backend that checks name and password against a password file.
pub struct Htpasswd {
    pub config: crate::config::htpasswd::Htpasswd,
}

impl Htpasswd {
    /// The backend with its part of `config`.
    pub fn new(config: &Config) -> (backend: Self)
        ensures
            backend.config@ == config.htpasswd@,
    {
        Htpasswd { config: config.htpasswd.clone() }
    }

    /// The login form.
    pub fn get_login_type(&self) -> (login: LoginType)
        ensures
            login@ == LoginTypeView::Mask,
    {
        LoginType::Mask
    }

    /// Whether one line of the password file lets `username` in with
    /// `password`. A line that the verification cannot take lets nobody in,
    /// and neither does a salted MD5 hash with a password of more than a
    /// block.
    pub fn match_user(line: &str, username: &str, password: &str) -> (r: bool)
        ensures
            r == entry_matches(line@, username@, password@),
    {
        if !checkable(line.as_bytes(), password.as_bytes()) {
            return false;
        }
        check_entry(line, username, password)
    }

    /// Takes the next thing read from the password file and says whether to
    /// read on.
    pub fn login(&self, username: &str, password: &str, event: FileEvent) -> (next: Scan)
        ensures
            next@ == scanned(username@, password@, event),
    {
        match event {
            FileEvent::Line(line) => {
                if Self::match_user(line.as_str(), username, password) {
                    Scan::Done(Ok(UserInfo::named(username)))
                } else {
                    Scan::Continue
                }
            },
            FileEvent::End => Scan::Done(Err(AuthError::IncorrectCredentials)),
            FileEvent::Failed { message } => Scan::Done(Err(AuthError::Outside { message })),
        }
    }
}

} // verus!
