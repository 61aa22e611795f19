use vstd::prelude::*;
use linux_keyutils::KeyError;
use linux_keyutils::KeyPermissions;
use linux_keyutils::KeyRing;
use linux_keyutils::KeyRingIdentifier;
use secrecy::ExposeSecret;
use secrecy::Secret;
use crate::auth::gen_token;
use crate::auth::is_token;

verus! {

/// `linux_keyutils::KeyRing`: a handle to a keyring in the kernel. Nothing is
/// known of what it holds.
#[verifier::external_type_specification]
#[verifier::external_body]
pub struct ExKeyRing(linux_keyutils::KeyRing);

/// `linux_keyutils::Key`: a handle to a key in the kernel. Nothing is known
/// of what it holds.
#[verifier::external_type_specification]
#[verifier::external_body]
pub struct ExKey(linux_keyutils::Key);

/// `linux_keyutils::KeyError`: the errors of the keyring interface, with the
/// variants that the crate gives them.
#[verifier::external_type_specification]
pub struct ExKeyError(linux_keyutils::KeyError);

/// A byte buffer inside a `secrecy::Secret`, which wipes it when it is
/// dropped and keeps it out of debug output.
#[verifier::external_body]
pub struct SecretBytes {
    inner: Secret<Vec<u8>>,
}

/// The bytes that a secret buffer holds.
pub uninterp spec fn secret_bytes(s: SecretBytes) -> Seq<u8>;

impl View for SecretBytes {
    type V = Seq<u8>;

    open spec fn view(&self) -> Seq<u8> {
        secret_bytes(*self)
    }
}

impl SecretBytes {
    /// `secrecy::Secret::new`: the buffer moves into the secret unchanged.
    #[verifier::external_body]
    fn wrap(bytes: Vec<u8>) -> (s: SecretBytes)
        ensures
            secret_bytes(s) == bytes@,
    {
        SecretBytes { inner: Secret::new(bytes) }
    }

    /// `secrecy::ExposeSecret::expose_secret`: a reference to the bytes
    /// inside.
    #[verifier::external_body]
    fn peek(&self) -> (bytes: &Vec<u8>)
        ensures
            bytes@ == secret_bytes(*self),
    {
        self.inner.expose_secret()
    }

    /// Takes `bytes` into a secret buffer.
    pub fn new(bytes: Vec<u8>) -> (s: SecretBytes)
        ensures
            s@ == bytes@,
    {
        Self::wrap(bytes)
    }

    /// The bytes inside.
    pub fn expose_secret(&self) -> (bytes: &Vec<u8>)
        ensures
            bytes@ == self@,
    {
        self.peek()
    }
}

/// Why the keyring refused an operation. The variants are those of the
/// keyring interface, one for one.
#[derive(Debug, Clone, Copy, PartialEq, Eq, Structural)]
pub enum KeyStoreError {
    AccessDenied,
    QuotaExceeded,
    BadAddress,
    InvalidArguments,
    KeyExpired,
    KeyRevoked,
    KeyRejected,
    KeyringDoesNotExist,
    KeyDoesNotExist,
    OutOfMemory,
    InvalidDescription,
    InvalidIdentifier,
    OperationNotSupported,
    WriteError,
    PermissionDenied,
    MissingFileOrDirectory,
    Unknown(i32),
}

impl KeyStoreError {
    /// Whether the error says that the key is no longer there: it never
    /// existed, it has expired, or it was revoked.
    pub open spec fn spec_is_gone(self) -> bool {
        self == KeyStoreError::KeyDoesNotExist || self == KeyStoreError::KeyExpired || self
            == KeyStoreError::KeyRevoked
    }

    /// Whether the error says that the key is no longer there.
    #[verifier::when_used_as_spec(spec_is_gone)]
    pub fn is_gone(self) -> (gone: bool)
        ensures
            gone == self.spec_is_gone(),
    {
        match self {
            KeyStoreError::KeyDoesNotExist | KeyStoreError::KeyExpired | KeyStoreError::KeyRevoked => true,
            _ => false,
        }
    }

    /// The error as the keyring interface reported it.
    pub open spec fn of(e: KeyError) -> KeyStoreError {
        match e {
            KeyError::AccessDenied => KeyStoreError::AccessDenied,
            KeyError::QuotaExceeded => KeyStoreError::QuotaExceeded,
            KeyError::BadAddress => KeyStoreError::BadAddress,
            KeyError::InvalidArguments => KeyStoreError::InvalidArguments,
            KeyError::KeyExpired => KeyStoreError::KeyExpired,
            KeyError::KeyRevoked => KeyStoreError::KeyRevoked,
            KeyError::KeyRejected => KeyStoreError::KeyRejected,
            KeyError::KeyringDoesNotExist => KeyStoreError::KeyringDoesNotExist,
            KeyError::KeyDoesNotExist => KeyStoreError::KeyDoesNotExist,
            KeyError::OutOfMemory => KeyStoreError::OutOfMemory,
            KeyError::InvalidDescription => KeyStoreError::InvalidDescription,
            KeyError::InvalidIdentifier => KeyStoreError::InvalidIdentifier,
            KeyError::OperationNotSupported => KeyStoreError::OperationNotSupported,
            KeyError::WriteError => KeyStoreError::WriteError,
            KeyError::PermissionDenied => KeyStoreError::PermissionDenied,
            KeyError::MissingFileOrDirectory => KeyStoreError::MissingFileOrDirectory,
            KeyError::Unknown(code) => KeyStoreError::Unknown(code),
        }
    }

    fn from_key_error(e: KeyError) -> (r: KeyStoreError)
        ensures
            r == KeyStoreError::of(e),
    {
        match e {
            KeyError::AccessDenied => KeyStoreError::AccessDenied,
            KeyError::QuotaExceeded => KeyStoreError::QuotaExceeded,
            KeyError::BadAddress => KeyStoreError::BadAddress,
            KeyError::InvalidArguments => KeyStoreError::InvalidArguments,
            KeyError::KeyExpired => KeyStoreError::KeyExpired,
            KeyError::KeyRevoked => KeyStoreError::KeyRevoked,
            KeyError::KeyRejected => KeyStoreError::KeyRejected,
            KeyError::KeyringDoesNotExist => KeyStoreError::KeyringDoesNotExist,
            KeyError::KeyDoesNotExist => KeyStoreError::KeyDoesNotExist,
            KeyError::OutOfMemory => KeyStoreError::OutOfMemory,
            KeyError::InvalidDescription => KeyStoreError::InvalidDescription,
            KeyError::InvalidIdentifier => KeyStoreError::InvalidIdentifier,
            KeyError::OperationNotSupported => KeyStoreError::OperationNotSupported,
            KeyError::WriteError => KeyStoreError::WriteError,
            KeyError::PermissionDenied => KeyStoreError::PermissionDenied,
            KeyError::MissingFileOrDirectory => KeyStoreError::MissingFileOrDirectory,
            KeyError::Unknown(code) => KeyStoreError::Unknown(code),
        }
    }
}

/// Whether a key id holds a NUL. The keyring knows its keys by
/// NUL-terminated descriptions, so no key can go by such an id.
pub open spec fn has_nul(key_id: Seq<char>) -> bool {
    key_id.contains('\0')
}

/// `KeyRing::from_special_id` for the session keyring, without creating it.
/// Whether the kernel hands it out is not known beforehand.
#[verifier::external_body]
fn session_keyring() -> Result<KeyRing, KeyError> {
    KeyRing::from_special_id(KeyRingIdentifier::Session, false)
}

/// `KeyRing::search` for a user key with this description. A description
/// that holds a NUL cannot be handed to the kernel: it is refused as invalid
/// before the kernel is asked. For any other, the outcome depends on what the
/// kernel holds.
#[verifier::external_body]
fn keyring_search(ring: &KeyRing, description: &str) -> (r: Result<linux_keyutils::Key, KeyError>)
    ensures
        has_nul(description@) ==> r is Err && r->Err_0 == KeyError::InvalidDescription,
{
    ring.search(description)
}

/// `KeyRing::add_key`: adds a user key, or updates the one with this
/// description. A description that holds a NUL cannot be handed to the
/// kernel: it is refused as invalid before the kernel is asked. For any
/// other, the outcome depends on the kernel.
#[verifier::external_body]
fn keyring_add(ring: &KeyRing, description: &str, secret: &Vec<u8>) -> (r: Result<linux_keyutils::Key, KeyError>)
    ensures
        has_nul(description@) ==> r is Err && r->Err_0 == KeyError::InvalidDescription,
{
    ring.add_key(description, secret)
}

/// `Key::read` into `buffer`, which keeps its length: the kernel overwrites
/// at most that many bytes and reports the payload's size.
#[verifier::external_body]
fn key_read(key: &linux_keyutils::Key, buffer: &mut Vec<u8>) -> (r: Result<usize, KeyError>)
    ensures
        final(buffer)@.len() == old(buffer)@.len(),
{
    key.read(buffer)
}

/// `Key::set_timeout`, in seconds from now.
#[verifier::external_body]
fn key_set_timeout(key: &linux_keyutils::Key, seconds: usize) -> Result<(), KeyError> {
    key.set_timeout(seconds)
}

/// `Key::set_perms` with the raw permission bits.
#[verifier::external_body]
fn key_set_perms(key: &linux_keyutils::Key, bits: u32) -> Result<(), KeyError> {
    key.set_perms(KeyPermissions::from_u32(bits))
}

/// `Key::revoke`.
#[verifier::external_body]
fn key_revoke(key: &linux_keyutils::Key) -> Result<(), KeyError> {
    key.revoke()
}

/// The whole seconds in `millis`, as the keyring takes them.
pub open spec fn spec_timeout_seconds(millis: u64) -> int {
    if millis / 1000 <= usize::MAX {
        (millis / 1000) as int
    } else {
        usize::MAX as int
    }
}

/// The whole seconds in `millis`; the largest number the keyring takes
/// where they are more.
pub fn timeout_seconds(millis: u64) -> (seconds: usize)
    ensures
        seconds == spec_timeout_seconds(millis),
{
    let whole: u64 = millis / 1000;
    if whole <= usize::MAX as u64 {
        whole as usize
    } else {
        usize::MAX
    }
}

/// A buffer of `n` zero bytes.
pub fn zeros(n: usize) -> (buffer: Vec<u8>)
    ensures
        buffer@ == Seq::new(n as nat, |i: int| 0u8),
{
    let mut buffer: Vec<u8> = Vec::new();
    let mut i: usize = 0;
    while i < n
        invariant
            i <= n,
            buffer@ == Seq::new(i as nat, |j: int| 0u8),
        decreases n - i,
    {
        buffer.push(0u8);
        i = i + 1;
        assert(buffer@ =~= Seq::new(i as nat, |j: int| 0u8));
    }
    buffer
}

/// Length of a key's opaque id.
pub const ID_LENGTH: usize = 16;

/// Length of the key material that the keyring hands back.
pub const KEY_LENGTH: usize = 32;

/// Permission mask of a stored key: everything for the possessor, nothing for
/// anybody else.
pub const KEYRING_PERM: u32 = 0x3f000000;

/// A symmetric key and the id under which the keyring knows it.
pub struct SecretKey {
    pub key_id: String,
    data: SecretBytes,
    timeout: u64,
}

/// What a `SecretKey` holds, as mathematical values.
pub struct SecretKeyView {
    pub key_id: Seq<char>,
    pub data: Seq<u8>,
    pub timeout: u64,
}

impl View for SecretKey {
    type V = SecretKeyView;

    closed spec fn view(&self) -> SecretKeyView {
        SecretKeyView { key_id: self.key_id@, data: secret_bytes(self.data), timeout: self.timeout }
    }
}

impl SecretKey {
    /// A key that holds `secret` under a fresh random id. Nothing is stored
    /// yet.
    pub fn new(secret: Vec<u8>) -> (key: Self)
        ensures
            key@.data == secret@,
            key@.timeout == 0,
            is_token(key@.key_id, ID_LENGTH as nat),
    {
        Self::with_id(gen_token(ID_LENGTH), secret)
    }

    /// A key that holds `secret` under the given id. Nothing is stored yet.
    pub fn with_id(key_id: String, secret: Vec<u8>) -> (key: Self)
        ensures
            key@ == (SecretKeyView { key_id: key_id@, data: secret@, timeout: 0 }),
    {
        SecretKey { key_id, data: SecretBytes::new(secret), timeout: 0 }
    }

    /// The id under which the keyring knows the key.
    pub fn id(&self) -> (id: &String)
        ensures
            id@ == self@.key_id,
    {
        &self.key_id
    }

    /// The key material.
    pub fn expose_secret(&self) -> (bytes: &Vec<u8>)
        ensures
            bytes@ == self@.data,
    {
        self.data.expose_secret()
    }

    /// Looks `key_id` up in the session keyring, reads the key material back
    /// and pushes the key's expiry `timeout` milliseconds into the future.
    ///
    /// Whether the key is found is the kernel's answer; a key that comes
    /// back carries the id asked for, the new timeout and `KEY_LENGTH` bytes.
    /// An id that holds a NUL names no key: the lookup fails without the
    /// kernel being asked for it.
    pub fn retrieve(key_id: &str, timeout: u64) -> (r: Result<SecretKey, KeyStoreError>)
        ensures
            r matches Ok(key) ==> key@.key_id == key_id@ && key@.timeout == timeout
                && key@.data.len() == KEY_LENGTH,
            has_nul(key_id@) ==> r is Err,
    {
        let ring = match session_keyring() {
            Ok(ring) => ring,
            Err(e) => return Err(KeyStoreError::from_key_error(e)),
        };
        let found = match keyring_search(&ring, key_id) {
            Ok(found) => found,
            Err(e) => return Err(KeyStoreError::from_key_error(e)),
        };
        let mut buffer = zeros(KEY_LENGTH);
        match key_read(&found, &mut buffer) {
            Ok(_) => {},
            Err(e) => return Err(KeyStoreError::from_key_error(e)),
        }
        let key = SecretKey { key_id: key_id.to_owned(), data: SecretBytes::new(buffer), timeout };
        match key_set_timeout(&found, timeout_seconds(timeout)) {
            Ok(()) => Ok(key),
            Err(e) => Err(KeyStoreError::from_key_error(e)),
        }
    }

    /// What the keyring is handed to register the key for `timeout`
    /// milliseconds: the key's id as the description, the key material as the
    /// payload, the timeout in whole seconds, and the permission mask that
    /// lets the possessor do everything and anybody else nothing.
    pub fn registration(&self, timeout: u64) -> (handed: (&str, &Vec<u8>, usize, u32))
        ensures
            handed.0@ == self@.key_id,
            handed.1@ == self@.data,
            handed.2 == spec_timeout_seconds(timeout),
            handed.3 == KEYRING_PERM,
    {
        (self.key_id.as_str(), self.data.expose_secret(), timeout_seconds(timeout), KEYRING_PERM)
    }

    /// Registers the key in the session keyring under its id, to expire
    /// `timeout` milliseconds from now and to be usable by its possessor
    /// only. The key remembers the timeout once the keyring has taken it. A
    /// key whose id holds a NUL cannot be registered: the keyring is not asked
    /// to take it, and the key stays as it was.
    pub fn store(&mut self, timeout: u64) -> (r: Result<(), KeyStoreError>)
        ensures
            r is Ok ==> final(self)@ == (SecretKeyView { timeout: timeout, ..old(self)@ }),
            r is Err ==> final(self)@ == old(self)@,
            has_nul(old(self)@.key_id) ==> r is Err,
    {
        let ring = match session_keyring() {
            Ok(ring) => ring,
            Err(e) => return Err(KeyStoreError::from_key_error(e)),
        };
        let (description, payload, seconds, mask) = self.registration(timeout);
        let added = match keyring_add(&ring, description, payload) {
            Ok(added) => added,
            Err(e) => return Err(KeyStoreError::from_key_error(e)),
        };
        match key_set_timeout(&added, seconds) {
            Ok(()) => {},
            Err(e) => return Err(KeyStoreError::from_key_error(e)),
        }
        match key_set_perms(&added, mask) {
            Ok(()) => {},
            Err(e) => return Err(KeyStoreError::from_key_error(e)),
        }
        self.timeout = timeout;
        Ok(())
    }

    /// Revokes the key in the session keyring: once this has returned `Ok`,
    /// the kernel no longer hands the key out. A key that the keyring reports
    /// as missing, expired or revoked is revoked as far as anybody can tell,
    /// so revoking twice is no error; any other refusal is one. The key value
    /// itself is left as it was.
    pub fn revoke(&mut self) -> (r: Result<(), KeyStoreError>)
        ensures
            final(self)@ == old(self)@,
            r matches Err(e) ==> !e.is_gone(),
    {
        let ring = match session_keyring() {
            Ok(ring) => ring,
            Err(e) => return settle_revocation(Err(KeyStoreError::from_key_error(e))),
        };
        let found = match keyring_search(&ring, self.key_id.as_str()) {
            Ok(found) => found,
            Err(e) => return settle_revocation(Err(KeyStoreError::from_key_error(e))),
        };
        match key_revoke(&found) {
            Ok(()) => Ok(()),
            Err(e) => settle_revocation(Err(KeyStoreError::from_key_error(e))),
        }
    }
}

/// What a revocation comes to, given what the keyring said to it: a key
/// that is gone counts as revoked.
pub open spec fn settled(answer: Result<(), KeyStoreError>) -> Result<(), KeyStoreError> {
    match answer {
        Ok(_) => Ok(()),
        Err(e) => if e.is_gone() {
            Ok(())
        } else {
            Err(e)
        },
    }
}

/// What a revocation comes to, given what the keyring said to it.
pub fn settle_revocation(answer: Result<(), KeyStoreError>) -> (r: Result<(), KeyStoreError>)
    ensures
        r == settled(answer),
{
    match answer {
        Ok(()) => Ok(()),
        Err(e) => if e.is_gone() {
            Ok(())
        } else {
            Err(e)
        },
    }
}

/// Settling what was settled changes nothing: a revocation that counted as
/// done still does.
pub proof fn lemma_settled_twice(answer: Result<(), KeyStoreError>)
    ensures
        settled(settled(answer)) == settled(answer),
        settled(answer) matches Err(e) ==> !e.is_gone(),
{
}

} // verus!
