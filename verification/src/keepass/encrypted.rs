use vstd::prelude::*;
use aes_gcm::aead::AeadCore;
use aes_gcm::aead::AeadInPlace;
use aes_gcm::aead::KeyInit;
use aes_gcm::Aes256Gcm;
use aes_gcm::Key;
use aes_gcm::Nonce;
use crate::auth::is_token;
use crate::keepass::key::zeros;
use crate::keepass::key::SecretBytes;
use crate::keepass::key::SecretKey;
use crate::keepass::key::ID_LENGTH;
use crate::keepass::key::KEY_LENGTH;

verus! {

/// `aes_gcm::Error`: the cipher's one error, which says nothing of the
/// cause.
#[verifier::external_type_specification]
#[verifier::external_body]
pub struct ExAeadError(aes_gcm::Error);

/// Bytes of zero padding that follow the plaintext inside the ciphertext.
pub const LENGTH_IV: usize = 16;

/// Length of the nonce.
pub const NONCE_LENGTH: usize = 12;

/// Length of the authentication tag at the end of a ciphertext.
pub const TAG_LENGTH: usize = 16;

/// The cipher takes at most this many bytes of plaintext, and as many of
/// associated data.
pub const MAX_LENGTH: u64 = 0x10_0000_0000;

/// AES-256-GCM as a function: the ciphertext, tag included, of `plain` under
/// `key` and `nonce`, bound to `aad`.
pub uninterp spec fn aes256_gcm_seal(
    key: Seq<u8>,
    nonce: Seq<u8>,
    aad: Seq<u8>,
    plain: Seq<u8>,
) -> Seq<u8>;

/// Whether the cipher takes a plaintext of `plain` bytes with `aad` bytes of
/// associated data.
pub open spec fn cipher_takes(plain: nat, aad: nat) -> bool {
    plain <= MAX_LENGTH && aad <= MAX_LENGTH
}

/// A fresh random nonce from `Aes256Gcm::generate_nonce` on the thread-local
/// generator: always `NONCE_LENGTH` bytes, which ones is left to chance.
#[verifier::external_body]
fn random_nonce() -> (nonce: Vec<u8>)
    ensures
        nonce@.len() == NONCE_LENGTH,
{
    Aes256Gcm::generate_nonce(&mut rand::thread_rng()).to_vec()
}

/// A fresh random key from `Aes256Gcm::generate_key` on the thread-local
/// generator: always `KEY_LENGTH` bytes, which ones is left to chance.
#[verifier::external_body]
fn random_key() -> (key: Vec<u8>)
    ensures
        key@.len() == KEY_LENGTH,
{
    Aes256Gcm::generate_key(&mut rand::thread_rng()).to_vec()
}

/// `Aes256Gcm::encrypt_in_place` on a buffer that holds `plain`. The cipher
/// refuses a plaintext or associated data of more than `MAX_LENGTH` bytes;
/// otherwise it hands back the ciphertext, which is as long as the plaintext
/// and the tag together.
#[verifier::external_body]
fn aead_seal(key: &Vec<u8>, nonce: &Vec<u8>, aad: &[u8], plain: Vec<u8>) -> (r: Result<Vec<u8>, aes_gcm::Error>)
    requires
        key@.len() == KEY_LENGTH,
        nonce@.len() == NONCE_LENGTH,
    ensures
        r is Ok <==> cipher_takes(plain@.len(), aad@.len()),
        r matches Ok(sealed) ==> sealed@ == aes256_gcm_seal(key@, nonce@, aad@, plain@),
        r matches Ok(sealed) ==> sealed@.len() == plain@.len() + TAG_LENGTH,
{
    let mut buffer = plain;
    let cipher = Aes256Gcm::new(Key::<Aes256Gcm>::from_slice(key));
    cipher.encrypt_in_place(Nonce::from_slice(nonce), aad, &mut buffer)?;
    Ok(buffer)
}

/// `Aes256Gcm::decrypt_in_place` on a buffer that holds `sealed`. It inverts
/// the sealing: where `sealed` is the ciphertext of some plaintext under this
/// key, nonce and associated data, the call succeeds with that plaintext;
/// where it succeeds, what it hands back is a plaintext whose ciphertext
/// `sealed` is.
#[verifier::external_body]
fn aead_open(key: &Vec<u8>, nonce: &Vec<u8>, aad: &[u8], sealed: Vec<u8>) -> (r: Result<Vec<u8>, aes_gcm::Error>)
    requires
        key@.len() == KEY_LENGTH,
        nonce@.len() == NONCE_LENGTH,
    ensures
        r matches Ok(plain) ==> aes256_gcm_seal(key@, nonce@, aad@, plain@) == sealed@,
        r matches Ok(plain) ==> plain@.len() + TAG_LENGTH == sealed@.len(),
        forall|plain: Seq<u8>|
            cipher_takes(plain.len(), aad@.len()) && #[trigger] aes256_gcm_seal(
                key@,
                nonce@,
                aad@,
                plain,
            ) == sealed@ ==> r is Ok && r->Ok_0@ == plain,
{
    let mut buffer = sealed;
    let cipher = Aes256Gcm::new(Key::<Aes256Gcm>::from_slice(key));
    cipher.decrypt_in_place(Nonce::from_slice(nonce), aad, &mut buffer)?;
    Ok(buffer)
}

/// Why a vault could not be encrypted or decrypted.
#[derive(Debug, Clone, Copy, PartialEq, Eq, Structural)]
pub enum CryptoError {
    /// The key material is not `KEY_LENGTH` bytes long.
    KeyLength,
    /// The nonce is not `NONCE_LENGTH` bytes long.
    NonceLength,
    /// The plaintext or the associated data is longer than the cipher takes.
    TooLong,
    /// The ciphertext is not one that this key, nonce and associated data
    /// produce from a padded plaintext.
    Rejected,
}

/// One serialized vault in encrypted form, with the time at which it stops
/// being served.
pub struct Encrypted {
    data: Vec<u8>,
    iv: Vec<u8>,
    expiry: u64,
}

/// What a `Encrypted` holds, as mathematical values.
pub struct EncryptedView {
    pub data: Seq<u8>,
    pub iv: Seq<u8>,
    pub expiry: u64,
}

impl View for Encrypted {
    type V = EncryptedView;

    closed spec fn view(&self) -> EncryptedView {
        EncryptedView { data: self.data@, iv: self.iv@, expiry: self.expiry }
    }
}

/// The zero bytes that follow the plaintext before it is sealed.
pub open spec fn padding() -> Seq<u8> {
    Seq::new(LENGTH_IV as nat, |i: int| 0u8)
}

/// The ciphertext of a blob made from `input`: the sealing of the input
/// followed by the padding.
pub open spec fn sealed(key: Seq<u8>, iv: Seq<u8>, aad: Seq<u8>, input: Seq<u8>) -> Seq<u8> {
    aes256_gcm_seal(key, iv, aad, input + padding())
}

/// Whether `plain`, followed by `LENGTH_IV` bytes of whatever value, is a
/// plaintext that the cipher seals to `data`.
pub open spec fn opens_to(
    key: Seq<u8>,
    iv: Seq<u8>,
    aad: Seq<u8>,
    data: Seq<u8>,
    plain: Seq<u8>,
) -> bool {
    exists|tail: Seq<u8>|
        tail.len() == LENGTH_IV && #[trigger] aes256_gcm_seal(key, iv, aad, plain + tail) == data
}

/// Whether a buffer of `input` bytes with `aad` bytes of associated data is
/// within what the cipher takes once the padding is added.
pub open spec fn fits(input: nat, aad: nat) -> bool {
    input + LENGTH_IV <= MAX_LENGTH && aad <= MAX_LENGTH
}

impl Clone for Encrypted {
    fn clone(&self) -> (copy: Self)
        ensures
            copy@ == self@,
    {
        Encrypted { data: self.data.clone(), iv: self.iv.clone(), expiry: self.expiry }
    }
}

impl Encrypted {
    /// Encrypts `input` under a fresh random key and nonce. The blob expires
    /// `timeout` milliseconds after `now`; the key comes back beside it under a
    /// fresh id and is stored nowhere yet. The ciphertext is as long as the
    /// input, the padding and the tag together.
    ///
    /// The call succeeds on every input that fits the cipher.
    pub fn encrypt(input: Vec<u8>, aad: &[u8], now: u64, timeout: u64) -> (r: Result<
        (SecretKey, Encrypted),
        CryptoError,
    >)
        requires
            now + timeout <= u64::MAX,
        ensures
            r is Ok <==> fits(input@.len(), aad@.len()),
            r is Err ==> r == Err::<(SecretKey, Encrypted), CryptoError>(CryptoError::TooLong),
            r matches Ok((key, enc)) ==> {
                &&& is_token(key@.key_id, ID_LENGTH as nat)
                &&& key@.timeout == 0
                &&& key@.data.len() == KEY_LENGTH
                &&& enc@.iv.len() == NONCE_LENGTH
                &&& enc@.expiry == now + timeout
                &&& enc@.data == sealed(key@.data, enc@.iv, aad@, input@)
                &&& enc@.data.len() == input@.len() + LENGTH_IV + TAG_LENGTH
            },
    {
        let nonce = random_nonce();
        let material = random_key();
        match Self::encrypt_with(input, aad, &material, nonce, now + timeout) {
            Ok(enc) => Ok((SecretKey::new(material), enc)),
            Err(e) => Err(e),
        }
    }

    /// Encrypts `input` under the given key material and nonce, into a blob
    /// that expires at `expiry`.
    pub fn encrypt_with(
        input: Vec<u8>,
        aad: &[u8],
        material: &Vec<u8>,
        nonce: Vec<u8>,
        expiry: u64,
    ) -> (r: Result<Encrypted, CryptoError>)
        ensures
            r is Ok <==> material@.len() == KEY_LENGTH && nonce@.len() == NONCE_LENGTH && fits(
                input@.len(),
                aad@.len(),
            ),
            r matches Ok(enc) ==> enc@ == (EncryptedView {
                data: sealed(material@, nonce@, aad@, input@),
                iv: nonce@,
                expiry: expiry,
            }),
            r matches Ok(enc) ==> enc@.data.len() == input@.len() + LENGTH_IV + TAG_LENGTH,
            r matches Err(e) ==> e == (if material@.len() != KEY_LENGTH {
                CryptoError::KeyLength
            } else if nonce@.len() != NONCE_LENGTH {
                CryptoError::NonceLength
            } else {
                CryptoError::TooLong
            }),
    {
        if material.len() != KEY_LENGTH {
            return Err(CryptoError::KeyLength);
        }
        if nonce.len() != NONCE_LENGTH {
            return Err(CryptoError::NonceLength);
        }
        if input.len() as u64 > MAX_LENGTH - LENGTH_IV as u64 {
            return Err(CryptoError::TooLong);
        }
        let mut data = input;
        let mut pad = zeros(LENGTH_IV);
        data.append(&mut pad);
        assert(data@ == input@ + padding());
        match aead_seal(material, &nonce, aad, data) {
            Ok(data) => Ok(Encrypted { data, iv: nonce, expiry }),
            Err(_) => Err(CryptoError::TooLong),
        }
    }

    /// Decrypts the blob with `key` and hands back the bytes that were
    /// encrypted, without the padding.
    ///
    /// What `encrypt` made from a buffer decrypts to that buffer under the
    /// key that `encrypt` returned and the same associated data. A blob that
    /// this key does not open is rejected.
    pub fn decrypt(self, key: SecretKey, aad: &[u8]) -> (r: Result<SecretBytes, CryptoError>)
        ensures
            forall|input: Seq<u8>|
                key@.data.len() == KEY_LENGTH && self@.iv.len() == NONCE_LENGTH && fits(
                    input.len(),
                    aad@.len(),
                ) && #[trigger] sealed(key@.data, self@.iv, aad@, input) == self@.data ==> r is Ok
                    && r->Ok_0@ == input,
            r matches Ok(plain) ==> key@.data.len() == KEY_LENGTH && self@.iv.len()
                == NONCE_LENGTH && opens_to(key@.data, self@.iv, aad@, self@.data, plain@),
            r matches Err(e) ==> e == (if key@.data.len() != KEY_LENGTH {
                CryptoError::KeyLength
            } else if self@.iv.len() != NONCE_LENGTH {
                CryptoError::NonceLength
            } else {
                CryptoError::Rejected
            }),
    {
        let material = key.expose_secret();
        if material.len() != KEY_LENGTH {
            return Err(CryptoError::KeyLength);
        }
        if self.iv.len() != NONCE_LENGTH {
            return Err(CryptoError::NonceLength);
        }
        let mut data = match aead_open(material, &self.iv, aad, self.data) {
            Ok(data) => data,
            Err(_) => return Err(CryptoError::Rejected),
        };
        if data.len() < LENGTH_IV {
            return Err(CryptoError::Rejected);
        }
        let ghost opened = data@;
        let kept: usize = data.len() - LENGTH_IV;
        data.truncate(kept);
        proof {
            let tail = opened.subrange(kept as int, opened.len() as int);
            assert(data@ + tail == opened);
            assert(aes256_gcm_seal(key@.data, self@.iv, aad@, data@ + tail) == self@.data);
            assert(opens_to(key@.data, self@.iv, aad@, self@.data, data@));
            assert forall|input: Seq<u8>|
                fits(input.len(), aad@.len()) && #[trigger] sealed(
                    key@.data,
                    self@.iv,
                    aad@,
                    input,
                ) == self@.data implies data@ == input by {
                assert(opened == input + padding());
                assert(data@ == (input + padding()).subrange(0, kept as int));
            }
        }
        Ok(SecretBytes::new(data))
    }

    /// A blob made of its parts, as they are.
    pub fn from_parts(data: Vec<u8>, iv: Vec<u8>, expiry: u64) -> (blob: Self)
        ensures
            blob@ == (EncryptedView { data: data@, iv: iv@, expiry: expiry }),
    {
        Encrypted { data, iv, expiry }
    }

    /// The ciphertext.
    pub fn data(&self) -> (data: &Vec<u8>)
        ensures
            data@ == self@.data,
    {
        &self.data
    }

    /// The nonce.
    pub fn iv(&self) -> (iv: &Vec<u8>)
        ensures
            iv@ == self@.iv,
    {
        &self.iv
    }

    /// The time, in milliseconds, from which on the blob is no longer served.
    pub fn expiry(&self) -> (expiry: u64)
        ensures
            expiry == self@.expiry,
    {
        self.expiry
    }

    /// Moves the expiry to `timeout` milliseconds after `now`. The ciphertext
    /// and the nonce stay as they are.
    pub fn update_expiry(&mut self, now: u64, timeout: u64)
        requires
            now + timeout <= u64::MAX,
        ensures
            final(self)@ == (EncryptedView { expiry: (now + timeout) as u64, ..old(self)@ }),
    {
        self.expiry = now + timeout;
    }
}

} // verus!
