//! The calls into the libraries that give randomness, do the cryptography and frame text.
//!
//! Nothing in this module is proved. Each function hands its arguments to one outside
//! function and states what that function is taken to return.

use base64::Engine;
use crypto_box::aead::rand_core::RngCore;
use crypto_box::aead::Aead;
use vstd::prelude::*;

verus! {

/// The failure of `crypto_box` to seal or to open a box. It says nothing of the reason.
#[verifier::external_type_specification]
#[verifier::external_body]
pub struct ExCipherError(crypto_box::aead::Error);

/// The failure of `base64` to decode a text.
#[verifier::external_type_specification]
#[verifier::external_body]
pub struct ExDecodeError(base64::DecodeError);

/// The failure of the operating system to give randomness, as `rand_core` reports it.
#[verifier::external_type_specification]
#[verifier::external_body]
pub struct ExRandomError(crypto_box::aead::rand_core::Error);

/// The bytes of an optional byte vector.
pub open spec fn bytes_of(bytes: Option<Vec<u8>>) -> Option<Seq<u8>> {
    match bytes {
        Some(bytes) => Some(bytes@),
        None => None,
    }
}

/// The bytes that a call returned, or `None` where it failed.
pub open spec fn bytes_returned<E>(result: Result<Vec<u8>, E>) -> Option<Seq<u8>> {
    match result {
        Ok(bytes) => Some(bytes@),
        Err(_) => None,
    }
}

/// The public key that belongs to a secret key: X25519 with the base point, as
/// `crypto_box::SecretKey::public_key` computes it from the 32 bytes of the secret key.
pub uninterp spec fn x25519_public_key(secret: Seq<u8>) -> Seq<u8>;

/// What `crypto_box::SalsaBox` makes of a message: the box of `plaintext` under the key that
/// `secret` and `public` agree on and under `nonce`, or `None` where encryption fails.
pub uninterp spec fn box_sealed(
    secret: Seq<u8>,
    public: Seq<u8>,
    nonce: Seq<u8>,
    plaintext: Seq<u8>,
) -> Option<Seq<u8>>;

/// What `crypto_box::SalsaBox` finds in a box: the message in `sealed` under the key that
/// `secret` and `public` agree on and under `nonce`, or `None` where the box is too short or
/// does not authenticate.
pub uninterp spec fn box_opened(
    secret: Seq<u8>,
    public: Seq<u8>,
    nonce: Seq<u8>,
    sealed: Seq<u8>,
) -> Option<Seq<u8>>;

/// The standard base64 text of `bytes`, with padding, as `base64` writes it.
pub uninterp spec fn base64_text(bytes: Seq<u8>) -> Seq<char>;

/// The bytes that standard base64 text stands for, or `None` where `base64` refuses the text.
pub uninterp spec fn base64_bytes(text: Seq<char>) -> Option<Seq<u8>>;

/// Calls `try_fill_bytes` of `OsRng`, the random source of the operating system that
/// `rand_core` provides and `crypto_box::aead` hands on, on an array of zeros. Nothing is claimed of the bytes but their number, which the
/// type gives, and nothing of when the call succeeds: where the operating system gives no
/// randomness, its failure is returned.
#[verifier::external_body]
pub(crate) fn random_bytes<const N: usize>() -> (bytes: Result<
    [u8; N],
    crypto_box::aead::rand_core::Error,
>) {
    let mut bytes = [0u8; N];
    match crypto_box::aead::OsRng.try_fill_bytes(&mut bytes) {
        Ok(()) => Ok(bytes),
        Err(e) => Err(e),
    }
}

/// Calls `crypto_box::SecretKey::public_key`. The claim: the result is a function of the
/// secret key alone, named `x25519_public_key`.
#[verifier::external_body]
pub(crate) fn derive_public_key(secret: &[u8; 32]) -> (public: [u8; 32])
    ensures
        public@ == x25519_public_key(secret@),
{
    crypto_box::SecretKey::from_bytes(*secret).public_key().to_bytes()
}

/// Calls `encrypt` of `crypto_box::SalsaBox`. The claim: the result is a function of the two
/// keys, the nonce and the message alone, named `box_sealed`. The message must leave room
/// for the 16 bytes of the tag in an allocation.
#[verifier::external_body]
pub(crate) fn box_seal(
    secret: &[u8; 32],
    public: &[u8; 32],
    nonce: &[u8; 24],
    plaintext: &[u8],
) -> (sealed: Result<Vec<u8>, crypto_box::aead::Error>)
    requires
        plaintext@.len() + 16 <= isize::MAX,
    ensures
        bytes_returned(sealed) == box_sealed(secret@, public@, nonce@, plaintext@),
{
    let theirs = crypto_box::PublicKey::from_bytes(*public);
    let ours = crypto_box::SecretKey::from_bytes(*secret);
    crypto_box::SalsaBox::new(&theirs, &ours).encrypt(nonce.into(), plaintext)
}

/// Calls `decrypt` of `crypto_box::SalsaBox`. The claim: the result is a function of the two
/// keys, the nonce and the box alone, named `box_opened`.
#[verifier::external_body]
pub(crate) fn box_open(
    secret: &[u8; 32],
    public: &[u8; 32],
    nonce: &[u8; 24],
    sealed: &[u8],
) -> (opened: Result<Vec<u8>, crypto_box::aead::Error>)
    ensures
        bytes_returned(opened) == box_opened(secret@, public@, nonce@, sealed@),
{
    let theirs = crypto_box::PublicKey::from_bytes(*public);
    let ours = crypto_box::SecretKey::from_bytes(*secret);
    crypto_box::SalsaBox::new(&theirs, &ours).decrypt(nonce.into(), sealed)
}

/// Calls `encode` of `base64::engine::general_purpose::STANDARD`. The claim: the result is a
/// function of the bytes alone, named `base64_text`. The bytes must be few enough for the
/// text, which is a third longer, to fit in an allocation.
#[verifier::external_body]
pub(crate) fn base64_encode(bytes: &[u8]) -> (text: String)
    requires
        bytes@.len() <= isize::MAX / 2,
    ensures
        text@ == base64_text(bytes@),
{
    base64::engine::general_purpose::STANDARD.encode(bytes)
}

/// Calls `decode` of `base64::engine::general_purpose::STANDARD`. The claim: the result is a
/// function of the text alone, named `base64_bytes`.
#[verifier::external_body]
pub(crate) fn base64_decode(text: &str) -> (bytes: Result<Vec<u8>, base64::DecodeError>)
    ensures
        bytes_returned(bytes) == base64_bytes(text@),
{
    base64::engine::general_purpose::STANDARD.decode(text)
}

} // verus!
