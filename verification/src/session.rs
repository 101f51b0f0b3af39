//! The session with the password manager.
//!
//! Each invocation makes a key pair and a client identifier of its own and offers the public
//! key to the password manager, which answers with its public key. From then on every message
//! travels in a box that is sealed under the two keys and a fresh nonce, framed as base64
//! text. Keys and identifier live as long as the invocation and are never stored.

use crate::crypto::{
    base64_bytes, base64_decode, base64_encode, base64_text, box_open, box_opened, box_seal,
    box_sealed, bytes_of, derive_public_key, random_bytes, x25519_public_key,
};
use crate::error::HelperError;
use crate::text::{number_within, parse_number, str_text_of};
use vstd::prelude::*;

verus! {

/// A message of this length can be sealed: with the 16 bytes of its tag it fits in an
/// allocation.
pub open spec fn sealable(length: nat) -> bool {
    length + 16 <= isize::MAX
}

/// A box of this length can be framed: its base64 text, a third longer, fits in an
/// allocation.
pub open spec fn frameable(length: nat) -> bool {
    length <= isize::MAX / 2
}

/// Draws bytes from the random source of the operating system, which may fail to give any.
pub(crate) fn fresh_bytes<const N: usize>() -> (r: Result<[u8; N], HelperError>)
    ensures
        r matches Err(e) ==> e == HelperError::NoRandomness,
{
    match random_bytes::<N>() {
        Ok(bytes) => Ok(bytes),
        Err(_) => Err(HelperError::NoRandomness),
    }
}

/// What the helper offers to open a session: the request to change public keys, together with
/// the secret key that stays with the helper.
pub struct SessionOffer {
    /// The identifier that the helper goes by in this session.
    pub client_id: String,
    /// The secret key of the session.
    pub secret_key: [u8; 32],
    /// The public key of the session, which the request carries.
    pub public_key: [u8; 32],
}

/// An open session.
pub struct Session {
    pub client_id: String,
    pub secret_key: [u8; 32],
    pub host_public_key: [u8; 32],
}

/// An offer as plain values.
pub struct SessionOfferView {
    pub client_id: Seq<char>,
    pub secret_key: Seq<u8>,
    pub public_key: Seq<u8>,
}

/// A session as plain values.
pub struct SessionView {
    pub client_id: Seq<char>,
    pub secret_key: Seq<u8>,
    pub host_public_key: Seq<u8>,
}

impl View for SessionOffer {
    type V = SessionOfferView;

    open spec fn view(&self) -> SessionOfferView {
        SessionOfferView {
            client_id: self.client_id@,
            secret_key: self.secret_key@,
            public_key: self.public_key@,
        }
    }
}

impl View for Session {
    type V = SessionView;

    open spec fn view(&self) -> SessionView {
        SessionView {
            client_id: self.client_id@,
            secret_key: self.secret_key@,
            host_public_key: self.host_public_key@,
        }
    }
}

/// The offer that goes with a secret key and the bytes of a client identifier: the public key
/// is the one of the secret key, and the identifier is the base64 text of the bytes.
pub open spec fn offer_of(secret_key: Seq<u8>, client_nonce: Seq<u8>) -> SessionOfferView {
    SessionOfferView {
        client_id: base64_text(client_nonce),
        secret_key,
        public_key: x25519_public_key(secret_key),
    }
}

/// Makes the offer for a secret key and the bytes of a client identifier.
pub fn session_offer(secret_key: [u8; 32], client_nonce: [u8; 24]) -> (offer: SessionOffer)
    ensures
        offer@ == offer_of(secret_key@, client_nonce@),
{
    let public_key = derive_public_key(&secret_key);
    let client_id = base64_encode(client_nonce.as_slice());
    SessionOffer { client_id, secret_key, public_key }
}

/// Starts a session: makes a fresh key pair and a throwaway client identifier. The result is
/// the offer for some secret key and some identifier bytes, which chance picks. It fails only
/// where the operating system gives no randomness.
pub fn start_session() -> (r: Result<SessionOffer, HelperError>)
    ensures
        match r {
            Ok(offer) => exists|client_nonce: Seq<u8>|
                client_nonce.len() == 24 && offer@ == #[trigger] offer_of(
                    offer@.secret_key,
                    client_nonce,
                ),
            Err(e) => e == HelperError::NoRandomness,
        },
{
    let secret_key = match fresh_bytes::<32>() {
        Ok(bytes) => bytes,
        Err(e) => {
            return Err(e);
        },
    };
    let client_nonce = match fresh_bytes::<24>() {
        Ok(bytes) => bytes,
        Err(e) => {
            return Err(e);
        },
    };
    let offer = session_offer(secret_key, client_nonce);
    assert(client_nonce@.len() == 24 && offer@ == offer_of(offer@.secret_key, client_nonce@));
    let ghost made = offer@;
    let r = Ok(offer);
    assert(r->Ok_0@ == made);
    r
}

/// The key that the password manager sent, where it is usable: 32 bytes.
pub open spec fn usable_key(host_key: Option<Seq<u8>>) -> Option<Seq<u8>> {
    match host_key {
        Some(key) => if key.len() == 32 {
            Some(key)
        } else {
            None
        },
        None => None,
    }
}

/// The session that comes of an offer and a usable key of the password manager.
pub open spec fn session_of(offer: SessionOfferView, host_key: Seq<u8>) -> SessionView {
    SessionView {
        client_id: offer.client_id,
        secret_key: offer.secret_key,
        host_public_key: host_key,
    }
}

/// Copies 32 bytes into a key.
fn key_from(bytes: &Vec<u8>) -> (key: [u8; 32])
    requires
        bytes.len() == 32,
    ensures
        key@ == bytes@,
{
    let mut key = [0u8; 32];
    let mut i: usize = 0;
    while i < 32
        invariant
            i <= 32,
            bytes.len() == 32,
            forall|j: int| 0 <= j < i ==> key@[j] == bytes@[j],
        decreases 32 - i,
    {
        key[i] = bytes[i];
        i = i + 1;
    }
    key
}

/// Copies 24 bytes into a nonce.
fn nonce_from(bytes: &Vec<u8>) -> (nonce: [u8; 24])
    requires
        bytes.len() == 24,
    ensures
        nonce@ == bytes@,
{
    let mut nonce = [0u8; 24];
    let mut i: usize = 0;
    while i < 24
        invariant
            i <= 24,
            bytes.len() == 24,
            forall|j: int| 0 <= j < i ==> nonce@[j] == bytes@[j],
        decreases 24 - i,
    {
        nonce[i] = bytes[i];
        i = i + 1;
    }
    nonce
}

/// Opens the session with the key that the password manager returned, given as its bytes.
/// Without a key of 32 bytes the handshake has failed.
pub fn accept_host_key(offer: SessionOffer, host_key: Option<Vec<u8>>) -> (r: Result<
    Session,
    HelperError,
>)
    ensures
        match usable_key(bytes_of(host_key)) {
            Some(key) => r is Ok && r->Ok_0@ == session_of(offer@, key),
            None => r is Err && r->Err_0 == HelperError::Handshake,
        },
{
    match host_key {
        Some(bytes) => {
            if bytes.len() == 32 {
                let host_public_key = key_from(&bytes);
                Ok(
                    Session {
                        client_id: offer.client_id,
                        secret_key: offer.secret_key,
                        host_public_key,
                    },
                )
            } else {
                Err(HelperError::Handshake)
            }
        },
        None => Err(HelperError::Handshake),
    }
}

/// Decodes base64 text; `None` stands for text that does not decode.
fn decode_text(text: &str) -> (bytes: Option<Vec<u8>>)
    ensures
        bytes_of(bytes) == base64_bytes(text@),
{
    match base64_decode(text) {
        Ok(bytes) => Some(bytes),
        Err(_) => None,
    }
}

/// The bytes of an optional base64 text.
pub open spec fn decoded_text(text: Option<&str>) -> Option<Seq<u8>> {
    match text {
        Some(text) => base64_bytes(text@),
        None => None,
    }
}

/// Finishes the exchange of keys: `host_key` is the public key in the answer of the password
/// manager, as base64 text, or `None` where the answer holds none. The session opens with a
/// key that decodes to 32 bytes, and the handshake fails with anything else.
pub fn exchange_keys(offer: SessionOffer, host_key: Option<&str>) -> (r: Result<
    Session,
    HelperError,
>)
    ensures
        match usable_key(decoded_text(host_key)) {
            Some(key) => r is Ok && r->Ok_0@ == session_of(offer@, key),
            None => r is Err && r->Err_0 == HelperError::Handshake,
        },
{
    let decoded = match host_key {
        Some(text) => decode_text(text),
        None => None,
    };
    accept_host_key(offer, decoded)
}

/// The kinds of message that the helper sends.
#[derive(Clone, Copy, Debug, PartialEq, Eq, Structural)]
pub enum Action {
    ChangePublicKeys,
    Associate,
    TestAssociate,
    GetDatabaseHash,
    CreateNewGroup,
    GetLogins,
    SetLogin,
}

impl Action {
    /// The name by which the password manager knows the kind of message.
    pub open spec fn wire_name(self) -> Seq<char> {
        match self {
            Action::ChangePublicKeys => "change-public-keys"@,
            Action::Associate => "associate"@,
            Action::TestAssociate => "test-associate"@,
            Action::GetDatabaseHash => "get-databasehash"@,
            Action::CreateNewGroup => "create-new-group"@,
            Action::GetLogins => "get-logins"@,
            Action::SetLogin => "set-login"@,
        }
    }

    /// Whether messages of this kind travel sealed. Only the exchange of keys, which sets the
    /// keys up, does not.
    pub open spec fn sealed(self) -> bool {
        self != Action::ChangePublicKeys
    }

    pub fn name(self) -> (name: &'static str)
        ensures
            name@ == self.wire_name(),
    {
        match self {
            Action::ChangePublicKeys => "change-public-keys",
            Action::Associate => "associate",
            Action::TestAssociate => "test-associate",
            Action::GetDatabaseHash => "get-databasehash",
            Action::CreateNewGroup => "create-new-group",
            Action::GetLogins => "get-logins",
            Action::SetLogin => "set-login",
        }
    }

    pub fn is_sealed(self) -> (sealed: bool)
        ensures
            sealed == self.sealed(),
    {
        match self {
            Action::ChangePublicKeys => false,
            _ => true,
        }
    }
}

/// The error code with which the password manager reports that the database is not open.
pub const DATABASE_NOT_OPENED: u64 = 1;

/// The error code with which the password manager reports that it holds no entry for a URL.
pub const NO_LOGINS_FOUND: u64 = 15;

/// What the failure of an exchange counts as, by the error code that the password manager
/// gave as text: the code for a database that is not open is the report of a locked
/// database, the code for no entries is the lack of a matching login, and anything else, or
/// no code, is a protocol failure.
pub open spec fn peer_failure_of(error_code: Option<Seq<char>>) -> HelperError {
    match error_code {
        Some(text) => match number_within(text, u64::MAX as nat) {
            Some(code) => if code == DATABASE_NOT_OPENED {
                HelperError::DatabaseLocked
            } else if code == NO_LOGINS_FOUND {
                HelperError::NoMatchingLogin
            } else {
                HelperError::Protocol
            },
            None => HelperError::Protocol,
        },
        None => HelperError::Protocol,
    }
}

/// Classifies the failure that the password manager reported with `error_code`.
pub fn peer_failure(error_code: Option<&str>) -> (failure: HelperError)
    ensures
        failure == peer_failure_of(str_text_of(error_code)),
{
    match error_code {
        Some(text) => {
            match parse_number(text) {
                Some(code) => if code == DATABASE_NOT_OPENED {
                    HelperError::DatabaseLocked
                } else if code == NO_LOGINS_FOUND {
                    HelperError::NoMatchingLogin
                } else {
                    HelperError::Protocol
                },
                None => HelperError::Protocol,
            }
        },
        None => HelperError::Protocol,
    }
}

/// A sealed message as it travels: the box and its nonce as base64 text, beside the client
/// identifier.
#[derive(Clone, Debug, PartialEq, Eq)]
pub struct Envelope {
    pub message: String,
    pub nonce: String,
    pub client_id: String,
}

/// An envelope as plain text.
pub struct EnvelopeView {
    pub message: Seq<char>,
    pub nonce: Seq<char>,
    pub client_id: Seq<char>,
}

impl View for Envelope {
    type V = EnvelopeView;

    open spec fn view(&self) -> EnvelopeView {
        EnvelopeView { message: self.message@, nonce: self.nonce@, client_id: self.client_id@ }
    }
}

/// The envelope of a box: `None` where there is no box or where the box is too long to be
/// framed.
pub open spec fn envelope_of(
    session: SessionView,
    nonce: Seq<u8>,
    sealed: Option<Seq<u8>>,
) -> Option<EnvelopeView> {
    match sealed {
        Some(sealed) => if frameable(sealed.len()) {
            Some(
                EnvelopeView {
                    message: base64_text(sealed),
                    nonce: base64_text(nonce),
                    client_id: session.client_id,
                },
            )
        } else {
            None
        },
        None => None,
    }
}

/// Frames a box for sending.
pub fn frame_box(session: &Session, nonce: &[u8; 24], sealed: Option<Vec<u8>>) -> (r: Result<
    Envelope,
    HelperError,
>)
    ensures
        match envelope_of(session@, nonce@, bytes_of(sealed)) {
            Some(envelope) => r is Ok && r->Ok_0@ == envelope,
            None => r is Err && r->Err_0 == HelperError::Protocol,
        },
{
    match sealed {
        Some(sealed) => {
            if sealed.len() <= usize::MAX / 4 {
                Ok(
                    Envelope {
                        message: base64_encode(sealed.as_slice()),
                        nonce: base64_encode(nonce.as_slice()),
                        client_id: session.client_id.clone(),
                    },
                )
            } else {
                Err(HelperError::Protocol)
            }
        },
        None => Err(HelperError::Protocol),
    }
}

/// The box of a message under the keys of the session and a nonce: `None` where the message
/// is too long to be sealed.
pub open spec fn sealed_message(session: SessionView, nonce: Seq<u8>, payload: Seq<u8>) -> Option<
    Seq<u8>,
> {
    if sealable(payload.len()) {
        box_sealed(session.secret_key, session.host_public_key, nonce, payload)
    } else {
        None
    }
}

/// Seals a message for the password manager under the keys of the session and `nonce`, and
/// frames it for sending. A message that is too long or cannot be sealed is a protocol
/// failure.
pub fn seal_message(session: &Session, nonce: &[u8; 24], payload: &Vec<u8>) -> (r: Result<
    Envelope,
    HelperError,
>)
    ensures
        match envelope_of(session@, nonce@, sealed_message(session@, nonce@, payload@)) {
            Some(envelope) => r is Ok && r->Ok_0@ == envelope,
            None => r is Err && r->Err_0 == HelperError::Protocol,
        },
{
    let sealed = if payload.len() <= usize::MAX / 2 - 16 {
        match box_seal(&session.secret_key, &session.host_public_key, nonce, payload.as_slice()) {
            Ok(sealed) => Some(sealed),
            Err(_) => None,
        }
    } else {
        None
    };
    frame_box(session, nonce, sealed)
}

/// Seals a message under a nonce that chance picks, and returns the nonce with the envelope.
/// The envelope is the one of the message under that nonce. It fails where the operating
/// system gives no randomness, and with a protocol failure where the message has no envelope
/// under the nonce that was picked.
pub fn seal_with_fresh_nonce(session: &Session, payload: &Vec<u8>) -> (r: Result<
    ([u8; 24], Envelope),
    HelperError,
>)
    ensures
        match r {
            Ok((nonce, envelope)) => envelope_of(
                session@,
                nonce@,
                sealed_message(session@, nonce@, payload@),
            ) == Some(envelope@),
            Err(e) => e == HelperError::NoRandomness || (e == HelperError::Protocol
                && exists|nonce: Seq<u8>|
                nonce.len() == 24 && (#[trigger] envelope_of(
                    session@,
                    nonce,
                    sealed_message(session@, nonce, payload@),
                )) is None),
        },
{
    let nonce = match fresh_bytes::<24>() {
        Ok(bytes) => bytes,
        Err(e) => {
            return Err(e);
        },
    };
    match seal_message(session, &nonce, payload) {
        Ok(envelope) => Ok((nonce, envelope)),
        Err(e) => {
            Err(e)
        },
    }
}

/// What is read from a frame whose parts have been decoded: the nonce must be 24 bytes, the
/// box must be there, and it must open under the keys of the session.
pub open spec fn opened_frame(
    session: SessionView,
    nonce: Option<Seq<u8>>,
    sealed: Option<Seq<u8>>,
) -> Option<Seq<u8>> {
    match (nonce, sealed) {
        (Some(nonce), Some(sealed)) => if nonce.len() == 24 {
            box_opened(session.secret_key, session.host_public_key, nonce, sealed)
        } else {
            None
        },
        _ => None,
    }
}

/// Opens a frame whose nonce and box have been decoded from their text; `None` stands for a
/// part that did not decode. Whatever is wrong with the frame is a protocol failure.
pub fn open_frame(session: &Session, nonce: Option<Vec<u8>>, sealed: Option<Vec<u8>>) -> (r: Result<
    Vec<u8>,
    HelperError,
>)
    ensures
        match opened_frame(session@, bytes_of(nonce), bytes_of(sealed)) {
            Some(payload) => r is Ok && r->Ok_0@ == payload,
            None => r is Err && r->Err_0 == HelperError::Protocol,
        },
{
    match (nonce, sealed) {
        (Some(nonce), Some(sealed)) => {
            if nonce.len() == 24 {
                let nonce = nonce_from(&nonce);
                match box_open(
                    &session.secret_key,
                    &session.host_public_key,
                    &nonce,
                    sealed.as_slice(),
                ) {
                    Ok(payload) => Ok(payload),
                    Err(_) => Err(HelperError::Protocol),
                }
            } else {
                Err(HelperError::Protocol)
            }
        },
        _ => Err(HelperError::Protocol),
    }
}

/// Opens a message of the password manager from the nonce and the box of its envelope, both
/// as base64 text. A nonce or a box that is malformed, and a box that does not open, are
/// protocol failures.
pub fn open_message(session: &Session, nonce: &str, message: &str) -> (r: Result<
    Vec<u8>,
    HelperError,
>)
    ensures
        match opened_frame(session@, base64_bytes(nonce@), base64_bytes(message@)) {
            Some(payload) => r is Ok && r->Ok_0@ == payload,
            None => r is Err && r->Err_0 == HelperError::Protocol,
        },
{
    let nonce = decode_text(nonce);
    let sealed = decode_text(message);
    open_frame(session, nonce, sealed)
}

} // verus!
