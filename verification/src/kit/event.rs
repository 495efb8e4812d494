//! Lark event callbacks (`POST /lark/event`) shared by the link-preview Apps:
//! AES-256-CBC decryption, the challenge handshake, the token check and the
//! `url.preview.get` classification. Each App only supplies the URL-to-card
//! lookup for [`Callback::Preview`].
//!
//! The HTTP edge parses JSON into an [`Envelope`]; an encrypted envelope is
//! decrypted here and its plaintext parsed at the edge again.

use vstd::prelude::*;
use vstd::utf8::encode_utf8;
use vstd::string::StringSliceAdditionalSpecFns;
use sha2::Digest;
use cbc::cipher::{BlockDecryptMut, KeyIvInit};
use crate::kit::config::opt_view;
use crate::kit::utils::{base64_decode, base64_decode_str};
use crate::text::str_eq;

verus! {

/// The classified outcome of a Lark event callback.
#[derive(Debug, Clone, PartialEq, Eq)]
pub enum Callback {
    /// Body was not valid JSON: respond `400`.
    BadRequest,
    /// `url_verification` handshake: echo this challenge back.
    Challenge(String),
    /// Decryption or token verification failed: respond `401`.
    Unauthorized,
    /// A `url.preview.get` for this URL: the App fetches and builds a card.
    Preview { url: String },
    /// Any other event: respond `200 {}`.
    Ignored,
}

/// The mathematical value of a [`Callback`].
pub enum CallbackView {
    BadRequest,
    Challenge(Seq<char>),
    Unauthorized,
    Preview(Seq<char>),
    Ignored,
}

impl View for Callback {
    type V = CallbackView;

    open spec fn view(&self) -> CallbackView {
        match self {
            Callback::BadRequest => CallbackView::BadRequest,
            Callback::Challenge(c) => CallbackView::Challenge(c@),
            Callback::Unauthorized => CallbackView::Unauthorized,
            Callback::Preview { url } => CallbackView::Preview(url@),
            Callback::Ignored => CallbackView::Ignored,
        }
    }
}

/// The string fields of a callback body that classification reads; each is
/// `None` when absent or not a string.
#[derive(Debug, Clone, Default)]
pub struct Envelope {
    /// `encrypt`: the encrypted body.
    pub encrypt: Option<String>,
    /// `type`.
    pub kind: Option<String>,
    /// `challenge`.
    pub challenge: Option<String>,
    /// `header.token`.
    pub token: Option<String>,
    /// `header.event_type`.
    pub event_type: Option<String>,
    /// `event.context.url`.
    pub context_url: Option<String>,
    /// `event.url`.
    pub event_url: Option<String>,
    /// `event.body.url`.
    pub body_url: Option<String>,
}

/// `o`, or `""` when absent.
pub open spec fn or_empty(o: Option<String>) -> Seq<char> {
    match o {
        Some(s) => s@,
        None => Seq::empty(),
    }
}

/// The URL of a `url.preview.get` event across the shapes Lark has used:
/// `event.context.url`, then `event.url`, then `event.body.url`, else `""`.
pub open spec fn preview_url_spec(v: Envelope) -> Seq<char> {
    if v.context_url is Some {
        v.context_url->0@
    } else if v.event_url is Some {
        v.event_url->0@
    } else {
        or_empty(v.body_url)
    }
}

/// How a (decrypted) body is classified.
pub open spec fn classify_value_spec(v: Envelope, verification_token: Option<Seq<char>>) -> CallbackView {
    if opt_view(v.kind) == Some("url_verification"@) {
        CallbackView::Challenge(or_empty(v.challenge))
    } else if verification_token is Some && or_empty(v.token) != verification_token->0 {
        CallbackView::Unauthorized
    } else if or_empty(v.event_type) == "url.preview.get"@ {
        CallbackView::Preview(preview_url_spec(v))
    } else {
        CallbackView::Ignored
    }
}

/// Clones `o`, or `""` when absent.
fn clone_or_empty(o: &Option<String>) -> (s: String)
    ensures
        s@ == or_empty(*o),
{
    match o {
        Some(s) => s.clone(),
        None => String::new(),
    }
}

/// Classifies a body that needs no decryption (or already was decrypted):
/// the handshake first, then the token check (when a token is configured),
/// then the event type.
pub fn classify_value(v: &Envelope, verification_token: Option<&str>) -> (c: Callback)
    ensures
        c@ == classify_value_spec(*v, match verification_token { Some(t) => Some(t@), None => None }),
{
    let is_handshake = match &v.kind {
        Some(k) => str_eq(k.as_str(), "url_verification"),
        None => false,
    };
    if is_handshake {
        return Callback::Challenge(clone_or_empty(&v.challenge));
    }
    if let Some(expected) = verification_token {
        let incoming = clone_or_empty(&v.token);
        if !str_eq(incoming.as_str(), expected) {
            return Callback::Unauthorized;
        }
    }
    let event_type = clone_or_empty(&v.event_type);
    if str_eq(event_type.as_str(), "url.preview.get") {
        let url = match &v.context_url {
            Some(u) => u.clone(),
            None => match &v.event_url {
                Some(u) => u.clone(),
                None => clone_or_empty(&v.body_url),
            },
        };
        return Callback::Preview { url };
    }
    Callback::Ignored
}

/// SHA-256 of `data`.
pub uninterp spec fn sha256(data: Seq<u8>) -> Seq<u8>;

/// The plaintext AES-256-CBC decryption with PKCS#7 unpadding gives for
/// `ciphertext` under `key` and `iv`, or `None` when it fails.
pub uninterp spec fn aes256_cbc_pkcs7_decrypt(key: Seq<u8>, iv: Seq<u8>, ciphertext: Seq<u8>) -> Option<Seq<u8>>;

/// `sha2::Sha256::digest`; the result is named [`sha256`] of the input and is
/// 32 bytes long.
#[verifier::external_body]
fn sha256_digest(data: &[u8]) -> (d: Vec<u8>)
    ensures
        d@ == sha256(data@),
        d@.len() == 32,
{
    sha2::Sha256::digest(data).to_vec()
}

/// `cbc::Decryptor::<aes::Aes256>::new_from_slices(key, iv)` then
/// `decrypt_padded_mut::<Pkcs7>` on a copy of `ciphertext`; either error maps
/// to `None`. The outcome is named [`aes256_cbc_pkcs7_decrypt`] of the three
/// inputs.
#[verifier::external_body]
fn aes256_cbc_decrypt(key: &[u8], iv: &[u8], ciphertext: &[u8]) -> (p: Option<Vec<u8>>)
    ensures
        match p {
            Some(v) => aes256_cbc_pkcs7_decrypt(key@, iv@, ciphertext@) == Some(v@),
            None => aes256_cbc_pkcs7_decrypt(key@, iv@, ciphertext@) is None,
        },
{
    let decryptor = cbc::Decryptor::<aes::Aes256>::new_from_slices(key, iv).ok()?;
    let mut buf = ciphertext.to_vec();
    decryptor.decrypt_padded_mut::<cbc::cipher::block_padding::Pkcs7>(&mut buf).ok().map(|p| p.to_vec())
}

/// What a Lark envelope decrypts to: key = SHA-256 of the Encrypt Key, the
/// base64 text split into a 16-byte IV and the ciphertext; `None` when the
/// text is not base64, shorter than 16 bytes, or does not decrypt.
pub open spec fn decrypt_spec(encrypt_key: Seq<char>, encrypted: Seq<char>) -> Option<Seq<u8>> {
    match base64_decode(encrypted) {
        None => None,
        Some(bytes) => if bytes.len() < 16 {
            None
        } else {
            aes256_cbc_pkcs7_decrypt(sha256(encode_utf8(encrypt_key)), bytes.take(16), bytes.skip(16))
        },
    }
}

/// Decrypts a Lark AES-256-CBC envelope to its plaintext bytes.
pub fn decrypt(encrypt_key: &str, encrypted: &str) -> (p: Option<Vec<u8>>)
    ensures
        match p {
            Some(v) => decrypt_spec(encrypt_key@, encrypted@) == Some(v@),
            None => decrypt_spec(encrypt_key@, encrypted@) is None,
        },
{
    let key = sha256_digest(encrypt_key.as_bytes());
    let bytes = match base64_decode_str(encrypted) {
        Some(b) => b,
        None => return None,
    };
    if bytes.len() < 16 {
        return None;
    }
    let (iv, ciphertext) = bytes.as_slice().split_at(16);
    assert(iv@ =~= bytes@.take(16));
    assert(ciphertext@ =~= bytes@.skip(16));
    aes256_cbc_decrypt(key.as_slice(), iv, ciphertext)
}

/// The first step of classifying a raw body.
#[derive(Debug)]
pub enum Opened {
    /// Classified already.
    Done(Callback),
    /// Encrypted: parse these plaintext bytes and finish with
    /// [`classify_decrypted`].
    Decrypted(Vec<u8>),
}

/// Opens a raw body (`None` when it is not JSON): plain bodies are classified
/// at once; encrypted ones are decrypted with the Encrypt Key, and without a
/// key, or when decryption fails, are unauthorized.
pub fn classify(raw: Option<Envelope>, verification_token: Option<&str>, encrypt_key: Option<&str>) -> (o: Opened)
    ensures
        match raw {
            None => o matches Opened::Done(c) && c@ == CallbackView::BadRequest,
            Some(v) => match v.encrypt {
                Some(enc) => match encrypt_key {
                    None => o matches Opened::Done(c) && c@ == CallbackView::Unauthorized,
                    Some(k) => match decrypt_spec(k@, enc@) {
                        None => o matches Opened::Done(c) && c@ == CallbackView::Unauthorized,
                        Some(p) => o matches Opened::Decrypted(b) && b@ == p,
                    },
                },
                None => o matches Opened::Done(c)
                    && c@ == classify_value_spec(v, match verification_token { Some(t) => Some(t@), None => None }),
            },
        },
{
    let v = match raw {
        Some(v) => v,
        None => return Opened::Done(Callback::BadRequest),
    };
    match &v.encrypt {
        Some(enc) => match encrypt_key {
            None => Opened::Done(Callback::Unauthorized),
            Some(k) => match decrypt(k, enc.as_str()) {
                None => Opened::Done(Callback::Unauthorized),
                Some(p) => Opened::Decrypted(p),
            },
        },
        None => Opened::Done(classify_value(&v, verification_token)),
    }
}

/// Finishes classifying a decrypted body: plaintext that is not JSON is
/// unauthorized, like a failed decryption.
pub fn classify_decrypted(parsed: Option<Envelope>, verification_token: Option<&str>) -> (c: Callback)
    ensures
        match parsed {
            None => c@ == CallbackView::Unauthorized,
            Some(v) => c@ == classify_value_spec(v, match verification_token { Some(t) => Some(t@), None => None }),
        },
{
    match parsed {
        None => Callback::Unauthorized,
        Some(v) => classify_value(&v, verification_token),
    }
}

/// A configured verification token is enforced: any body other than the
/// handshake whose token differs is unauthorized.
pub proof fn law_token_is_enforced(v: Envelope, token: Seq<char>)
    requires
        opt_view(v.kind) != Some("url_verification"@),
        or_empty(v.token) != token,
    ensures
        classify_value_spec(v, Some(token)) == CallbackView::Unauthorized,
{
}

/// Without a configured token, a preview request is answered with its URL
/// whatever token it carries.
pub proof fn law_no_token_no_check(v: Envelope, a: Option<String>, b: Option<String>)
    requires
        opt_view(v.kind) != Some("url_verification"@),
    ensures
        classify_value_spec(Envelope { token: a, ..v }, None) == classify_value_spec(Envelope { token: b, ..v }, None),
{
}

} // verus!
