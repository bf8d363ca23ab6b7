//! Request signatures: RSA-PSS over SHA-256, written in base64.
//!
//! The exchange authenticates a request by three values: the identifier
//! of the key, the time of the request in milliseconds, and a signature
//! over the time, the method and the path without its query.

use crate::clock::utc_now_ms;
use crate::error::Error;
use crate::stream::{signing_message, signing_text};
use crate::text::{chars_of, decimal, decimal_string, push_text, string_of, trim_chars, trimmed};
use base64::Engine;
use rsa::pkcs1::DecodeRsaPrivateKey;
use rsa::pkcs8::DecodePrivateKey;
use rsa::pss::BlindedSigningKey;
use rsa::sha2::Sha256;
use rsa::signature::{RandomizedSigner, SignatureEncoding};
use rsa::RsaPrivateKey;
use vstd::prelude::*;

verus! {

/// The private key of the `rsa` crate. Nothing inside it is visible here.
#[verifier::external_type_specification]
#[verifier::external_body]
pub struct ExRsaPrivateKey(RsaPrivateKey);

/// Whether `RsaPrivateKey::from_pkcs1_pem` takes a text for a key.
pub uninterp spec fn is_pkcs1_key(pem: Seq<char>) -> bool;

/// Whether `RsaPrivateKey::from_pkcs8_pem` takes a text for a key.
pub uninterp spec fn is_pkcs8_key(pem: Seq<char>) -> bool;

/// What the standard alphabet of the `base64` crate, with padding, makes
/// of a run of bytes.
pub uninterp spec fn base64_standard(bytes: Seq<u8>) -> Seq<char>;

/// `RsaPrivateKey::from_pkcs1_pem` of the `rsa` crate: the key that a PEM
/// text in the PKCS#1 form holds. Whether the text is taken depends on
/// the text alone; nothing is claimed of the key.
#[verifier::external_body]
fn key_from_pkcs1(pem: &str) -> (key: Option<RsaPrivateKey>)
    ensures
        key is Some == is_pkcs1_key(pem@),
{
    RsaPrivateKey::from_pkcs1_pem(pem).ok()
}

/// `RsaPrivateKey::from_pkcs8_pem` of the `rsa` crate: the key that a PEM
/// text in the PKCS#8 form holds, or else the text of the crate's error.
/// Whether the text is taken depends on the text alone; nothing is
/// claimed of the key or of the error.
#[verifier::external_body]
fn key_from_pkcs8(pem: &str) -> (key: Result<RsaPrivateKey, String>)
    ensures
        key is Ok == is_pkcs8_key(pem@),
{
    RsaPrivateKey::from_pkcs8_pem(pem).map_err(|e| e.to_string())
}

/// `try_sign_with_rng` of the `rsa` crate on a blinded PSS signing key
/// over SHA-256 made of `key`, with the thread's random number generator
/// of the `rand` crate: the signature of the message as bytes, or nothing
/// when the key cannot sign it. The signature differs from call to call;
/// nothing is claimed of it.
#[verifier::external_body]
fn pss_signature(key: &RsaPrivateKey, message: &str) -> (signature: Option<Vec<u8>>) {
    BlindedSigningKey::<Sha256>::new(key.clone())
        .try_sign_with_rng(&mut rand::thread_rng(), message.as_bytes())
        .ok()
        .map(|s| s.to_bytes().into_vec())
}

/// `Engine::encode` of the `base64` crate on its `STANDARD` engine. The
/// result is given the name `base64_standard` and nothing more is claimed
/// of it.
#[verifier::external_body]
fn base64_encode(bytes: &Vec<u8>) -> (text: String)
    ensures
        text@ == base64_standard(bytes@),
{
    base64::engine::general_purpose::STANDARD.encode(bytes)
}

/// The text with every backslash that an `n` follows, and that `n`,
/// replaced by one line break, from left to right.
pub open spec fn unescaped(text: Seq<char>) -> Seq<char>
    decreases text.len(),
{
    if text.len() == 0 {
        Seq::empty()
    } else if text.len() >= 2 && text[0] == '\\' && text[1] == 'n' {
        seq!['\n'] + unescaped(text.skip(2))
    } else {
        seq![text[0]] + unescaped(text.drop_first())
    }
}

/// Replaces line breaks written as a backslash and an `n` by real ones.
pub fn unescape_newlines(text: &str) -> (r: String)
    ensures
        r@ == unescaped(text@),
{
    let chars = chars_of(text);
    let n = chars.len();
    let mut out: Vec<char> = Vec::new();
    let mut i: usize = 0;
    assert(chars@.skip(0) =~= chars@);
    while i < n
        invariant
            n == chars.len(),
            i <= n,
            unescaped(chars@) == out@ + unescaped(chars@.skip(i as int)),
        decreases n - i,
    {
        let ghost rest = chars@.skip(i as int);
        let ghost before = out@;
        assert(rest[0] == chars@[i as int]);
        if chars[i] == '\\' && i + 1 < n && chars[i + 1] == 'n' {
            assert(rest[1] == chars@[i + 1]);
            assert(rest.skip(2) =~= chars@.skip(i + 2));
            out.push('\n');
            assert(before + (seq!['\n'] + unescaped(chars@.skip(i + 2))) =~= out@ + unescaped(
                chars@.skip(i + 2),
            ));
            i += 2;
        } else {
            if i + 1 < n {
                assert(rest[1] == chars@[i + 1]);
            }
            assert(rest.drop_first() =~= chars@.skip(i + 1));
            out.push(chars[i]);
            assert(before + (seq![chars@[i as int]] + unescaped(chars@.skip(i + 1))) =~= out@
                + unescaped(chars@.skip(i + 1)));
            i += 1;
        }
    }
    assert(unescaped(chars@.skip(n as int)) =~= Seq::<char>::empty());
    assert(out@ + Seq::<char>::empty() =~= out@);
    string_of(&out)
}

/// The PEM text as the key parsers get it: line breaks restored, white
/// space at both ends removed.
pub open spec fn clean_pem(pem: Seq<char>) -> Seq<char> {
    trimmed(unescaped(pem))
}

/// Whether a text holds a private key in one of the two accepted forms.
pub open spec fn holds_key(pem: Seq<char>) -> bool {
    is_pkcs1_key(clean_pem(pem)) || is_pkcs8_key(clean_pem(pem))
}

/// Whether `text` begins with `head`.
pub open spec fn begins_with(text: Seq<char>, head: Seq<char>) -> bool {
    head.len() <= text.len() && text.take(head.len() as int) == head
}

/// Whether `e` reports a text that holds no key: an authentication error
/// whose text begins with the complaint and goes on with the detail that
/// the key parser gave.
pub open spec fn is_parse_failure(e: Error) -> bool {
    e matches Error::Auth(m) && begins_with(m@, "Failed to parse RSA private key: "@)
}

/// The credentials of an account: the identifier of the key, and the key.
pub struct KalshiAuth {
    pub api_key: String,
    signing_key: RsaPrivateKey,
}

/// The three values that authenticate a request, each under the name of
/// its header.
#[derive(Clone, Debug)]
pub struct AuthHeaders {
    /// Goes out as `KALSHI-ACCESS-KEY`.
    pub key: String,
    /// Goes out as `KALSHI-ACCESS-TIMESTAMP`.
    pub timestamp: String,
    /// Goes out as `KALSHI-ACCESS-SIGNATURE`.
    pub signature: String,
}

/// The text of the error for a request that could not be signed.
pub open spec fn signing_failure() -> Seq<char> {
    "Failed to sign request"@
}

/// What a request is sealed with: the time as decimal text and the
/// signature in base64, or the signing failure when there is no
/// signature.
pub open spec fn seal(now_ms: i64, signature: Option<Seq<u8>>) -> Result<
    (Seq<char>, Seq<char>),
    Seq<char>,
> {
    match signature {
        Some(bytes) => Ok((decimal(now_ms as int), base64_standard(bytes))),
        None => Err(signing_failure()),
    }
}

/// Whether `r` is what `seal` gives.
pub open spec fn is_sealed(r: Result<(String, String), Error>, now_ms: i64, signature: Option<Seq<u8>>) -> bool {
    match r {
        Ok((timestamp, text)) => seal(now_ms, signature) == Ok::<
            (Seq<char>, Seq<char>),
            Seq<char>,
        >((timestamp@, text@)),
        Err(e) => e matches Error::Auth(m) && seal(now_ms, signature) == Err::<
            (Seq<char>, Seq<char>),
            Seq<char>,
        >(m@),
    }
}

/// Whether a text is some run of bytes in base64.
pub open spec fn is_base64(text: Seq<char>) -> bool {
    exists|bytes: Seq<u8>| text == #[trigger] base64_standard(bytes)
}

/// Whether a text is some moment in decimal.
pub open spec fn is_time(text: Seq<char>) -> bool {
    exists|now_ms: i64| text == #[trigger] decimal(now_ms as int)
}

/// Whether `e` reports a request that could not be signed.
pub open spec fn is_signing_failure(e: Error) -> bool {
    e matches Error::Auth(m) && m@ == signing_failure()
}

/// The message that is signed for a request at `now_ms`.
pub open spec fn message_at(now_ms: i64, method: Seq<char>, path: Seq<char>) -> Seq<char> {
    signing_text(decimal(now_ms as int), method, path)
}

/// The message to sign for a request at `now_ms`: the time, the method
/// and the path without its query, one after the other.
pub fn message_to_sign(now_ms: i64, method: &str, path: &str) -> (message: String)
    ensures
        message@ == message_at(now_ms, method@, path@),
{
    let timestamp = decimal_string(now_ms as i128);
    signing_message(timestamp.as_str(), method, path)
}

/// Seals a request made at `now_ms` with the bytes of its signature.
pub fn sealed(now_ms: i64, signature: Option<Vec<u8>>) -> (r: Result<(String, String), Error>)
    ensures
        is_sealed(
            r,
            now_ms,
            match signature {
                Some(bytes) => Some(bytes@),
                None => None,
            },
        ),
{
    match signature {
        Some(bytes) => Ok((decimal_string(now_ms as i128), base64_encode(&bytes))),
        None => Err(Error::Auth(String::from_str("Failed to sign request"))),
    }
}

impl KalshiAuth {
    /// The identifier of the key.
    pub closed spec fn key_id(&self) -> Seq<char> {
        self.api_key@
    }

    /// Credentials from the identifier of the key and its PEM text, in
    /// which line breaks may be written as a backslash and an `n`. The
    /// text is read as PKCS#1 first and as PKCS#8 if that fails.
    pub fn new(api_key: &str, pem_string: &str) -> (r: Result<KalshiAuth, Error>)
        ensures
            match r {
                Ok(auth) => holds_key(pem_string@) && auth.key_id() == api_key@,
                Err(e) => !holds_key(pem_string@) && is_parse_failure(e),
            },
    {
        let restored = unescape_newlines(pem_string);
        let pem = string_of(&trim_chars(&chars_of(restored.as_str())));
        let signing_key = match key_from_pkcs1(pem.as_str()) {
            Some(key) => key,
            None => match key_from_pkcs8(pem.as_str()) {
                Ok(key) => key,
                Err(detail) => {
                    let mut message = String::from_str("Failed to parse RSA private key: ");
                    let ghost head = message@;
                    push_text(&mut message, detail.as_str());
                    assert(message@.take(head.len() as int) =~= head);
                    return Err(Error::Auth(message));
                },
            },
        };
        Ok(KalshiAuth { api_key: api_key.to_owned(), signing_key })
    }

    /// Credentials from the two values of the environment. Both are
    /// required.
    pub fn from_env(api_key: Option<&str>, secret_key: Option<&str>) -> (r: Result<KalshiAuth, Error>)
        ensures
            match (api_key, secret_key) {
                (None, _) => r matches Err(Error::Auth(m)) && m@ == "KALSHI_API_KEY not set"@,
                (Some(_), None) => r matches Err(Error::Auth(m)) && m@
                    == "KALSHI_SECRET_KEY not set"@,
                (Some(id), Some(pem)) => match r {
                    Ok(auth) => holds_key(pem@) && auth.key_id() == id@,
                    Err(e) => !holds_key(pem@) && is_parse_failure(e),
                },
            },
    {
        match api_key {
            None => Err(Error::Auth(String::from_str("KALSHI_API_KEY not set"))),
            Some(id) => match secret_key {
                None => Err(Error::Auth(String::from_str("KALSHI_SECRET_KEY not set"))),
                Some(pem) => KalshiAuth::new(id, pem),
            },
        }
    }

    /// Signs a request made at `now_ms` and returns the time and the
    /// signature as they go into the headers. The signature is of the
    /// message that `message_to_sign` gives; it differs from call to
    /// call.
    pub fn sign_request_at(&self, method: &str, path: &str, now_ms: i64) -> (r: Result<
        (String, String),
        Error,
    >)
        ensures
            match r {
                Ok((timestamp, signature)) => timestamp@ == decimal(now_ms as int) && is_base64(
                    signature@,
                ),
                Err(e) => is_signing_failure(e),
            },
    {
        let message = message_to_sign(now_ms, method, path);
        let signature = pss_signature(&self.signing_key, message.as_str());
        let ghost bytes = match &signature {
            Some(b) => Some(b@),
            None => None,
        };
        let r = sealed(now_ms, signature);
        proof {
            if bytes is Some {
                assert(r->Ok_0.1@ == base64_standard(bytes->0));
            }
        }
        r
    }

    /// Signs a request made now.
    pub fn sign_request(&self, method: &str, path: &str) -> (r: Result<(String, String), Error>)
        ensures
            match r {
                Ok((timestamp, signature)) => is_time(timestamp@) && is_base64(signature@),
                Err(e) => is_signing_failure(e),
            },
    {
        let now_ms = utc_now_ms();
        let r = self.sign_request_at(method, path, now_ms);
        proof {
            if r is Ok {
                assert(r->Ok_0.0@ == decimal(now_ms as int));
            }
        }
        r
    }

    /// The three values that authenticate a request made now.
    pub fn headers(&self, method: &str, path: &str) -> (r: Result<AuthHeaders, Error>)
        ensures
            match r {
                Ok(h) => h.key@ == self.key_id() && is_time(h.timestamp@) && is_base64(
                    h.signature@,
                ),
                Err(e) => is_signing_failure(e),
            },
    {
        match self.sign_request(method, path) {
            Ok((timestamp, signature)) => Ok(
                AuthHeaders { key: self.api_key.clone(), timestamp, signature },
            ),
            Err(e) => Err(e),
        }
    }
}

} // verus!
