//! Authentication of a request by its signature header.
//!
//! The sender signs the raw body with a secret that both sides hold and puts
//! `sha256=` and the digest, in hexadecimal, into the header
//! `x-hub-signature-256`. A request is accepted only if that digest is the
//! HMAC-SHA256 of the body under the secret.

use vstd::prelude::*;
use vstd::slice::slice_subrange;
use vstd::string::StringSliceAdditionalSpecFns;
use crate::hex::{
    decode_hex, hex_decoded, hex_encoded, hex_value, is_hex, lemma_hex_digit_matters,
    lemma_hex_round_trip,
};
use crate::text::{same_bytes, same_text};

verus! {

/// One header of a request. The name is in lower case, as the HTTP layer
/// hands it over; the value is raw bytes.
#[derive(Clone, Debug, PartialEq, Eq)]
pub struct Header {
    pub name: String,
    pub value: Vec<u8>,
}

/// The mathematical content of a [`Header`].
pub struct HeaderView {
    pub name: Seq<char>,
    pub value: Seq<u8>,
}

impl View for Header {
    type V = HeaderView;

    open spec fn view(&self) -> HeaderView {
        HeaderView { name: self.name@, value: self.value@ }
    }
}

/// The content of each header of a list.
pub open spec fn header_views(headers: Seq<Header>) -> Seq<HeaderView> {
    Seq::new(headers.len(), |i: int| headers[i]@)
}

/// What is wrong with a signature header.
#[derive(Clone, Copy, Debug, PartialEq, Eq, Structural)]
pub enum SignatureDefect {
    /// The request has no signature header.
    Missing,
    /// The header is there, but it is not `sha256=` and hexadecimal digits.
    BadFormat,
}

/// Why a request was not authenticated.
#[derive(Clone, Copy, Debug, PartialEq, Eq, Structural)]
pub enum AuthError {
    /// No digest can be read from the request.
    MalformedSignature(SignatureDefect),
    /// The digest is not the one the body has under the secret.
    SignatureMismatch,
    /// The secret is empty, and so no key.
    InvalidSecret,
}

/// The kind of failure in words. Neither the secret nor any digest is part
/// of them.
pub open spec fn auth_error_text(error: AuthError) -> Seq<char> {
    match error {
        AuthError::MalformedSignature(SignatureDefect::Missing) => {
            "Missing X-Hub-Signature-256 header"@
        },
        AuthError::MalformedSignature(SignatureDefect::BadFormat) => "Invalid signature format"@,
        AuthError::SignatureMismatch => "Signature verification failed"@,
        AuthError::InvalidSecret => "Missing secret"@,
    }
}

impl AuthError {
    /// The kind of failure in words.
    pub fn describe(&self) -> (text: String)
        ensures
            text@ == auth_error_text(*self),
    {
        match self {
            AuthError::MalformedSignature(SignatureDefect::Missing) => {
                "Missing X-Hub-Signature-256 header".to_owned()
            },
            AuthError::MalformedSignature(SignatureDefect::BadFormat) => {
                "Invalid signature format".to_owned()
            },
            AuthError::SignatureMismatch => "Signature verification failed".to_owned(),
            AuthError::InvalidSecret => "Missing secret".to_owned(),
        }
    }
}

/// The HMAC-SHA256 of `message` under `key`: what the `hmac` crate computes
/// with SHA-256 of `sha2`.
pub uninterp spec fn hmac_sha256(key: Seq<u8>, message: Seq<u8>) -> Seq<u8>;

/// Keys HMAC-SHA256 with `secret` (`Mac::new_from_slice`), feeds it `payload`
/// (`Mac::update`) and compares the outcome with `tag` in constant time
/// (`Mac::verify_slice`). Trusted: a key of any length is taken, and the
/// comparison holds exactly for the tag that is the whole digest.
#[verifier::external_body]
fn digest_matches(secret: &[u8], payload: &[u8], tag: &[u8]) -> (matches: bool)
    ensures
        matches == (tag@ == hmac_sha256(secret@, payload@)),
{
    match <hmac::Hmac<sha2::Sha256> as hmac::Mac>::new_from_slice(secret) {
        Ok(mut mac) => {
            hmac::Mac::update(&mut mac, payload);
            hmac::Mac::verify_slice(mac, tag).is_ok()
        },
        Err(_) => false,
    }
}

/// The name of the header that carries the signature.
pub open spec fn signature_header_name() -> Seq<char> {
    "x-hub-signature-256"@
}

/// What every signature header starts with.
pub open spec fn signature_prefix() -> Seq<u8> {
    "sha256=".spec_bytes()
}

/// The value of the first header that has the signature header's name.
pub open spec fn signature_value(headers: Seq<HeaderView>) -> Option<Seq<u8>>
    decreases headers.len(),
{
    if headers.len() == 0 {
        None
    } else if headers[0].name == signature_header_name() {
        Some(headers[0].value)
    } else {
        signature_value(headers.drop_first())
    }
}

/// The digest that a header value carries: what follows the prefix, read as
/// hexadecimal. `None` where the prefix is not there or the rest is not
/// hexadecimal.
pub open spec fn claimed_digest(value: Seq<u8>) -> Option<Seq<u8>> {
    if signature_prefix().is_prefix_of(value) {
        hex_decoded(value.skip(signature_prefix().len() as int))
    } else {
        None
    }
}

/// Whether a request with these headers and this body is authentic under
/// `secret`, and if not, why. The header is examined before the secret, and
/// the secret before the digest.
pub open spec fn verify_spec(headers: Seq<HeaderView>, body: Seq<u8>, secret: Seq<u8>) -> Result<
    (),
    AuthError,
> {
    match signature_value(headers) {
        None => Err(AuthError::MalformedSignature(SignatureDefect::Missing)),
        Some(value) => match claimed_digest(value) {
            None => Err(AuthError::MalformedSignature(SignatureDefect::BadFormat)),
            Some(digest) => if secret.len() == 0 {
                Err(AuthError::InvalidSecret)
            } else if digest == hmac_sha256(secret, body) {
                Ok(())
            } else {
                Err(AuthError::SignatureMismatch)
            },
        },
    }
}

fn find_signature(headers: &[Header]) -> (found: Option<usize>)
    ensures
        match found {
            Some(at) => at < headers@.len() && signature_value(header_views(headers@)) == Some(
                headers@[at as int].value@,
            ),
            None => signature_value(header_views(headers@)) is None,
        },
{
    let ghost all = header_views(headers@);
    let mut i: usize = 0;
    assert(all.skip(0) =~= all);
    while i < headers.len()
        invariant
            i <= headers@.len(),
            all == header_views(headers@),
            signature_value(all) == signature_value(all.skip(i as int)),
        decreases headers@.len() - i,
    {
        let ghost rest = all.skip(i as int);
        assert(rest[0] == headers@[i as int]@);
        if same_text(headers[i].name.as_str(), "x-hub-signature-256") {
            return Some(i);
        }
        assert(rest.drop_first() =~= all.skip(i + 1));
        i += 1;
    }
    None
}

fn read_digest(value: &[u8]) -> (digest: Option<Vec<u8>>)
    ensures
        crate::hex::bytes_view(digest) == claimed_digest(value@),
{
    let prefix = "sha256=".as_bytes();
    if value.len() < prefix.len() {
        return None;
    }
    let head = slice_subrange(value, 0, prefix.len());
    if !same_bytes(head, prefix) {
        return None;
    }
    let rest = slice_subrange(value, prefix.len(), value.len());
    assert(rest@ =~= value@.skip(prefix@.len() as int));
    decode_hex(rest)
}

/// Authenticates a request.
///
/// The signature is read from the first `x-hub-signature-256` header and
/// checked against the raw body, byte for byte as it came. The result is
/// `Ok` exactly when the header carries the HMAC-SHA256 of the body under a
/// secret that is not empty. Nothing but the three arguments is read and
/// nothing is changed.
pub fn verify(headers: &[Header], body: &[u8], secret: &[u8]) -> (result: Result<(), AuthError>)
    ensures
        result == verify_spec(header_views(headers@), body@, secret@),
{
    let at = match find_signature(headers) {
        Some(at) => at,
        None => return Err(AuthError::MalformedSignature(SignatureDefect::Missing)),
    };
    let digest = match read_digest(headers[at].value.as_slice()) {
        Some(digest) => digest,
        None => return Err(AuthError::MalformedSignature(SignatureDefect::BadFormat)),
    };
    if secret.len() == 0 {
        return Err(AuthError::InvalidSecret);
    }
    if digest_matches(secret, body, digest.as_slice()) {
        Ok(())
    } else {
        Err(AuthError::SignatureMismatch)
    }
}

/// A request that carries the digest of its body under the secret, in
/// lower-case hexadecimal behind the prefix, is accepted, whatever the body
/// and whatever the secret, so long as the secret is not empty.
pub proof fn law_correct_signature_is_accepted(
    headers: Seq<HeaderView>,
    body: Seq<u8>,
    secret: Seq<u8>,
)
    requires
        secret.len() > 0,
        signature_value(headers) == Some(
            signature_prefix() + hex_encoded(hmac_sha256(secret, body)),
        ),
    ensures
        verify_spec(headers, body, secret) == Ok::<(), AuthError>(()),
{
    let digest = hmac_sha256(secret, body);
    let value = signature_prefix() + hex_encoded(digest);
    assert(value.subrange(0, signature_prefix().len() as int) =~= signature_prefix());
    assert(value.skip(signature_prefix().len() as int) =~= hex_encoded(digest));
    lemma_hex_round_trip(digest);
}

/// A signature that was accepted for one body is rejected for every body
/// whose digest under the secret is another. (That no two bodies share a
/// digest is what HMAC is trusted for; it is not a fact of arithmetic.)
pub proof fn law_changed_body_is_rejected(
    headers: Seq<HeaderView>,
    body: Seq<u8>,
    changed: Seq<u8>,
    secret: Seq<u8>,
)
    requires
        verify_spec(headers, body, secret) is Ok,
        hmac_sha256(secret, changed) != hmac_sha256(secret, body),
    ensures
        verify_spec(headers, changed, secret) == Err::<(), AuthError>(
            AuthError::SignatureMismatch,
        ),
{
}

/// A header value of the same length as an accepted one is rejected if it
/// differs from it in the prefix, or writes a digit of another value, or a
/// byte that is no digit, where the accepted one has a digit. So changing one
/// byte of an accepted signature makes the request fail, unless the change
/// only writes a hexadecimal letter in the other case.
pub proof fn law_changed_signature_is_rejected(
    headers: Seq<HeaderView>,
    changed: Seq<HeaderView>,
    body: Seq<u8>,
    secret: Seq<u8>,
    at: int,
)
    requires
        verify_spec(headers, body, secret) is Ok,
        signature_value(headers) is Some,
        signature_value(changed) is Some,
        signature_value(changed)->0.len() == signature_value(headers)->0.len(),
        0 <= at < signature_value(headers)->0.len(),
        if at < signature_prefix().len() {
            signature_value(changed)->0[at] != signature_value(headers)->0[at]
        } else {
            hex_value(signature_value(changed)->0[at]) != hex_value(
                signature_value(headers)->0[at],
            )
        },
    ensures
        verify_spec(changed, body, secret) is Err,
{
    let before = signature_value(headers)->0;
    let after = signature_value(changed)->0;
    let n = signature_prefix().len() as int;
    assert(signature_prefix().is_prefix_of(before));
    if at < n {
        assert(before.subrange(0, n)[at] == before[at]);
        if signature_prefix().is_prefix_of(after) {
            assert(after.subrange(0, n)[at] == after[at]);
        }
    } else if signature_prefix().is_prefix_of(after) {
        let old_text = before.skip(n);
        let new_text = after.skip(n);
        assert(is_hex(old_text));
        assert(old_text[at - n] == before[at]);
        assert(new_text[at - n] == after[at]);
        if is_hex(new_text) {
            lemma_hex_digit_matters(old_text, new_text, at - n);
        }
    }
}

} // verus!
