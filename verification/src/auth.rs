//! The `Authorization` header for HTTP basic authentication.

use base64::Engine;
use vstd::prelude::*;
use vstd::utf8::encode_utf8;

verus! {

/// The standard base64 text (with padding) of a sequence of bytes.
pub uninterp spec fn base64_standard(bytes: Seq<u8>) -> Seq<char>;

/// `base64::engine::general_purpose::STANDARD.encode`. The text depends on
/// the bytes alone. The call fails where the encoded length does not fit
/// the machine word, which the precondition leaves out.
#[verifier::external_body]
fn encode_standard(bytes: &[u8]) -> (r: String)
    requires
        (bytes@.len() / 3) * 4 + 4 <= usize::MAX,
    ensures
        r@ == base64_standard(bytes@),
{
    base64::engine::general_purpose::STANDARD.encode(bytes)
}

/// `username:password`.
pub open spec fn credentials_text(username: Seq<char>, password: Seq<char>) -> Seq<char> {
    username + ":"@ + password
}

/// `Basic ` and the base64 text of the UTF-8 bytes of `username:password`.
pub open spec fn basic_auth(username: Seq<char>, password: Seq<char>) -> Seq<char> {
    "Basic "@ + base64_standard(encode_utf8(credentials_text(username, password)))
}

/// The header value for the bytes of already joined credentials.
pub fn basic_auth_for(credentials: &str) -> (r: String)
    requires
        (encode_utf8(credentials@).len() / 3) * 4 + 4 <= usize::MAX,
    ensures
        r@ == "Basic "@ + base64_standard(encode_utf8(credentials@)),
{
    let encoded = encode_standard(credentials.as_bytes());
    let mut out = String::from_str("Basic ");
    out.append(encoded.as_str());
    out
}

/// The value of the `Authorization` header for basic authentication.
pub fn basic_auth_header(username: &str, password: &str) -> (r: String)
    requires
        (encode_utf8(credentials_text(username@, password@)).len() / 3) * 4 + 4 <= usize::MAX,
    ensures
        r@ == basic_auth(username@, password@),
{
    let mut credentials = String::from_str(username);
    credentials.append(":");
    credentials.append(password);
    basic_auth_for(credentials.as_str())
}

} // verus!
