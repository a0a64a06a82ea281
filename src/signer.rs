//! Credentials and HMAC-SHA256 request signatures.

use crate::error::ClientError;
use crate::text::{digit, int_text, push_i64, push_str};
use hmac::{Hmac, Mac, NewMac};
use sha2::Sha256;
use vstd::prelude::*;
use vstd::utf8::encode_utf8;

verus! {

/// The error `hmac` reports for a key it cannot use.
#[verifier::external_type_specification]
#[verifier::external_body]
pub struct ExInvalidKeyLength(hmac::crypto_mac::InvalidKeyLength);

/// The HMAC-SHA256 tag of `message` under `key`.
pub uninterp spec fn hmac_sha256_of(key: Seq<u8>, message: Seq<u8>) -> Seq<u8>;

/// Relies on `Hmac::<Sha256>::new_from_slice`, `Mac::update` and `Mac::finalize`:
/// HMAC takes a key of any length (a long one is hashed first), so keying never
/// fails, and the tag depends on key and message alone.
#[verifier::external_body]
fn hmac_sha256(key: &[u8], message: &[u8]) -> (r: Result<Vec<u8>, hmac::crypto_mac::InvalidKeyLength>)
    ensures
        r is Ok,
        r is Ok ==> r->Ok_0@ == hmac_sha256_of(key@, message@),
{
    let mut mac = Hmac::<Sha256>::new_from_slice(key)?;
    mac.update(message);
    Ok(mac.finalize().into_bytes().to_vec())
}

/// Lowercase hexadecimal digit of a value below 16.
pub open spec fn hex_digit(d: int) -> char {
    if d < 10 {
        digit(d)
    } else if d == 10 {
        'a'
    } else if d == 11 {
        'b'
    } else if d == 12 {
        'c'
    } else if d == 13 {
        'd'
    } else if d == 14 {
        'e'
    } else {
        'f'
    }
}

/// Lowercase hexadecimal rendering of bytes, high nibble first.
pub open spec fn hex_lower(bytes: Seq<u8>) -> Seq<char>
    decreases bytes.len(),
{
    if bytes.len() == 0 {
        seq![]
    } else {
        seq![hex_digit(bytes[0] as int / 16), hex_digit(bytes[0] as int % 16)] + hex_lower(bytes.drop_first())
    }
}

/// Relies on `hex::encode`: two lowercase digits per byte, high nibble first.
#[verifier::external_body]
fn hex_encode(bytes: &[u8]) -> (r: String)
    ensures
        r@ == hex_lower(bytes@),
{
    hex::encode(bytes)
}

/// The signature of `prehash` under `private_key`: the lowercase hex of the
/// HMAC-SHA256 tag over the UTF-8 bytes of both.
pub open spec fn signature_of(private_key: Seq<char>, prehash: Seq<char>) -> Seq<char> {
    hex_lower(hmac_sha256_of(encode_utf8(private_key), encode_utf8(prehash)))
}

/// The signed string of a REST call: timestamp, method, canonical path and body,
/// concatenated without delimiters.
pub open spec fn rest_prehash(timestamp: int, method: Seq<char>, path: Seq<char>, body: Seq<char>) -> Seq<char> {
    int_text(timestamp) + method + path + body
}

/// The signed string of a stream login.
pub open spec fn login_prehash(timestamp: int) -> Seq<char> {
    int_text(timestamp) + "websocket_login"@
}

/// Builds the signed string of a REST call.
pub fn rest_prehash_text(timestamp: i64, method: &str, path: &str, body: &str) -> (r: String)
    ensures
        r@ == rest_prehash(timestamp as int, method@, path@, body@),
{
    let mut r = String::new();
    push_i64(&mut r, timestamp);
    push_str(&mut r, method);
    push_str(&mut r, path);
    push_str(&mut r, body);
    r
}

/// Builds the signed string of a stream login.
pub fn login_prehash_text(timestamp: i64) -> (r: String)
    ensures
        r@ == login_prehash(timestamp as int),
{
    let mut r = String::new();
    push_i64(&mut r, timestamp);
    push_str(&mut r, "websocket_login");
    r
}

/// Signing is deterministic: the same private key and the same prehash always
/// give the same signature.
pub proof fn lemma_signature_deterministic(key1: Seq<char>, prehash1: Seq<char>, key2: Seq<char>, prehash2: Seq<char>)
    requires
        key1 == key2,
        prehash1 == prehash2,
    ensures
        signature_of(key1, prehash1) == signature_of(key2, prehash2),
{
}

proof fn lemma_hex_digit_injective(a: int, b: int)
    requires
        0 <= a < 16,
        0 <= b < 16,
        hex_digit(a) == hex_digit(b),
    ensures
        a == b,
{
}

proof fn lemma_hex_lower_injective(x: Seq<u8>, y: Seq<u8>)
    requires
        hex_lower(x) == hex_lower(y),
    ensures
        x == y,
    decreases x.len(),
{
    if x.len() == 0 {
        if y.len() > 0 {
            assert(hex_lower(y).len() > 0);
        }
        assert(y =~= x);
    } else {
        if y.len() == 0 {
            assert(hex_lower(x).len() > 0);
        }
        let hx = hex_lower(x);
        let hy = hex_lower(y);
        assert(hx[0] == hy[0] && hx[1] == hy[1]);
        lemma_hex_digit_injective(x[0] as int / 16, y[0] as int / 16);
        lemma_hex_digit_injective(x[0] as int % 16, y[0] as int % 16);
        assert(x[0] == y[0]);
        assert(hx.skip(2) =~= hex_lower(x.drop_first()));
        assert(hy.skip(2) =~= hex_lower(y.drop_first()));
        lemma_hex_lower_injective(x.drop_first(), y.drop_first());
        assert(x =~= seq![x[0]] + x.drop_first());
        assert(y =~= seq![y[0]] + y.drop_first());
    }
}

/// Equal signatures encode equal MAC tags: the hex rendering loses nothing, so
/// two prehashes whose tags differ under a key have different signatures.
pub proof fn lemma_signature_determines_tag(key1: Seq<char>, prehash1: Seq<char>, key2: Seq<char>, prehash2: Seq<char>)
    requires
        signature_of(key1, prehash1) == signature_of(key2, prehash2),
    ensures
        hmac_sha256_of(encode_utf8(key1), encode_utf8(prehash1)) == hmac_sha256_of(
            encode_utf8(key2),
            encode_utf8(prehash2),
        ),
{
    lemma_hex_lower_injective(
        hmac_sha256_of(encode_utf8(key1), encode_utf8(prehash1)),
        hmac_sha256_of(encode_utf8(key2), encode_utf8(prehash2)),
    );
}

/// A credential pair and the subaccount that calls act for.
pub struct Auth {
    pub public_key: String,
    pub private_key: String,
    pub subaccount: Option<String>,
}

impl Auth {
    /// Signs `prehash` with the private key. An empty key cannot key the MAC.
    pub fn sign(&self, prehash: &str) -> (r: Result<String, ClientError>)
        ensures
            self.private_key@.len() == 0 <==> r is Err,
            r matches Err(e) ==> e is InvalidKey,
            r matches Ok(s) ==> s@ == signature_of(self.private_key@, prehash@),
    {
        let key = self.private_key.as_str();
        if key.is_empty() {
            return Err(ClientError::InvalidKey);
        }
        match hmac_sha256(key.as_bytes(), prehash.as_bytes()) {
            Ok(tag) => Ok(hex_encode(tag.as_slice())),
            Err(_) => Err(ClientError::InvalidKey),
        }
    }
}

} // verus!
