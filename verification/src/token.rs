//! Token issuance: claims are written as JSON, the header and payload are
//! base64url-encoded (unpadded) and joined with dots, and the signing input is
//! signed with HMAC-SHA256 under the server's symmetric secret.
//!
//! The JSON writing and the base64url encoding are verified against their
//! specifications here; only the MAC itself is computed by the `jsonwebtoken`
//! crate, under the name [`hs256_sig_of`].

use vstd::prelude::*;
use vstd::utf8::encode_utf8;

use crate::domain::Claims;
use crate::strutil::{dec_int, format_i64, push_char};

verus! {

/// The base64url alphabet: 'A'..'Z', 'a'..'z', '0'..'9', '-', '_'.
pub open spec fn b64url_char(n: u8) -> char
    recommends
        n < 64,
{
    if n < 26 {
        ((65 + n) as u8) as char
    } else if n < 52 {
        ((71 + n) as u8) as char
    } else if n < 62 {
        ((n - 4) as u8) as char
    } else if n == 62 {
        '-'
    } else {
        '_'
    }
}

/// Unpadded base64url encoding: three bytes become four characters; one or
/// two trailing bytes become two or three.
pub open spec fn b64url(bytes: Seq<u8>) -> Seq<char>
    decreases bytes.len(),
{
    if bytes.len() == 0 {
        Seq::empty()
    } else if bytes.len() == 1 {
        let b0 = bytes[0];
        seq![b64url_char(b0 >> 2), b64url_char((b0 & 0x03) << 4)]
    } else if bytes.len() == 2 {
        let b0 = bytes[0];
        let b1 = bytes[1];
        seq![
            b64url_char(b0 >> 2),
            b64url_char(((b0 & 0x03) << 4) | (b1 >> 4)),
            b64url_char((b1 & 0x0f) << 2),
        ]
    } else {
        let b0 = bytes[0];
        let b1 = bytes[1];
        let b2 = bytes[2];
        seq![
            b64url_char(b0 >> 2),
            b64url_char(((b0 & 0x03) << 4) | (b1 >> 4)),
            b64url_char(((b1 & 0x0f) << 2) | (b2 >> 6)),
            b64url_char(b2 & 0x3f),
        ] + b64url(bytes.skip(3))
    }
}

/// The character for one base64url unit.
fn b64_char(n: u8) -> (c: char)
    requires
        n < 64,
    ensures
        c == b64url_char(n),
{
    if n < 26 {
        (65 + n) as char
    } else if n < 52 {
        (71 + n) as char
    } else if n < 62 {
        (n - 4) as char
    } else if n == 62 {
        '-'
    } else {
        '_'
    }
}

/// Encodes `bytes` as unpadded base64url.
#[verifier::loop_isolation(false)]
pub fn base64url_encode(bytes: &[u8]) -> (r: String)
    ensures
        r@ == b64url(bytes@),
{
    let n = bytes.len();
    let mut out = String::new();
    let mut i: usize = 0;
    assert(bytes@.skip(0) =~= bytes@);
    while i < n && n - i >= 3
        invariant
            i <= n,
            out@ + b64url(bytes@.skip(i as int)) == b64url(bytes@),
        decreases n - i,
    {
        let b0 = bytes[i];
        let b1 = bytes[i + 1];
        let b2 = bytes[i + 2];
        assert((b0 >> 2) < 64 && ((b0 & 0x03) << 4 | (b1 >> 4)) < 64 && ((b1 & 0x0f) << 2 | (b2
            >> 6)) < 64 && (b2 & 0x3f) < 64) by (bit_vector);
        push_char(&mut out, b64_char(b0 >> 2));
        push_char(&mut out, b64_char((b0 & 0x03) << 4 | (b1 >> 4)));
        push_char(&mut out, b64_char((b1 & 0x0f) << 2 | (b2 >> 6)));
        push_char(&mut out, b64_char(b2 & 0x3f));
        proof {
            let rest = bytes@.skip(i as int);
            assert(rest[0] == b0 && rest[1] == b1 && rest[2] == b2);
            assert(rest.skip(3) =~= bytes@.skip(i + 3));
            assert(out@ + b64url(bytes@.skip(i + 3)) =~= b64url(bytes@));
        }
        i = i + 3;
    }
    if n - i == 2 {
        let b0 = bytes[i];
        let b1 = bytes[i + 1];
        assert((b0 >> 2) < 64 && ((b0 & 0x03) << 4 | (b1 >> 4)) < 64 && ((b1 & 0x0f) << 2) < 64)
            by (bit_vector);
        push_char(&mut out, b64_char(b0 >> 2));
        push_char(&mut out, b64_char((b0 & 0x03) << 4 | (b1 >> 4)));
        push_char(&mut out, b64_char((b1 & 0x0f) << 2));
        proof {
            let rest = bytes@.skip(i as int);
            assert(rest.len() == 2 && rest[0] == b0 && rest[1] == b1);
            assert(out@ =~= b64url(bytes@));
        }
    } else if n - i == 1 {
        let b0 = bytes[i];
        assert((b0 >> 2) < 64 && ((b0 & 0x03) << 4) < 64) by (bit_vector);
        push_char(&mut out, b64_char(b0 >> 2));
        push_char(&mut out, b64_char((b0 & 0x03) << 4));
        proof {
            let rest = bytes@.skip(i as int);
            assert(rest.len() == 1 && rest[0] == b0);
            assert(out@ =~= b64url(bytes@));
        }
    } else {
        assert(bytes@.skip(i as int).len() == 0);
        assert(out@ =~= b64url(bytes@));
    }
    out
}

/// The lowercase hexadecimal digit for `n % 16`.
pub open spec fn hex_digit(n: int) -> char
    recommends
        0 <= n < 16,
{
    if n < 10 {
        ((48 + n) as u8) as char
    } else {
        ((87 + n) as u8) as char
    }
}

/// How one character is written inside a JSON string: quotes and backslashes
/// get a backslash, control characters become `\u00XX`, all else is itself.
pub open spec fn json_escape_char(c: char) -> Seq<char> {
    if c == '"' {
        seq!['\\', '"']
    } else if c == '\\' {
        seq!['\\', '\\']
    } else if (c as u32) < 32 {
        seq!['\\', 'u', '0', '0', hex_digit((c as u32) as int / 16), hex_digit((c as u32) as int % 16)]
    } else {
        seq![c]
    }
}

/// How a whole string is written inside a JSON string literal.
pub open spec fn json_escape(s: Seq<char>) -> Seq<char>
    decreases s.len(),
{
    if s.len() == 0 {
        Seq::empty()
    } else {
        json_escape_char(s[0]) + json_escape(s.skip(1))
    }
}

/// Escapes `s` for use inside a JSON string literal.
#[verifier::loop_isolation(false)]
pub fn escape_json_string(s: &str) -> (r: String)
    ensures
        r@ == json_escape(s@),
{
    let n = s.unicode_len();
    let mut out = String::new();
    let mut i: usize = 0;
    assert(s@.skip(0) =~= s@);
    while i < n
        invariant
            i <= n,
            n == s@.len(),
            out@ + json_escape(s@.skip(i as int)) == json_escape(s@),
        decreases n - i,
    {
        let c = s.get_char(i);
        if c == '"' {
            push_char(&mut out, '\\');
            push_char(&mut out, '"');
        } else if c == '\\' {
            push_char(&mut out, '\\');
            push_char(&mut out, '\\');
        } else if (c as u32) < 32 {
            let code = c as u32;
            push_char(&mut out, '\\');
            push_char(&mut out, 'u');
            push_char(&mut out, '0');
            push_char(&mut out, '0');
            let hi = (code / 16) as u8;
            let lo = (code % 16) as u8;
            push_char(&mut out, (48 + hi) as char);
            if lo < 10 {
                push_char(&mut out, (48 + lo) as char);
            } else {
                push_char(&mut out, (87 + lo) as char);
            }
        } else {
            push_char(&mut out, c);
        }
        proof {
            let rest = s@.skip(i as int);
            assert(rest[0] == s@[i as int]);
            assert(rest.skip(1) =~= s@.skip(i + 1));
            assert(out@ + json_escape(s@.skip(i + 1)) =~= json_escape(s@));
        }
        i = i + 1;
    }
    out
}

/// The JSON serialization of token claims, in field order `sub`, `iat`, `exp`.
pub open spec fn claims_json(sub: Seq<char>, iat: i64, exp: i64) -> Seq<char> {
    "{\"sub\":\""@ + json_escape(sub) + "\",\"iat\":"@ + dec_int(iat as int) + ",\"exp\":"@
        + dec_int(exp as int) + "}"@
}

/// Writes the claims as JSON.
pub fn build_claims_json(claims: &Claims) -> (r: String)
    ensures
        r@ == claims_json(claims.sub@, claims.iat, claims.exp),
{
    let mut out = String::new();
    out.append("{\"sub\":\"");
    let escaped = escape_json_string(claims.sub.as_str());
    out.append(escaped.as_str());
    out.append("\",\"iat\":");
    let iat = format_i64(claims.iat);
    out.append(iat.as_str());
    out.append(",\"exp\":");
    let exp = format_i64(claims.exp);
    out.append(exp.as_str());
    out.append("}");
    out
}

/// The base64url-encoded HMAC-SHA256 of `message` under `secret`: names the
/// result of `jsonwebtoken::crypto::sign` with the HS256 algorithm, a
/// deterministic function of the key and the message.
pub uninterp spec fn hs256_sig_of(secret: Seq<char>, message: Seq<char>) -> Seq<char>;

/// Relies on `jsonwebtoken::crypto::sign` with `Algorithm::HS256`, which
/// computes the HMAC-SHA256 of the message under the secret's bytes and
/// base64url-encodes it; for the HS algorithms its source returns `Ok`
/// unconditionally, so the error arm is unreachable.
#[verifier::external_body]
fn sign_hs256(message: &str, secret: &str) -> (r: String)
    ensures
        r@ == hs256_sig_of(secret@, message@),
{
    let key = jsonwebtoken::EncodingKey::from_secret(secret.as_bytes());
    match jsonwebtoken::crypto::sign(message.as_bytes(), &key, jsonwebtoken::Algorithm::HS256) {
        Ok(sig) => sig,
        Err(_) => String::new(),
    }
}

/// The JOSE header every issued token starts with.
pub open spec fn header_json() -> Seq<char> {
    "{\"typ\":\"JWT\",\"alg\":\"HS256\"}"@
}

/// The part of a token that is signed: base64url of the header, a dot,
/// base64url of the claims JSON.
pub open spec fn spec_signing_input(sub: Seq<char>, iat: i64, exp: i64) -> Seq<char> {
    b64url(encode_utf8(header_json())) + seq!['.'] + b64url(
        encode_utf8(claims_json(sub, iat, exp)),
    )
}

/// A complete signed token: the signing input, a dot, the signature.
pub open spec fn spec_token(sub: Seq<char>, iat: i64, exp: i64, secret: Seq<char>) -> Seq<char> {
    spec_signing_input(sub, iat, exp) + seq!['.'] + hs256_sig_of(
        secret,
        spec_signing_input(sub, iat, exp),
    )
}

/// Builds and signs a bearer token for the given claims.
pub fn issue_token(claims: &Claims, secret: &str) -> (r: String)
    ensures
        r@ == spec_token(claims.sub@, claims.iat, claims.exp, secret@),
        r@.len() > 0,
{
    let header = "{\"typ\":\"JWT\",\"alg\":\"HS256\"}";
    let mut signing_input = base64url_encode(header.as_bytes());
    let payload = build_claims_json(claims);
    let payload_b64 = base64url_encode(payload.as_str().as_bytes());
    push_char(&mut signing_input, '.');
    signing_input.append(payload_b64.as_str());
    let signature = sign_hs256(signing_input.as_str(), secret);
    proof {
        assert(signing_input@ =~= spec_signing_input(claims.sub@, claims.iat, claims.exp));
    }
    let mut token = signing_input;
    push_char(&mut token, '.');
    token.append(signature.as_str());
    proof {
        assert(token@ =~= spec_token(claims.sub@, claims.iat, claims.exp, secret@));
    }
    token
}

} // verus!
