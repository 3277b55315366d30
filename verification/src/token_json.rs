//! Serialization of a [`TokenRequest`](crate::models::TokenRequest) to JSON
//! text, proved byte-exact against a specification of the format.
//!
//! The object lists `token_type`, `data`, `ttl` and `metadata` in that
//! order; string contents are escaped with `\"`, `\\` and `\u00XX` for
//! control characters; an absent `ttl` serializes as `null`.

use vstd::prelude::*;

use crate::models::TokenRequest;
use vstd::string::StringSliceAdditionalSpecFns;
use vstd::utf8::encode_utf8;

verus! {

/// Lowercase hex digit for a nibble.
pub open spec fn hex_digit(n: u8) -> u8 {
    if n < 10 {
        (48 + n) as u8
    } else {
        (87 + n) as u8
    }
}

/// The JSON escape of one byte of string content.
pub open spec fn escaped_byte(b: u8) -> Seq<u8> {
    if b == 34 {
        seq![92u8, 34u8]
    } else if b == 92 {
        seq![92u8, 92u8]
    } else if b < 32 {
        seq![92u8, 117u8, 48u8, 48u8, hex_digit(b / 16), hex_digit(b % 16)]
    } else {
        seq![b]
    }
}

/// The JSON escape of a whole byte sequence of string content.
pub open spec fn json_escaped(s: Seq<u8>) -> Seq<u8>
    decreases s.len(),
{
    if s.len() == 0 {
        Seq::empty()
    } else {
        escaped_byte(s[0]) + json_escaped(s.drop_first())
    }
}

/// A JSON string: quoted, escaped content.
pub open spec fn json_string(s: Seq<u8>) -> Seq<u8> {
    seq![34u8] + json_escaped(s) + seq![34u8]
}

/// One `"key":"value"` member of a JSON object.
pub open spec fn json_member(p: (String, String)) -> Seq<u8> {
    json_string(encode_utf8(p.0@)) + seq![58u8] + json_string(encode_utf8(p.1@))
}

/// The comma-separated members of a JSON object, from index `i` on.
pub open spec fn json_members_from(ps: Seq<(String, String)>, i: int) -> Seq<u8>
    decreases ps.len() - i,
{
    if i < 0 || i >= ps.len() {
        Seq::empty()
    } else if i == ps.len() - 1 {
        json_member(ps[i])
    } else {
        json_member(ps[i]) + seq![44u8] + json_members_from(ps, i + 1)
    }
}

/// A JSON object over ordered key/value pairs.
pub open spec fn json_object(ps: Seq<(String, String)>) -> Seq<u8> {
    seq![123u8] + json_members_from(ps, 0) + seq![125u8]
}

/// The shortest decimal digit string of a number.
pub open spec fn dec_digits(n: nat) -> Seq<u8>
    decreases n,
{
    if n < 10 {
        seq![(48 + n) as u8]
    } else {
        dec_digits(n / 10) + seq![(48 + n % 10) as u8]
    }
}

/// The serialization of the `ttl` field: a number, or `null` when absent.
pub open spec fn json_ttl(ttl: Option<u64>) -> Seq<u8> {
    match ttl {
        Option::Some(t) => dec_digits(t as nat),
        Option::None => encode_utf8("null"@),
    }
}

/// The full JSON serialization of a token request.
pub open spec fn spec_serialize_token_request(req: TokenRequest) -> Seq<u8> {
    encode_utf8("{\"token_type\":"@) + json_string(encode_utf8(req.token_type@)) + encode_utf8(
        ",\"data\":"@,
    ) + json_object(req.data@) + encode_utf8(",\"ttl\":"@) + json_ttl(req.ttl) + encode_utf8(
        ",\"metadata\":"@,
    ) + json_object(req.metadata@) + encode_utf8("}"@)
}

/// Append the bytes of a literal fragment.
fn push_lit(out: &mut Vec<u8>, s: &str)
    ensures
        final(out)@ == old(out)@ + s.spec_bytes(),
{
    let b = s.as_bytes();
    let n = b.len();
    let mut i: usize = 0;
    while i < n
        invariant
            n == b@.len(),
            i <= n,
            b@ == s.spec_bytes(),
            out@ == old(out)@ + b@.subrange(0, i as int),
        decreases n - i,
    {
        out.push(b[i]);
        i = i + 1;
        proof {
            assert(b@.subrange(0, i as int) == b@.subrange(0, i - 1).push(b@[i - 1]));
        }
    }
    proof {
        assert(b@.subrange(0, n as int) == b@);
    }
}

/// Append the escaped content of a string.
fn push_escaped(out: &mut Vec<u8>, s: &[u8])
    ensures
        final(out)@ == old(out)@ + json_escaped(s@),
{
    let n = s.len();
    let mut i: usize = 0;
    proof {
        assert(s@.skip(0) == s@);
    }
    while i < n
        invariant
            n == s@.len(),
            i <= n,
            old(out)@ + json_escaped(s@) == out@ + json_escaped(s@.skip(i as int)),
        decreases n - i,
    {
        let b = s[i];
        proof {
            assert(s@.skip(i as int)[0] == s@[i as int]);
            assert(s@.skip(i as int).drop_first() == s@.skip(i + 1));
        }
        if b == 34 {
            out.push(92);
            out.push(34);
        } else if b == 92 {
            out.push(92);
            out.push(92);
        } else if b < 32 {
            out.push(92);
            out.push(117);
            out.push(48);
            out.push(48);
            let hi = b / 16;
            let lo = b % 16;
            out.push(if hi < 10 { 48 + hi } else { 87 + hi });
            out.push(if lo < 10 { 48 + lo } else { 87 + lo });
        } else {
            out.push(b);
        }
        i = i + 1;
    }
    proof {
        assert(json_escaped(s@.skip(n as int)) == Seq::<u8>::empty());
        assert(out@ + Seq::<u8>::empty() == out@);
    }
}

/// Append a complete JSON string.
fn push_string(out: &mut Vec<u8>, s: &str)
    ensures
        final(out)@ == old(out)@ + json_string(s.spec_bytes()),
{
    out.push(34);
    push_escaped(out, s.as_bytes());
    out.push(34);
    proof {
        assert(out@ =~= old(out)@ + json_string(s.spec_bytes()));
    }
}

/// Append the members of an object from index `i` on.
fn push_members_from(out: &mut Vec<u8>, pairs: &Vec<(String, String)>, i: usize)
    ensures
        final(out)@ == old(out)@ + json_members_from(pairs@, i as int),
    decreases pairs@.len() - i,
{
    if i < pairs.len() {
        push_string(out, pairs[i].0.as_str());
        out.push(58);
        push_string(out, pairs[i].1.as_str());
        if i + 1 < pairs.len() {
            out.push(44);
            push_members_from(out, pairs, i + 1);
        }
        proof {
            assert(out@ =~= old(out)@ + json_members_from(pairs@, i as int));
        }
    }
}

/// Append a complete JSON object.
fn push_object(out: &mut Vec<u8>, pairs: &Vec<(String, String)>)
    ensures
        final(out)@ == old(out)@ + json_object(pairs@),
{
    out.push(123);
    push_members_from(out, pairs, 0);
    out.push(125);
    proof {
        assert(out@ =~= old(out)@ + json_object(pairs@));
    }
}

/// Append the shortest decimal digit string of `n`.
fn push_dec(out: &mut Vec<u8>, n: u64)
    ensures
        final(out)@ == old(out)@ + dec_digits(n as nat),
    decreases n,
{
    if n < 10 {
        out.push(48 + n as u8);
    } else {
        push_dec(out, n / 10);
        out.push(48 + (n % 10) as u8);
    }
}

/// Serialize a token request to JSON text, byte-exactly as
/// [`spec_serialize_token_request`] states.
pub fn serialize_token_request(req: &TokenRequest) -> (r: Vec<u8>)
    ensures
        r@ == spec_serialize_token_request(*req),
{
    let mut out: Vec<u8> = Vec::new();
    push_lit(&mut out, "{\"token_type\":");
    push_string(&mut out, req.token_type.as_str());
    push_lit(&mut out, ",\"data\":");
    push_object(&mut out, &req.data);
    push_lit(&mut out, ",\"ttl\":");
    match &req.ttl {
        Option::Some(t) => push_dec(&mut out, *t),
        Option::None => push_lit(&mut out, "null"),
    }
    push_lit(&mut out, ",\"metadata\":");
    push_object(&mut out, &req.metadata);
    push_lit(&mut out, "}");
    proof {
        assert(out@ =~= spec_serialize_token_request(*req));
    }
    out
}

} // verus!
