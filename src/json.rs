//! JSON text of request payloads and of the values inside inbound messages.

use crate::signer::hex_digit;
use crate::text::{push_char, push_str, text_eq};
use vstd::prelude::*;

verus! {

/// How serde_json escapes one character inside a string literal.
pub open spec fn json_escape_char(c: char) -> Seq<char> {
    if c == '"' {
        seq!['\\', '"']
    } else if c == '\\' {
        seq!['\\', '\\']
    } else if c == '\u{8}' {
        seq!['\\', 'b']
    } else if c == '\t' {
        seq!['\\', 't']
    } else if c == '\n' {
        seq!['\\', 'n']
    } else if c == '\u{c}' {
        seq!['\\', 'f']
    } else if c == '\r' {
        seq!['\\', 'r']
    } else if (c as u32) < 0x20 {
        seq!['\\', 'u', '0', '0', hex_digit(c as u32 as int / 16), hex_digit(c as u32 as int % 16)]
    } else {
        seq![c]
    }
}

/// The escaped characters of a string literal, without the quotes.
pub open spec fn json_escape(s: Seq<char>) -> Seq<char>
    decreases s.len(),
{
    if s.len() == 0 {
        seq![]
    } else {
        json_escape_char(s[0]) + json_escape(s.drop_first())
    }
}

/// A JSON string literal holding `s`.
pub open spec fn json_quote(s: Seq<char>) -> Seq<char> {
    seq!['"'] + json_escape(s) + seq!['"']
}

/// Relies on `serde_json::to_string` on a `str`: serialising a string into a
/// byte vector cannot fail, and writes `"`, then each character with `"`, `\`
/// and the control characters below U+0020 escaped (`\b \t \n \f \r` where
/// they exist, `\u00xx` with lowercase hex otherwise), then `"`.
#[verifier::external_body]
fn json_string_literal(s: &str) -> (r: Result<String, serde_json::Error>)
    ensures
        r is Ok,
        r is Ok ==> r->Ok_0@ == json_quote(s@),
{
    serde_json::to_string(s)
}

/// Appends the JSON string literal of `s` to `out`.
pub fn push_json_string(out: &mut String, s: &str)
    ensures
        final(out)@ == old(out)@ + json_quote(s@),
{
    match json_string_literal(s) {
        Ok(lit) => push_str(out, lit.as_str()),
        Err(_) => {},
    }
}

/// The value of one serialised field of a request.
#[derive(Debug, Clone)]
pub enum FieldValue {
    Null,
    Bool(bool),
    /// JSON text written as it stands: a number or a nested value.
    Raw(String),
    Text(String),
}

/// What a `FieldValue` holds.
pub enum FieldSpec {
    Null,
    Bool(bool),
    Raw(Seq<char>),
    Text(Seq<char>),
}

impl View for FieldValue {
    type V = FieldSpec;

    open spec fn view(&self) -> FieldSpec {
        match self {
            FieldValue::Null => FieldSpec::Null,
            FieldValue::Bool(b) => FieldSpec::Bool(*b),
            FieldValue::Raw(t) => FieldSpec::Raw(t@),
            FieldValue::Text(s) => FieldSpec::Text(s@),
        }
    }
}

/// The named fields of a request, in declaration order.
pub type Fields = Vec<(String, FieldValue)>;

pub open spec fn fields_view(fields: Seq<(String, FieldValue)>) -> Seq<(Seq<char>, FieldSpec)> {
    fields.map_values(|f: (String, FieldValue)| (f.0@, f.1@))
}

pub open spec fn pairs_view(pairs: Seq<(String, String)>) -> Seq<(Seq<char>, Seq<char>)> {
    pairs.map_values(|p: (String, String)| (p.0@, p.1@))
}

pub open spec fn opt_view(o: Option<String>) -> Option<Seq<char>> {
    match o {
        Some(s) => Some(s@),
        None => None,
    }
}

/// The raw text of the value of the first member named `key`.
pub open spec fn member(members: Seq<(Seq<char>, Seq<char>)>, key: Seq<char>) -> Option<Seq<char>>
    decreases members.len(),
{
    if members.len() == 0 {
        None
    } else if members[0].0 == key {
        Some(members[0].1)
    } else {
        member(members.drop_first(), key)
    }
}

/// Looks up the raw value of the member named `key`.
pub fn find_member(members: &Vec<(String, String)>, key: &str) -> (r: Option<String>)
    ensures
        opt_view(r) == member(pairs_view(members@), key@),
{
    let ghost pv = pairs_view(members@);
    let n = members.len();
    let mut i: usize = 0;
    proof {
        assert(pv.subrange(0, n as int) =~= pv);
    }
    while i < n
        invariant
            n == members@.len(),
            pv == pairs_view(members@),
            i <= n,
            member(pv, key@) == member(pv.subrange(i as int, n as int), key@),
        decreases n - i,
    {
        let m = &members[i];
        proof {
            assert(pv.subrange(i as int, n as int).drop_first() =~= pv.subrange(i + 1, n as int));
            assert(pv.subrange(i as int, n as int)[0] == pv[i as int]);
        }
        if text_eq(m.0.as_str(), key) {
            return Some(m.1.clone());
        }
        i = i + 1;
    }
    None
}

/// The members of a JSON object: each name, unescaped, with the text of its
/// value as it stands; `None` when the text is not one JSON object.
pub uninterp spec fn json_members_of(text: Seq<char>) -> Option<Seq<(Seq<char>, Seq<char>)>>;

/// Relies on `serde_json::from_str` into a `BTreeMap<String, Box<RawValue>>`:
/// it succeeds exactly when `text` is one JSON object, and keeps for each name
/// the raw text of its value. The outcome depends on the text alone.
#[verifier::external_body]
pub(crate) fn json_members(text: &str) -> (r: Result<Vec<(String, String)>, serde_json::Error>)
    ensures
        r is Ok <==> json_members_of(text@) is Some,
        r is Ok ==> Some(pairs_view(r->Ok_0@)) == json_members_of(text@),
{
    let members: std::collections::BTreeMap<String, Box<serde_json::value::RawValue>> =
        serde_json::from_str(text)?;
    Ok(members.into_iter().map(|(name, value)| (name, value.get().to_string())).collect())
}

/// The characters of a JSON string literal; `None` when the text is no string.
pub uninterp spec fn json_text_of(raw: Seq<char>) -> Option<Seq<char>>;

/// Relies on `serde_json::from_str::<String>`: it succeeds exactly on a JSON
/// string and gives its characters with the escapes undone.
#[verifier::external_body]
pub(crate) fn json_text(raw: &str) -> (r: Result<String, serde_json::Error>)
    ensures
        r is Ok <==> json_text_of(raw@) is Some,
        r is Ok ==> Some(r->Ok_0@) == json_text_of(raw@),
{
    serde_json::from_str(raw)
}

/// The value of a JSON number that fits a `u64`; `None` otherwise.
pub uninterp spec fn json_u64_of(raw: Seq<char>) -> Option<u64>;

/// Relies on `serde_json::from_str::<u64>`: it succeeds exactly on a JSON
/// integer in the range of `u64`.
#[verifier::external_body]
pub(crate) fn json_u64(raw: &str) -> (r: Result<u64, serde_json::Error>)
    ensures
        r is Ok <==> json_u64_of(raw@) is Some,
        r is Ok ==> Some(r->Ok_0) == json_u64_of(raw@),
{
    serde_json::from_str(raw)
}

pub open spec fn bool_text(b: bool) -> Seq<char> {
    if b {
        "true"@
    } else {
        "false"@
    }
}

/// The JSON text of a field value.
pub open spec fn value_json(v: FieldSpec) -> Seq<char> {
    match v {
        FieldSpec::Null => "null"@,
        FieldSpec::Bool(b) => bool_text(b),
        FieldSpec::Raw(t) => t,
        FieldSpec::Text(s) => json_quote(s),
    }
}

pub open spec fn member_json(f: (Seq<char>, FieldSpec)) -> Seq<char> {
    json_quote(f.0) + seq![':'] + value_json(f.1)
}

/// The members of a JSON object, separated by commas.
pub open spec fn members_json(fields: Seq<(Seq<char>, FieldSpec)>) -> Seq<char>
    decreases fields.len(),
{
    if fields.len() == 0 {
        seq![]
    } else if fields.len() == 1 {
        member_json(fields[0])
    } else {
        members_json(fields.drop_last()) + seq![','] + member_json(fields.last())
    }
}

/// The compact JSON object of the fields, in their order.
pub open spec fn object_json(fields: Seq<(Seq<char>, FieldSpec)>) -> Seq<char> {
    seq!['{'] + members_json(fields) + seq!['}']
}

/// The text of a field in a query string; a null field is left out.
pub open spec fn query_value(v: FieldSpec) -> Option<Seq<char>> {
    match v {
        FieldSpec::Null => None,
        FieldSpec::Bool(b) => Some(bool_text(b)),
        FieldSpec::Raw(t) => Some(t),
        FieldSpec::Text(s) => Some(s),
    }
}

/// The key-value pairs of a query string, in field order, without null fields.
pub open spec fn query_pairs(fields: Seq<(Seq<char>, FieldSpec)>) -> Seq<(Seq<char>, Seq<char>)>
    decreases fields.len(),
{
    if fields.len() == 0 {
        seq![]
    } else {
        let rest = query_pairs(fields.drop_last());
        match query_value(fields.last().1) {
            Some(v) => rest.push((fields.last().0, v)),
            None => rest,
        }
    }
}

fn push_value_json(out: &mut String, v: &FieldValue)
    ensures
        final(out)@ == old(out)@ + value_json(v@),
{
    match v {
        FieldValue::Null => push_str(out, "null"),
        FieldValue::Bool(b) => {
            if *b {
                push_str(out, "true");
            } else {
                push_str(out, "false");
            }
        },
        FieldValue::Raw(t) => push_str(out, t.as_str()),
        FieldValue::Text(s) => push_json_string(out, s.as_str()),
    }
}

/// Renders the fields as a compact JSON object.
pub fn object_text(fields: &Fields) -> (r: String)
    ensures
        r@ == object_json(fields_view(fields@)),
{
    let ghost fv = fields_view(fields@);
    let mut r = String::new();
    push_char(&mut r, '{');
    let n = fields.len();
    let mut i: usize = 0;
    while i < n
        invariant
            n == fields@.len(),
            fv == fields_view(fields@),
            i <= n,
            r@ == seq!['{'] + members_json(fv.take(i as int)),
        decreases n - i,
    {
        let f = &fields[i];
        if i > 0 {
            push_char(&mut r, ',');
        }
        push_json_string(&mut r, f.0.as_str());
        push_char(&mut r, ':');
        push_value_json(&mut r, &f.1);
        proof {
            assert(fv.take(i + 1).drop_last() =~= fv.take(i as int));
            assert(fv.take(i + 1).last() == fv[i as int]);
        }
        i = i + 1;
    }
    push_char(&mut r, '}');
    proof {
        assert(fv.take(n as int) =~= fv);
    }
    r
}

/// The key-value pairs of the fields for a query string.
pub fn query_params(fields: &Fields) -> (r: Vec<(String, String)>)
    ensures
        pairs_view(r@) == query_pairs(fields_view(fields@)),
{
    let ghost fv = fields_view(fields@);
    let mut r: Vec<(String, String)> = Vec::new();
    let n = fields.len();
    let mut i: usize = 0;
    while i < n
        invariant
            n == fields@.len(),
            fv == fields_view(fields@),
            i <= n,
            pairs_view(r@) == query_pairs(fv.take(i as int)),
        decreases n - i,
    {
        let f = &fields[i];
        proof {
            assert(fv.take(i + 1).drop_last() =~= fv.take(i as int));
            assert(fv.take(i + 1).last() == fv[i as int]);
        }
        let ghost before = r@;
        match &f.1 {
            FieldValue::Null => {},
            FieldValue::Bool(b) => {
                let t = if *b {
                    String::from_str("true")
                } else {
                    String::from_str("false")
                };
                r.push((f.0.clone(), t));
            },
            FieldValue::Raw(t) => r.push((f.0.clone(), t.clone())),
            FieldValue::Text(s) => r.push((f.0.clone(), s.clone())),
        }
        proof {
            assert(pairs_view(r@) =~= query_pairs(fv.take(i + 1)));
        }
        i = i + 1;
    }
    proof {
        assert(fv.take(n as int) =~= fv);
    }
    r
}

} // verus!
