//! URLs of REST calls: parsing with the `url` crate, and query strings in the
//! `application/x-www-form-urlencoded` form.

use crate::json::{opt_view, pairs_view};
use crate::text::digit;
use vstd::prelude::*;
use vstd::utf8::{decode_utf8, encode_scalar, encode_utf8, encode_utf8_decode_utf8, is_ascii_chars_encode_utf8};

verus! {

/// Uppercase hexadecimal digit of a value below 16.
pub open spec fn hex_upper_digit(d: int) -> char {
    if d < 10 {
        digit(d)
    } else if d == 10 {
        'A'
    } else if d == 11 {
        'B'
    } else if d == 12 {
        'C'
    } else if d == 13 {
        'D'
    } else if d == 14 {
        'E'
    } else {
        'F'
    }
}

/// The characters that form serialisation leaves as they are.
pub open spec fn form_unchanged(c: char) -> bool {
    let u = c as u32;
    u == 0x2a || u == 0x2d || u == 0x2e || u == 0x5f || (0x30 <= u && u <= 0x39) || (0x41 <= u
        && u <= 0x5a) || (0x61 <= u && u <= 0x7a)
}

/// `%XX` for each byte, uppercase hex.
pub open spec fn percent_bytes(bytes: Seq<u8>) -> Seq<char>
    decreases bytes.len(),
{
    if bytes.len() == 0 {
        seq![]
    } else {
        seq!['%', hex_upper_digit(bytes[0] as int / 16), hex_upper_digit(bytes[0] as int % 16)]
            + percent_bytes(bytes.drop_first())
    }
}

/// Form serialisation of one character: kept, `+` for a space, or the
/// percent-encoded bytes of its UTF-8 encoding.
pub open spec fn form_char(c: char) -> Seq<char> {
    if form_unchanged(c) {
        seq![c]
    } else if c == ' ' {
        seq!['+']
    } else {
        percent_bytes(encode_utf8(seq![c]))
    }
}

pub open spec fn form_component(s: Seq<char>) -> Seq<char>
    decreases s.len(),
{
    if s.len() == 0 {
        seq![]
    } else {
        form_char(s[0]) + form_component(s.drop_first())
    }
}

pub open spec fn form_pair(p: (Seq<char>, Seq<char>)) -> Seq<char> {
    form_component(p.0) + seq!['='] + form_component(p.1)
}

/// The query string of the pairs: `key=value`, joined by `&`.
pub open spec fn form_serialize(pairs: Seq<(Seq<char>, Seq<char>)>) -> Seq<char>
    decreases pairs.len(),
{
    if pairs.len() == 0 {
        seq![]
    } else if pairs.len() == 1 {
        form_pair(pairs[0])
    } else {
        form_serialize(pairs.drop_last()) + seq!['&'] + form_pair(pairs.last())
    }
}

/// The value of a hexadecimal digit, either case.
pub open spec fn hex_value(c: char) -> Option<int> {
    let u = c as u32;
    if 0x30 <= u && u <= 0x39 {
        Some(u - 0x30)
    } else if 0x41 <= u && u <= 0x46 {
        Some(u - 0x41 + 10)
    } else if 0x61 <= u && u <= 0x66 {
        Some(u - 0x61 + 10)
    } else {
        None
    }
}

/// The bytes of a form-serialised text: `+` is a space, `%XX` a byte, any
/// other character its UTF-8 encoding.
pub open spec fn form_unbytes(t: Seq<char>) -> Seq<u8>
    decreases t.len(),
{
    if t.len() == 0 {
        seq![]
    } else if t[0] == '+' {
        seq![0x20u8] + form_unbytes(t.drop_first())
    } else if t[0] == '%' && t.len() >= 3 && hex_value(t[1]) is Some && hex_value(t[2]) is Some {
        seq![(hex_value(t[1])->Some_0 * 16 + hex_value(t[2])->Some_0) as u8] + form_unbytes(t.skip(3))
    } else {
        encode_utf8(seq![t[0]]) + form_unbytes(t.drop_first())
    }
}

/// A form-serialised text, decoded.
pub open spec fn form_decode(t: Seq<char>) -> Seq<char> {
    decode_utf8(form_unbytes(t))
}

/// The index of the first `c` in `t`, or -1.
pub open spec fn first_index_of(t: Seq<char>, c: char) -> int
    decreases t.len(),
{
    if t.len() == 0 {
        -1
    } else if t[0] == c {
        0
    } else {
        let k = first_index_of(t.drop_first(), c);
        if k < 0 {
            -1
        } else {
            k + 1
        }
    }
}

/// The index of the last `c` in `t`, or -1.
pub open spec fn last_index_of(t: Seq<char>, c: char) -> int
    decreases t.len(),
{
    if t.len() == 0 {
        -1
    } else if t.last() == c {
        t.len() - 1
    } else {
        last_index_of(t.drop_last(), c)
    }
}

/// One `key=value` pair, split at the first `=` and decoded.
pub open spec fn form_parse_pair(t: Seq<char>) -> (Seq<char>, Seq<char>) {
    let j = first_index_of(t, '=');
    if 0 <= j && j < t.len() {
        (form_decode(t.take(j)), form_decode(t.skip(j + 1)))
    } else {
        (form_decode(t), seq![])
    }
}

/// The pairs of a query string: split at each `&`, then each part as a pair.
pub open spec fn form_parse(q: Seq<char>) -> Seq<(Seq<char>, Seq<char>)>
    decreases q.len(),
{
    let i = last_index_of(q, '&');
    if 0 <= i && i < q.len() {
        form_parse(q.take(i)).push(form_parse_pair(q.skip(i + 1)))
    } else if q.len() == 0 {
        seq![]
    } else {
        seq![form_parse_pair(q)]
    }
}

proof fn lemma_hex_digit_value(d: int)
    requires
        0 <= d < 16,
    ensures
        hex_value(hex_upper_digit(d)) == Some(d),
{
}

proof fn lemma_unbytes_percent(bytes: Seq<u8>, rest: Seq<char>)
    ensures
        form_unbytes(percent_bytes(bytes) + rest) == bytes + form_unbytes(rest),
    decreases bytes.len(),
{
    if bytes.len() == 0 {
        assert(percent_bytes(bytes) + rest =~= rest);
        assert(bytes + form_unbytes(rest) =~= form_unbytes(rest));
    } else {
        let b = bytes[0];
        let t = percent_bytes(bytes) + rest;
        lemma_hex_digit_value(b as int / 16);
        lemma_hex_digit_value(b as int % 16);
        assert(t.skip(3) =~= percent_bytes(bytes.drop_first()) + rest);
        lemma_unbytes_percent(bytes.drop_first(), rest);
        assert(((b as int / 16) * 16 + b as int % 16) as u8 == b);
        assert(bytes =~= seq![b] + bytes.drop_first());
        assert(form_unbytes(t) =~= seq![b] + (bytes.drop_first() + form_unbytes(rest)));
    }
}

proof fn lemma_unbytes_char(c: char, rest: Seq<char>)
    ensures
        form_unbytes(form_char(c) + rest) == encode_utf8(seq![c]) + form_unbytes(rest),
{
    let t = form_char(c) + rest;
    if form_unchanged(c) {
        assert(t.drop_first() =~= rest);
    } else if c == ' ' {
        assert(t.drop_first() =~= rest);
        is_ascii_chars_encode_utf8(seq![c]);
        assert(encode_utf8(seq![c]) =~= seq![0x20u8]);
    } else {
        lemma_unbytes_percent(encode_utf8(seq![c]), rest);
    }
}

proof fn lemma_unbytes_component(s: Seq<char>)
    ensures
        form_unbytes(form_component(s)) == encode_utf8(s),
    decreases s.len(),
{
    if s.len() == 0 {
        assert(encode_utf8(s) =~= seq![]);
    } else {
        lemma_unbytes_component(s.drop_first());
        lemma_unbytes_char(s[0], form_component(s.drop_first()));
        let one = seq![s[0]];
        assert(one[0] == s[0]);
        assert(one.drop_first() =~= Seq::<char>::empty());
        assert(encode_utf8(one.drop_first()) =~= Seq::<u8>::empty());
        assert(encode_utf8(one) == encode_scalar(one[0] as u32) + encode_utf8(one.drop_first()));
        assert(encode_utf8(one) =~= encode_scalar(s[0] as u32));
        assert(encode_utf8(s) == encode_scalar(s[0] as u32) + encode_utf8(s.drop_first()));
    }
}

/// A form-serialised component holds neither `&` nor `=`.
pub open spec fn no_separator(t: Seq<char>) -> bool {
    forall|i: int| 0 <= i < t.len() ==> #[trigger] t[i] != '&' && t[i] != '='
}

proof fn lemma_percent_no_separator(bytes: Seq<u8>)
    ensures
        no_separator(percent_bytes(bytes)),
    decreases bytes.len(),
{
    if bytes.len() > 0 {
        lemma_percent_no_separator(bytes.drop_first());
        let h = seq!['%', hex_upper_digit(bytes[0] as int / 16), hex_upper_digit(bytes[0] as int % 16)];
        let r = percent_bytes(bytes.drop_first());
        assert forall|i: int| 0 <= i < (h + r).len() implies #[trigger] (h + r)[i] != '&' && (h + r)[i] != '=' by {
            if i >= 3 {
                assert((h + r)[i] == r[i - 3]);
            }
        }
    }
}

proof fn lemma_component_no_separator(s: Seq<char>)
    ensures
        no_separator(form_component(s)),
    decreases s.len(),
{
    if s.len() > 0 {
        lemma_component_no_separator(s.drop_first());
        let c = s[0];
        let h = form_char(c);
        let r = form_component(s.drop_first());
        if !form_unchanged(c) && c != ' ' {
            lemma_percent_no_separator(encode_utf8(seq![c]));
        }
        assert forall|i: int| 0 <= i < (h + r).len() implies #[trigger] (h + r)[i] != '&' && (h + r)[i] != '=' by {
            if i >= h.len() {
                assert((h + r)[i] == r[i - h.len()]);
            } else {
                assert((h + r)[i] == h[i]);
            }
        }
    }
}

proof fn lemma_first_index_after(a: Seq<char>, b: Seq<char>, c: char)
    requires
        forall|i: int| 0 <= i < a.len() ==> #[trigger] a[i] != c,
    ensures
        first_index_of(a + seq![c] + b, c) == a.len(),
    decreases a.len(),
{
    let t = a + seq![c] + b;
    if a.len() > 0 {
        assert(t.drop_first() =~= a.drop_first() + seq![c] + b);
        lemma_first_index_after(a.drop_first(), b, c);
    }
}

proof fn lemma_last_index_before(a: Seq<char>, b: Seq<char>, c: char)
    requires
        forall|i: int| 0 <= i < b.len() ==> #[trigger] b[i] != c,
    ensures
        last_index_of(a + seq![c] + b, c) == a.len(),
    decreases b.len(),
{
    let t = a + seq![c] + b;
    if b.len() > 0 {
        assert(t.drop_last() =~= a + seq![c] + b.drop_last());
        lemma_last_index_before(a, b.drop_last(), c);
    }
}

proof fn lemma_no_index(t: Seq<char>, c: char)
    requires
        forall|i: int| 0 <= i < t.len() ==> #[trigger] t[i] != c,
    ensures
        last_index_of(t, c) == -1,
    decreases t.len(),
{
    if t.len() > 0 {
        lemma_no_index(t.drop_last(), c);
    }
}

proof fn lemma_pair_round_trip(p: (Seq<char>, Seq<char>))
    ensures
        form_parse_pair(form_pair(p)) == p,
        forall|i: int| 0 <= i < form_pair(p).len() ==> #[trigger] form_pair(p)[i] != '&',
        form_pair(p).len() > 0,
{
    let k = form_component(p.0);
    let v = form_component(p.1);
    let t = form_pair(p);
    lemma_component_no_separator(p.0);
    lemma_component_no_separator(p.1);
    lemma_first_index_after(k, v, '=');
    assert(t.take(k.len() as int) =~= k);
    assert(t.skip(k.len() as int + 1) =~= v);
    lemma_unbytes_component(p.0);
    lemma_unbytes_component(p.1);
    encode_utf8_decode_utf8(p.0);
    encode_utf8_decode_utf8(p.1);
    assert forall|i: int| 0 <= i < t.len() implies #[trigger] t[i] != '&' by {
        if i < k.len() {
            assert(t[i] == k[i]);
        } else if i > k.len() {
            assert(t[i] == v[i - k.len() - 1]);
        }
    }
}

/// The query string of a list of pairs parses back into exactly those pairs.
pub proof fn lemma_query_round_trip(pairs: Seq<(Seq<char>, Seq<char>)>)
    ensures
        form_parse(form_serialize(pairs)) == pairs,
    decreases pairs.len(),
{
    let q = form_serialize(pairs);
    if pairs.len() == 0 {
    } else if pairs.len() == 1 {
        lemma_pair_round_trip(pairs[0]);
        lemma_no_index(q, '&');
        assert(seq![pairs[0]] =~= pairs);
    } else {
        let head = form_serialize(pairs.drop_last());
        let tail = form_pair(pairs.last());
        lemma_pair_round_trip(pairs.last());
        lemma_last_index_before(head, tail, '&');
        assert(q.take(head.len() as int) =~= head);
        assert(q.skip(head.len() as int + 1) =~= tail);
        lemma_query_round_trip(pairs.drop_last());
        assert(pairs.drop_last().push(pairs.last()) =~= pairs);
    }
}

/// The path of the URL that `url::Url::parse` reads from `input`; `None` when
/// the text is no URL.
pub uninterp spec fn url_path_of(input: Seq<char>) -> Option<Seq<char>>;

/// The query of the URL that `url::Url::parse_with_params` builds.
pub uninterp spec fn url_query_of(input: Seq<char>, params: Seq<(Seq<char>, Seq<char>)>) -> Option<
    Seq<char>,
>;

/// The full text of the URL that `url::Url::parse_with_params` builds.
pub uninterp spec fn url_text_of(input: Seq<char>, params: Seq<(Seq<char>, Seq<char>)>) -> Seq<char>;

/// What a request needs of a parsed URL.
pub struct ParsedUrl {
    pub path: String,
    pub query: Option<String>,
    pub text: String,
}

/// Relies on `url::Url::parse_with_params` with `Url::path`, `Url::query` and
/// `Url::as_str`. It parses `input` as `Url::parse` does, so it fails when that
/// fails and leaves the same path; then `query_pairs_mut` starts an empty query
/// where there was none and appends each pair, form-serialised, joined by `&`.
/// So when `input` holds no `?` and no `#`, the query is the serialised pairs.
#[verifier::external_body]
pub(crate) fn parse_url_with_params(input: &str, params: &Vec<(String, String)>) -> (r: Result<
    ParsedUrl,
    url::ParseError,
>)
    ensures
        r is Ok <==> url_path_of(input@) is Some,
        r is Ok ==> Some(r->Ok_0.path@) == url_path_of(input@),
        r is Ok ==> opt_view(r->Ok_0.query) == url_query_of(input@, pairs_view(params@)),
        r is Ok ==> r->Ok_0.text@ == url_text_of(input@, pairs_view(params@)),
        r is Ok && !input@.contains('?') && !input@.contains('#') ==> opt_view(r->Ok_0.query)
            == Some(form_serialize(pairs_view(params@))),
{
    let url = url::Url::parse_with_params(input, params.iter())?;
    Ok(
        ParsedUrl {
            path: url.path().to_string(),
            query: url.query().map(|q| q.to_string()),
            text: url.as_str().to_string(),
        },
    )
}

/// Relies on `url::Url::parse` and `Url::path`: the path of the URL in `input`.
#[verifier::external_body]
pub(crate) fn parse_url_path(input: &str) -> (r: Result<String, url::ParseError>)
    ensures
        r is Ok <==> url_path_of(input@) is Some,
        r is Ok ==> Some(r->Ok_0@) == url_path_of(input@),
{
    Ok(url::Url::parse(input)?.path().to_string())
}

} // verus!
