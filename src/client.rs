//! The REST side of the client: signing headers, building the wire request of
//! an operation, and checking the response envelope.

use crate::endpoint::{
    form_char, form_component, form_pair, form_parse, form_serialize, form_unchanged, hex_upper_digit,
    lemma_query_round_trip, parse_url_path, parse_url_with_params, percent_bytes, url_path_of, url_query_of,
    url_text_of,
};
use crate::error::ClientError;
use crate::json::{
    FieldSpec, json_members, json_members_of, member, find_member, object_json, object_text, opt_view,
    pairs_view, query_pairs, query_params,
};
use crate::request::{Method, Request};
use crate::signer::{Auth, rest_prehash, rest_prehash_text, signature_of};
use crate::text::{i64_text, int_text, push_char, push_str, text_eq};
use vstd::prelude::*;
use vstd::string::StrSliceExecFns;
use vstd::utf8::encode_utf8;

verus! {

/// The URL of an endpoint path below the API root.
pub open spec fn api_url(endpoint: Seq<char>) -> Seq<char> {
    "https://ftx.com/api"@ + endpoint
}

/// The path without one trailing `?`.
pub open spec fn strip_question(p: Seq<char>) -> Seq<char> {
    if p.len() > 0 && p.last() == '?' {
        p.drop_last()
    } else {
        p
    }
}

/// The path of a read with its query, `?` included, when the URL has one.
pub open spec fn read_path(path: Seq<char>, query: Option<Seq<char>>) -> Seq<char> {
    match query {
        Some(q) => path + seq!['?'] + q,
        None => path,
    }
}

/// The path that a request's signature covers, before the trailing `?` is
/// stripped: for a read the URL path with its query, else the URL path alone.
pub open spec fn request_path(method: Method, input: Seq<char>, fields: Seq<(Seq<char>, FieldSpec)>) -> Option<Seq<char>> {
    match url_path_of(input) {
        None => None,
        Some(path) => Some(
            if method == Method::Get {
                read_path(path, url_query_of(input, query_pairs(fields)))
            } else {
                path
            },
        ),
    }
}

/// The payload: none for a read, else the JSON object of the fields.
pub open spec fn request_body(method: Method, fields: Seq<(Seq<char>, FieldSpec)>) -> Option<Seq<char>> {
    if method == Method::Get {
        None
    } else {
        Some(object_json(fields))
    }
}

/// The URL sent: with the query for a read, as given otherwise.
pub open spec fn request_url(method: Method, input: Seq<char>, fields: Seq<(Seq<char>, FieldSpec)>) -> Seq<char> {
    if method == Method::Get {
        url_text_of(input, query_pairs(fields))
    } else {
        input
    }
}

/// The headers of every call: the content type of a body, and the client name.
pub open spec fn base_headers(method: Method) -> Seq<(Seq<char>, Seq<char>)> {
    if method == Method::Get {
        seq![("user-agent"@, "ftx-rs"@)]
    } else {
        seq![("content-type"@, "application/json"@), ("user-agent"@, "ftx-rs"@)]
    }
}

pub open spec fn body_or_empty(body: Option<Seq<char>>) -> Seq<char> {
    match body {
        Some(b) => b,
        None => seq![],
    }
}

/// The three headers of a signed call: key, timestamp, and the signature over
/// timestamp, method, path (one trailing `?` stripped) and body.
pub open spec fn auth_headers_spec(auth: Auth, method: Method, path: Seq<char>, body: Option<Seq<char>>, timestamp: int) -> Seq<(Seq<char>, Seq<char>)> {
    seq![
        ("FTX-KEY"@, auth.public_key@),
        ("FTX-TS"@, int_text(timestamp)),
        ("FTX-SIGN"@, signature_of(auth.private_key@, rest_prehash(timestamp, method.name_spec(), strip_question(path), body_or_empty(body)))),
    ]
}

/// A request ready for the transport.
pub struct PreparedRequest {
    pub method: Method,
    pub url: String,
    /// The canonical path that the signature covers.
    pub signed_path: String,
    /// The payload, sent as it is and signed as it is.
    pub body: Option<String>,
    pub headers: Vec<(String, String)>,
}

/// What `prepare` returns for an operation with the given method, need of
/// credentials, URL and fields, under the given credentials and timestamp.
pub open spec fn prepared(
    creds: Option<Auth>,
    method: Method,
    needs_auth: bool,
    input: Seq<char>,
    fields: Seq<(Seq<char>, FieldSpec)>,
    timestamp: int,
    r: Result<PreparedRequest, ClientError>,
) -> bool {
    match request_path(method, input, fields) {
        None => r is Err && r->Err_0 is InvalidUrl,
        Some(path) => {
            let body = request_body(method, fields);
            if needs_auth && creds is None {
                r is Err && r->Err_0 is AuthConfigMissing
            } else if needs_auth && creds->Some_0.private_key@.len() == 0 {
                r is Err && r->Err_0 is InvalidKey
            } else {
                &&& r is Ok
                &&& r->Ok_0.method == method
                &&& r->Ok_0.url@ == request_url(method, input, fields)
                &&& r->Ok_0.signed_path@ == strip_question(path)
                &&& opt_view(r->Ok_0.body) == body
                &&& pairs_view(r->Ok_0.headers@) == base_headers(method) + (if needs_auth {
                    auth_headers_spec(creds->Some_0, method, path, body, timestamp)
                } else {
                    seq![]
                })
            }
        },
    }
}

/// A create or delete request is sent to its URL without a query string, and
/// its signature covers the URL path and exactly the body that is sent.
pub proof fn lemma_mutating_request_signs_sent_body(
    creds: Option<Auth>,
    method: Method,
    input: Seq<char>,
    fields: Seq<(Seq<char>, FieldSpec)>,
    timestamp: int,
    r: Result<PreparedRequest, ClientError>,
)
    requires
        prepared(creds, method, true, input, fields, timestamp, r),
        method != Method::Get,
        r is Ok,
    ensures
        r->Ok_0.url@ == input,
        r->Ok_0.signed_path@ == strip_question(url_path_of(input)->Some_0),
        r->Ok_0.body is Some,
        r->Ok_0.body->Some_0@ == object_json(fields),
        pairs_view(r->Ok_0.headers@).len() == 5,
        pairs_view(r->Ok_0.headers@)[4] == ("FTX-SIGN"@, signature_of(
            creds->Some_0.private_key@,
            rest_prehash(timestamp, method.name_spec(), r->Ok_0.signed_path@, r->Ok_0.body->Some_0@),
        )),
{
    let h = pairs_view(r->Ok_0.headers@);
    let path = request_path(method, input, fields)->Some_0;
    let a = auth_headers_spec(creds->Some_0, method, path, request_body(method, fields), timestamp);
    assert(h == base_headers(method) + a);
    assert(h[4] == a[2]);
}

/// The query string that a read signs and sends parses back into exactly the
/// operation's non-null fields, in order, names and texts unchanged.
pub proof fn lemma_read_query_round_trip<Q: Request>(request: Q)
    ensures
        form_parse(form_serialize(query_pairs(request.spec_fields()))) == query_pairs(request.spec_fields()),
{
    lemma_query_round_trip(query_pairs(request.spec_fields()));
}

/// Drops one trailing `?`.
pub fn strip_trailing_question(p: &str) -> (r: String)
    ensures
        r@ == strip_question(p@),
{
    let n = p.unicode_len();
    if n > 0 && p.get_char(n - 1) == '?' {
        p.substring_char(0, n - 1).to_owned()
    } else {
        p.to_owned()
    }
}

/// Relies on `chrono::Utc::now` and `DateTime::timestamp_millis`: the wall-clock
/// time in milliseconds since the Unix epoch. Nothing is promised of its value.
#[verifier::external_body]
pub(crate) fn now_millis() -> i64 {
    chrono::Utc::now().timestamp_millis()
}

fn header(name: &str, value: String) -> (r: (String, String))
    ensures
        r.0@ == name@,
        r.1@ == value@,
{
    (String::from_str(name), value)
}

/// The REST client: it holds the credentials, if any.
pub struct FtxClient {
    auth: Option<Auth>,
}

impl FtxClient {
    pub(crate) fn auth(&self) -> (r: &Option<Auth>)
        ensures
            *r == self.credentials(),
    {
        &self.auth
    }
}

impl FtxClient {
    pub closed spec fn credentials(&self) -> Option<Auth> {
        self.auth
    }

    /// A client without credentials: it can only make unsigned calls.
    pub fn new() -> (r: Self)
        ensures
            r.credentials() is None,
    {
        FtxClient { auth: None }
    }

    /// A client with a credential pair, acting for `subaccount` if given.
    pub fn with_auth(public_key: &str, private_key: &str, subaccount: Option<String>) -> (r: Result<Self, ClientError>)
        ensures
            r is Ok,
            r is Ok ==> r->Ok_0.credentials() is Some,
            r is Ok ==> r->Ok_0.credentials()->Some_0.public_key@ == public_key@,
            r is Ok ==> r->Ok_0.credentials()->Some_0.private_key@ == private_key@,
            r is Ok ==> r->Ok_0.credentials()->Some_0.subaccount == subaccount,
    {
        Ok(
            FtxClient {
                auth: Some(
                    Auth {
                        public_key: String::from_str(public_key),
                        private_key: String::from_str(private_key),
                        subaccount,
                    },
                ),
            },
        )
    }

    /// Swaps the subaccount that calls act for; fails without credentials.
    pub fn change_subaccount(&mut self, subaccount: Option<String>) -> (r: Result<(), ClientError>)
        ensures
            old(self).credentials() is None ==> r is Err && r->Err_0 is AuthConfigMissing
                && final(self).credentials() is None,
            old(self).credentials() is Some ==> r is Ok && final(self).credentials() is Some
                && final(self).credentials()->Some_0.public_key == old(self).credentials()->Some_0.public_key
                && final(self).credentials()->Some_0.private_key == old(self).credentials()->Some_0.private_key
                && final(self).credentials()->Some_0.subaccount == subaccount,
    {
        match &mut self.auth {
            Some(auth) => {
                auth.subaccount = subaccount;
                Ok(())
            },
            None => Err(ClientError::AuthConfigMissing),
        }
    }

    /// The headers that sign a call: key, timestamp and signature.
    pub fn auth_headers(&self, method: Method, api_path: &str, body: Option<&str>, timestamp: i64) -> (r: Result<Vec<(String, String)>, ClientError>)
        ensures
            self.credentials() is None ==> r is Err && r->Err_0 is AuthConfigMissing,
            self.credentials() is Some && self.credentials()->Some_0.private_key@.len() == 0 ==> r is Err
                && r->Err_0 is InvalidKey,
            self.credentials() is Some && self.credentials()->Some_0.private_key@.len() > 0 ==> r is Ok
                && pairs_view(r->Ok_0@) == auth_headers_spec(
                self.credentials()->Some_0,
                method,
                api_path@,
                match body {
                    Some(b) => Some(b@),
                    None => None,
                },
                timestamp as int,
            ),
    {
        let auth = match &self.auth {
            Some(a) => a,
            None => return Err(ClientError::AuthConfigMissing),
        };
        let path = strip_trailing_question(api_path);
        let empty = String::new();
        let body_text: &str = match body {
            Some(b) => b,
            None => empty.as_str(),
        };
        let prehash = rest_prehash_text(timestamp, method.name(), path.as_str(), body_text);
        let signature = match auth.sign(prehash.as_str()) {
            Ok(s) => s,
            Err(e) => return Err(e),
        };
        let mut headers: Vec<(String, String)> = Vec::new();
        headers.push(header("FTX-KEY", auth.public_key.clone()));
        headers.push(header("FTX-TS", i64_text(timestamp)));
        headers.push(header("FTX-SIGN", signature));
        proof {
            let b = match body {
                Some(b) => Some(b@),
                None => None,
            };
            assert(body_text@ == body_or_empty(b));
            assert(pairs_view(headers@) =~= auth_headers_spec(*auth, method, api_path@, b, timestamp as int));
        }
        Ok(headers)
    }

    /// Builds the wire request of an operation, signed with `timestamp` when
    /// the operation needs it.
    pub fn prepare<Q: Request>(&self, request: &Q, timestamp: i64) -> (r: Result<PreparedRequest, ClientError>)
        ensures
            prepared(
                self.credentials(),
                request.spec_method(),
                request.spec_needs_auth(),
                api_url(request.spec_endpoint()),
                request.spec_fields(),
                timestamp as int,
                r,
            ),
            ({
                let input = api_url(request.spec_endpoint());
                let params = query_pairs(request.spec_fields());
                r is Ok && request.spec_method() == Method::Get && !input.contains('?') && !input.contains('#')
                    ==> r->Ok_0.signed_path@ == if params.len() == 0 {
                        url_path_of(input)->Some_0
                    } else {
                        url_path_of(input)->Some_0 + seq!['?'] + form_serialize(params)
                    }
            }),
    {
        let ghost input = api_url(request.spec_endpoint());
        let ghost fields = request.spec_fields();
        let endpoint = request.render_endpoint();
        let mut url = String::from_str("https://ftx.com/api");
        push_str(&mut url, endpoint.as_str());
        assert(url@ == input);
        let method = request.method();
        let wire_fields = request.fields();
        let mut headers: Vec<(String, String)> = Vec::new();
        let sent_url;
        let api_path;
        let body;
        match method {
            Method::Get => {
                let params = query_params(&wire_fields);
                let parsed = match parse_url_with_params(url.as_str(), &params) {
                    Ok(p) => p,
                    Err(e) => return Err(ClientError::InvalidUrl(e)),
                };
                let mut path = parsed.path;
                match parsed.query {
                    Some(q) => {
                        push_char(&mut path, '?');
                        push_str(&mut path, q.as_str());
                    },
                    None => {},
                }
                proof {
                    let qs = query_pairs(fields);
                    if !input.contains('?') && !input.contains('#') {
                        if qs.len() == 0 {
                            assert(form_serialize(qs) =~= seq![]);
                        } else {
                            lemma_form_serialize_last(qs);
                        }
                    }
                }
                assert(path@ == request_path(method, input, fields)->Some_0);
                sent_url = parsed.text;
                api_path = path;
                body = None;
            },
            _ => {
                api_path = match parse_url_path(url.as_str()) {
                    Ok(p) => p,
                    Err(e) => return Err(ClientError::InvalidUrl(e)),
                };
                assert(api_path@ == request_path(method, input, fields)->Some_0);
                sent_url = url;
                body = Some(object_text(&wire_fields));
                headers.push(header("content-type", String::from_str("application/json")));
            },
        }
        headers.push(header("user-agent", String::from_str("ftx-rs")));
        let ghost base = pairs_view(headers@);
        assert(base =~= base_headers(method));
        if request.needs_auth() {
            let body_ref: Option<&str> = match &body {
                Some(b) => Some(b.as_str()),
                None => None,
            };
            let mut signed = match self.auth_headers(method, api_path.as_str(), body_ref, timestamp) {
                Ok(h) => h,
                Err(e) => return Err(e),
            };
            let ghost signed_view = pairs_view(signed@);
            headers.append(&mut signed);
            assert(pairs_view(headers@) =~= base + signed_view);
        }
        let signed_path = strip_trailing_question(api_path.as_str());
        Ok(PreparedRequest { method, url: sent_url, signed_path, body, headers })
    }

    /// Builds the wire request of an operation, signed with the current time.
    pub fn prepare_now<Q: Request>(&self, request: &Q) -> (r: Result<PreparedRequest, ClientError>)
        ensures
            exists|timestamp: i64|
                prepared(
                    self.credentials(),
                    request.spec_method(),
                    request.spec_needs_auth(),
                    api_url(request.spec_endpoint()),
                    request.spec_fields(),
                    timestamp as int,
                    r,
                ),
    {
        let timestamp = now_millis();
        self.prepare(request, timestamp)
    }
}

/// What the envelope of a 2xx response says.
pub enum EnvelopeOutcome {
    /// `"success": true`, with the raw text of `result`.
    Result(Seq<char>),
    /// `"success": false`.
    Refused,
    /// Anything else.
    Malformed,
}

/// Reads the envelope `{"success": bool, "result": value, ...}` from the
/// members of the response object.
pub open spec fn envelope_of(members: Seq<(Seq<char>, Seq<char>)>) -> EnvelopeOutcome {
    match member(members, "success"@) {
        Some(flag) => if flag == "true"@ {
            match member(members, "result"@) {
                Some(v) => EnvelopeOutcome::Result(v),
                None => EnvelopeOutcome::Malformed,
            }
        } else if flag == "false"@ {
            EnvelopeOutcome::Refused
        } else {
            EnvelopeOutcome::Malformed
        },
        None => EnvelopeOutcome::Malformed,
    }
}

/// Checks a response: a status outside 2xx fails with the status and body; a
/// body that is no JSON object, or whose envelope is malformed, fails to
/// decode; `"success": false` is an application error; otherwise the raw JSON
/// text of `result` is returned, for the caller to decode into its type.
pub fn handle_response(status: u16, body: &str) -> (r: Result<String, ClientError>)
    ensures
        !(200 <= status < 300) ==> r is Err && (r->Err_0 matches ClientError::HttpStatus {
            status: s,
            body: b,
        } && s == status && b@ == body@),
        200 <= status < 300 && json_members_of(body@) is None ==> r is Err && (
        r->Err_0 matches ClientError::Decode { payload, cause } && payload@ == body@ && cause is Some),
        200 <= status < 300 && json_members_of(body@) is Some ==> match envelope_of(
            json_members_of(body@)->Some_0,
        ) {
            EnvelopeOutcome::Result(v) => r is Ok && r->Ok_0@ == v,
            EnvelopeOutcome::Refused => r is Err && (r->Err_0 matches ClientError::Application {
                body: b,
            } && b@ == body@),
            EnvelopeOutcome::Malformed => r is Err && (r->Err_0 matches ClientError::Decode {
                payload,
                cause,
            } && payload@ == body@ && cause is None),
        },
{
    if status < 200 || status >= 300 {
        return Err(ClientError::HttpStatus { status, body: String::from_str(body) });
    }
    let members = match json_members(body) {
        Ok(m) => m,
        Err(e) => return Err(ClientError::Decode { payload: String::from_str(body), cause: Some(e) }),
    };
    match find_member(&members, "success") {
        Some(flag) => {
            if text_eq(flag.as_str(), "true") {
                match find_member(&members, "result") {
                    Some(v) => Ok(v),
                    None => Err(ClientError::Decode { payload: String::from_str(body), cause: None }),
                }
            } else if text_eq(flag.as_str(), "false") {
                Err(ClientError::Application { body: String::from_str(body) })
            } else {
                Err(ClientError::Decode { payload: String::from_str(body), cause: None })
            }
        },
        None => Err(ClientError::Decode { payload: String::from_str(body), cause: None }),
    }
}

/// A non-empty query string never ends with `?`: form serialisation writes it
/// as `%3F`.
proof fn lemma_form_serialize_last(pairs: Seq<(Seq<char>, Seq<char>)>)
    requires
        pairs.len() > 0,
    ensures
        form_serialize(pairs).len() > 0,
        form_serialize(pairs).last() != '?',
{
    let p = pairs.last();
    lemma_form_component_last(p.1);
    let v = form_component(p.1);
    assert(form_pair(p) == form_component(p.0) + seq!['='] + v);
    if pairs.len() == 1 {
        assert(pairs[0] == p);
    }
}

proof fn lemma_percent_bytes_last(bytes: Seq<u8>)
    requires
        bytes.len() > 0,
    ensures
        percent_bytes(bytes).len() > 0,
        percent_bytes(bytes).last() != '?',
    decreases bytes.len(),
{
    let r = percent_bytes(bytes.drop_first());
    if r.len() > 0 {
        lemma_percent_bytes_last(bytes.drop_first());
    } else {
        let d = hex_upper_digit(bytes[0] as int % 16);
        assert(d != '?');
    }
}

proof fn lemma_form_char_last(c: char)
    ensures
        form_char(c).len() == 0 || form_char(c).last() != '?',
{
    if !form_unchanged(c) && c != ' ' {
        let b = encode_utf8(seq![c]);
        if b.len() > 0 {
            lemma_percent_bytes_last(b);
        } else {
            assert(percent_bytes(b) =~= seq![]);
        }
    }
}

proof fn lemma_form_component_last(s: Seq<char>)
    ensures
        form_component(s).len() == 0 || form_component(s).last() != '?',
    decreases s.len(),
{
    if s.len() > 0 {
        lemma_form_component_last(s.drop_first());
        lemma_form_char_last(s[0]);
    }
}

} // verus!
