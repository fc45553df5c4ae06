//! Authentication at the HTTP boundary: requests for the authentication
//! service, its replies, and the session check of the other endpoints.
use vstd::prelude::*;

use crate::json::{set_member, Json, JsonView};
use crate::json_text;
use crate::server::response;
use crate::server::response::{create_error, ApiError};
use crate::text;
use crate::text::{begins, chars_of, concat2, concat3, lowered, same_text, text_of};
use crate::text_map;
use crate::text_map::TextMap;

verus! {

/// Most bytes of a request that are read for the authentication service.
pub const MAX_BODY_BYTES: usize = 4194304;

/// Most bytes of a refusal that are read for its message.
pub const MAX_REFUSAL_BYTES: usize = 512;

/// A method that the authentication service takes.
#[derive(Debug, Clone, Copy, PartialEq, Eq, Structural)]
pub enum HttpMethod {
    Get,
    Post,
    Put,
    Delete,
    Patch,
    Options,
    Head,
}

/// A request for the authentication service.
#[derive(Debug)]
pub struct AuthRequest {
    pub method: HttpMethod,
    pub path: String,
    /// The headers by their names in lower case.
    pub headers: TextMap,
    pub body: Option<Vec<u8>>,
    pub query: TextMap,
}

/// The model of an [`AuthRequest`].
pub struct AuthRequestView {
    pub method: HttpMethod,
    pub path: Seq<char>,
    pub headers: Map<Seq<char>, Seq<char>>,
    pub body: Option<Seq<u8>>,
    pub query: Map<Seq<char>, Seq<char>>,
}

impl View for AuthRequest {
    type V = AuthRequestView;

    open spec fn view(&self) -> AuthRequestView {
        AuthRequestView {
            method: self.method,
            path: self.path@,
            headers: self.headers@,
            body: match self.body {
                Some(body) => Some(body@),
                None => None,
            },
            query: self.query@,
        }
    }
}

/// A reply: its status, headers and body.
#[derive(Debug)]
pub struct AuthReply {
    pub status: u16,
    pub headers: Vec<(String, String)>,
    pub body: Vec<u8>,
}

/// The model of an [`AuthReply`].
#[verifier::ext_equal]
pub struct AuthReplyView {
    pub status: u16,
    pub headers: Seq<(Seq<char>, Seq<char>)>,
    pub body: Seq<u8>,
}

impl View for AuthReply {
    type V = AuthReplyView;

    open spec fn view(&self) -> AuthReplyView {
        AuthReplyView {
            status: self.status,
            headers: text_map::text_pairs(self.headers@),
            body: self.body@,
        }
    }
}

/// The method that a name stands for.
pub open spec fn method_named(name: Seq<char>) -> Option<HttpMethod> {
    if name == "GET"@ {
        Some(HttpMethod::Get)
    } else if name == "POST"@ {
        Some(HttpMethod::Post)
    } else if name == "PUT"@ {
        Some(HttpMethod::Put)
    } else if name == "DELETE"@ {
        Some(HttpMethod::Delete)
    } else if name == "PATCH"@ {
        Some(HttpMethod::Patch)
    } else if name == "OPTIONS"@ {
        Some(HttpMethod::Options)
    } else if name == "HEAD"@ {
        Some(HttpMethod::Head)
    } else {
        None
    }
}

/// Reads the method of a request.
pub fn auth_method(name: &str) -> (r: Result<HttpMethod, String>)
    ensures
        match r {
            Ok(method) => method_named(name@) == Some(method),
            Err(problem) => method_named(name@) is None && problem@
                == "Unsupported HTTP method: "@ + name@,
        },
{
    if same_text(name, "GET") {
        Ok(HttpMethod::Get)
    } else if same_text(name, "POST") {
        Ok(HttpMethod::Post)
    } else if same_text(name, "PUT") {
        Ok(HttpMethod::Put)
    } else if same_text(name, "DELETE") {
        Ok(HttpMethod::Delete)
    } else if same_text(name, "PATCH") {
        Ok(HttpMethod::Patch)
    } else if same_text(name, "OPTIONS") {
        Ok(HttpMethod::Options)
    } else if same_text(name, "HEAD") {
        Ok(HttpMethod::Head)
    } else {
        Err(concat2("Unsupported HTTP method: ", name))
    }
}

/// Whether a byte is a visible ASCII character, a space or a tab.
pub open spec fn visible(b: u8) -> bool {
    32 <= b < 127 || b == 9
}

/// The text of a header's value, where all of it is visible.
pub open spec fn visible_text(bytes: Seq<u8>) -> Option<Seq<char>> {
    if forall|i: int| 0 <= i < bytes.len() ==> visible(#[trigger] bytes[i]) {
        Some(Seq::new(bytes.len(), |i: int| bytes[i] as char))
    } else {
        None
    }
}

/// The model of an optional string.
pub open spec fn owned(s: Option<String>) -> Option<Seq<char>> {
    match s {
        Some(s) => Some(s@),
        None => None,
    }
}

/// `http::HeaderValue::from_bytes` takes every value whose bytes are visible,
/// and `http::HeaderValue::to_str` reads just those values as text.
#[verifier::external_body]
fn header_text(bytes: &[u8]) -> (r: Option<String>)
    ensures
        owned(r) == visible_text(bytes@),
{
    let value = axum::http::HeaderValue::from_bytes(bytes).ok()?;
    value.to_str().ok().map(str::to_owned)
}

/// What `url::form_urlencoded::parse` reads from a query string: its pairs, in
/// order, with their percent-encoding undone.
pub uninterp spec fn form_pairs(query: Seq<char>) -> Seq<(Seq<char>, Seq<char>)>;

/// `url::form_urlencoded::parse` reads the pairs of a query string.
#[verifier::external_body]
fn read_form(query: &str) -> (r: Vec<(String, String)>)
    ensures
        text_map::text_pairs(r@) == form_pairs(query@),
{
    url::form_urlencoded::parse(query.as_bytes()).into_owned().collect()
}

/// The headers with a visible value, by their names in lower case; of two with
/// one name the later one counts.
pub open spec fn header_map(headers: Seq<(String, Vec<u8>)>) -> Map<Seq<char>, Seq<char>>
    decreases headers.len(),
{
    if headers.len() == 0 {
        Map::empty()
    } else {
        let before = header_map(headers.drop_last());
        match visible_text(headers.last().1@) {
            Some(value) => before.insert(text::lower(headers.last().0@), value),
            None => before,
        }
    }
}

fn collect_headers(headers: &Vec<(String, Vec<u8>)>) -> (r: TextMap)
    ensures
        r@ == header_map(headers@),
{
    let mut map = TextMap::new();
    let mut i: usize = 0;
    while i < headers.len()
        invariant
            i <= headers@.len(),
            map@ == header_map(headers@.take(i as int)),
        decreases headers@.len() - i,
    {
        assert(headers@.take(i + 1).drop_last() =~= headers@.take(i as int));
        match header_text(headers[i].1.as_slice()) {
            Some(value) => {
                map.insert(lowered(headers[i].0.as_str()), value);
            },
            None => {},
        }
        i += 1;
    }
    assert(headers@.take(i as int) =~= headers@);
    map
}

/// The request that is handed to the authentication service, or why there is
/// none. `pairs` are those of the query string.
pub open spec fn auth_request(
    method: Seq<char>,
    path: Seq<char>,
    headers: Seq<(String, Vec<u8>)>,
    pairs: Seq<(Seq<char>, Seq<char>)>,
    body: Result<Seq<u8>, Seq<char>>,
) -> Result<AuthRequestView, Seq<char>> {
    match (method_named(method), body) {
        (None, _) => Err("Unsupported HTTP method: "@ + method),
        (Some(_), Err(problem)) => Err("Failed to read request body: "@ + problem),
        (Some(method), Ok(bytes)) => Ok(
            AuthRequestView {
                method,
                path,
                headers: header_map(headers),
                body: if bytes.len() == 0 {
                    None
                } else {
                    Some(bytes)
                },
                query: text_map::pairs_view(pairs),
            },
        ),
    }
}

/// The model of a body that was read, or of what kept it from being read.
pub open spec fn body_view(body: Result<Vec<u8>, String>) -> Result<Seq<u8>, Seq<char>> {
    match body {
        Ok(bytes) => Ok(bytes@),
        Err(problem) => Err(problem@),
    }
}

/// The model of a request or of why there is none.
pub open spec fn request_view(r: Result<AuthRequest, String>) -> Result<
    AuthRequestView,
    Seq<char>,
> {
    match r {
        Ok(request) => Ok(request@),
        Err(problem) => Err(problem@),
    }
}

/// The request for the authentication service, given the pairs of its query
/// string.
pub fn request_with_query(
    method: &str,
    path: &str,
    headers: &Vec<(String, Vec<u8>)>,
    pairs: Vec<(String, String)>,
    body: Result<Vec<u8>, String>,
) -> (r: Result<AuthRequest, String>)
    ensures
        request_view(r) == auth_request(
            method@,
            path@,
            headers@,
            text_map::text_pairs(pairs@),
            body_view(body),
        ),
{
    let method = match auth_method(method) {
        Ok(method) => method,
        Err(problem) => return Err(problem),
    };
    let body = match body {
        Ok(bytes) => if bytes.len() == 0 {
            None
        } else {
            Some(bytes)
        },
        Err(problem) => return Err(concat2("Failed to read request body: ", problem.as_str())),
    };
    Ok(
        AuthRequest {
            method,
            path: path.to_owned(),
            headers: collect_headers(headers),
            body,
            query: TextMap::of(pairs),
        },
    )
}

/// The pairs of an optional query string.
pub open spec fn query_pairs(query: Option<Seq<char>>) -> Seq<(Seq<char>, Seq<char>)> {
    match query {
        Some(query) => form_pairs(query),
        None => Seq::empty(),
    }
}

/// Turns an HTTP request into one for the authentication service. `headers`
/// are names with raw values; `body` is what was read of the body, or why it
/// could not be read.
pub fn to_auth_request(
    method: &str,
    path: &str,
    headers: &Vec<(String, Vec<u8>)>,
    query: Option<&str>,
    body: Result<Vec<u8>, String>,
) -> (r: Result<AuthRequest, String>)
    ensures
        request_view(r) == auth_request(
            method@,
            path@,
            headers@,
            query_pairs(text::optional(query)),
            body_view(body),
        ),
{
    let pairs: Vec<(String, String)> = match query {
        Some(query) => read_form(query),
        None => {
            let none: Vec<(String, String)> = Vec::new();
            assert(text_map::text_pairs(none@) =~= Seq::empty());
            none
        },
    };
    request_with_query(method, path, headers, pairs, body)
}

/// Whether a number is an HTTP status code.
pub open spec fn is_status(code: u16) -> bool {
    100 <= code < 1000
}

/// `http::StatusCode::from_u16` takes the numbers from 100 to 999.
#[verifier::external_body]
fn status_code(code: u16) -> (r: Option<u16>)
    ensures
        r == (if is_status(code) {
            Some(code)
        } else {
            None
        }),
{
    axum::http::StatusCode::from_u16(code).ok().map(|status| status.as_u16())
}

/// Whether a character may stand in the name of a header.
pub open spec fn name_char(c: char) -> bool {
    ||| 'a' <= c <= 'z'
    ||| 'A' <= c <= 'Z'
    ||| '0' <= c <= '9'
    ||| c == '!' || c == '#' || c == '$' || c == '%' || c == '&' || c == '\'' || c == '*'
    ||| c == '+' || c == '-' || c == '.' || c == '^' || c == '_' || c == '`' || c == '|'
    ||| c == '~'
}

/// A name as the name of a header, in lower case, where it can be one.
pub open spec fn header_named(name: Seq<char>) -> Option<Seq<char>> {
    if 0 < name.len() <= 65535 && forall|i: int|
        0 <= i < name.len() ==> name_char(#[trigger] name[i]) {
        Some(text::lower(name))
    } else {
        None
    }
}

/// `http::HeaderName::from_bytes` takes a name of one to 65535 token
/// characters and puts it in lower case.
#[verifier::external_body]
fn header_name(name: &str) -> (r: Option<String>)
    ensures
        owned(r) == header_named(name@),
{
    let name = axum::http::HeaderName::from_bytes(name.as_bytes()).ok()?;
    Some(name.as_str().to_owned())
}

/// Whether a text can be the value of a header: it holds no control character
/// but the tab.
pub open spec fn is_header_value(value: Seq<char>) -> bool {
    forall|i: int| 0 <= i < value.len() ==> value_char(#[trigger] value[i])
}

/// Whether a character may stand in the value of a header.
pub open spec fn value_char(c: char) -> bool {
    (c >= ' ' && c != '\u{7f}') || c == '\t'
}

/// `http::HeaderValue::from_str` refuses the control characters of ASCII but
/// the tab.
#[verifier::external_body]
fn takes_value(value: &str) -> (r: bool)
    ensures
        r == is_header_value(value@),
{
    axum::http::HeaderValue::from_str(value).is_ok()
}

/// A reply of the authentication service.
#[derive(Debug)]
pub struct AuthResponse {
    pub status: u16,
    pub headers: Vec<(String, String)>,
    pub body: Vec<u8>,
}

/// The headers that can be sent, with their names in lower case.
pub open spec fn sendable(headers: Seq<(Seq<char>, Seq<char>)>) -> Seq<(Seq<char>, Seq<char>)>
    decreases headers.len(),
{
    if headers.len() == 0 {
        Seq::empty()
    } else {
        let before = sendable(headers.drop_last());
        match header_named(headers.last().0) {
            Some(name) => if is_header_value(headers.last().1) {
                before.push((name, headers.last().1))
            } else {
                before
            },
            None => before,
        }
    }
}

/// Turns a reply of the authentication service into an HTTP reply: a status
/// that is none becomes 500, and headers that cannot be sent are left out.
pub fn from_auth_response(response: AuthResponse) -> (r: AuthReply)
    ensures
        r.status == (if is_status(response.status) {
            response.status
        } else {
            500
        }),
        text_map::text_pairs(r.headers@) == sendable(text_map::text_pairs(response.headers@)),
        r.body@ == response.body@,
{
    let status: u16 = match status_code(response.status) {
        Some(status) => status,
        None => 500,
    };
    let ghost all = text_map::text_pairs(response.headers@);
    let mut headers: Vec<(String, String)> = Vec::new();
    let mut i: usize = 0;
    assert(all.take(0) =~= Seq::empty());
    assert(text_map::text_pairs(headers@) =~= Seq::empty());
    while i < response.headers.len()
        invariant
            all == text_map::text_pairs(response.headers@),
            i <= response.headers@.len(),
            text_map::text_pairs(headers@) == sendable(all.take(i as int)),
        decreases response.headers@.len() - i,
    {
        let ghost before = text_map::text_pairs(headers@);
        proof {
            assert(all.take(i + 1).drop_last() =~= all.take(i as int));
            assert(all.take(i + 1).last() == all[i as int]);
        }
        match header_name(response.headers[i].0.as_str()) {
            Some(name) => {
                if takes_value(response.headers[i].1.as_str()) {
                    let ghost sent = (name@, response.headers@[i as int].1@);
                    headers.push((name, response.headers[i].1.clone()));
                    assert(text_map::text_pairs(headers@) =~= before.push(sent));
                }
            },
            None => {},
        }
        i += 1;
    }
    assert(all.take(i as int) =~= all);
    AuthReply { status, headers, body: response.body }
}

/// A document with an error message.
pub open spec fn error_document(message: Seq<char>) -> JsonView {
    JsonView::Object(Map::<Seq<char>, JsonView>::empty().insert("error"@, JsonView::String(message)))
}

/// A reply without headers.
pub open spec fn bare_reply(status: u16, body: Seq<char>) -> AuthReplyView {
    AuthReplyView { status, headers: Seq::empty(), body: vstd::utf8::encode_utf8(body) }
}

fn bare(status: u16, body: &str) -> (r: AuthReply)
    ensures
        r@ == bare_reply(status, body@),
{
    let headers: Vec<(String, String)> = Vec::new();
    assert(text_map::text_pairs(headers@) =~= Seq::empty());
    AuthReply { status, headers, body: body.as_bytes_vec() }
}

fn error_reply(status: u16, message: String) -> (r: AuthReply)
    ensures
        r@ == bare_reply(status, json_text::json_text(error_document(message@))),
{
    let mut members: Vec<(String, Json)> = Vec::new();
    set_member(&mut members, "error".to_owned(), Json::String(message));
    let document = Json::Object(members);
    bare(status, json_text::to_text(&document).as_str())
}

/// What became of a request to the authentication service.
#[derive(Debug)]
pub enum AuthOutcome {
    /// There is no authentication service.
    Disabled,
    /// The request could not be handed over.
    Refused(String),
    /// The service failed.
    Failed(String),
    /// The service replied.
    Replied(AuthResponse),
}

/// Answers a request to the authentication service.
pub fn answer_auth(outcome: AuthOutcome) -> (r: AuthReply)
    ensures
        match outcome {
            AuthOutcome::Disabled => r@ == bare_reply(404, "{\"error\":\"auth not enabled\"}"@),
            AuthOutcome::Refused(problem) => r@ == bare_reply(
                400,
                json_text::json_text(error_document(problem@)),
            ),
            AuthOutcome::Failed(problem) => r@ == bare_reply(
                500,
                json_text::json_text(error_document(problem@)),
            ),
            AuthOutcome::Replied(response) => {
                &&& r.status == (if is_status(response.status) {
                    response.status
                } else {
                    500
                })
                &&& r@.headers == sendable(text_map::text_pairs(response.headers@))
                &&& r@.body == response.body@
            },
        },
{
    match outcome {
        AuthOutcome::Disabled => bare(404, "{\"error\":\"auth not enabled\"}"),
        AuthOutcome::Refused(problem) => error_reply(400, problem),
        AuthOutcome::Failed(problem) => error_reply(500, problem),
        AuthOutcome::Replied(response) => from_auth_response(response),
    }
}

/// Whether a text is made of white space only.
pub open spec fn blank(s: Seq<char>) -> bool {
    forall|i: int| 0 <= i < s.len() ==> text::white_space(#[trigger] s[i])
}

/// The cookie that a part of a header gives: a name that is not empty and,
/// behind an equals sign, a value, both without the white space around them.
pub open spec fn cookie_of(part: Seq<char>) -> Option<(Seq<char>, Seq<char>)> {
    let pair = text::trim(part);
    match text::first_index(pair, '=') {
        Some(i) => {
            let name = text::trim(pair.take(i));
            if name.len() == 0 {
                None
            } else {
                Some((name, text::trim(pair.skip(i + 1))))
            }
        },
        None => None,
    }
}

/// What each part of a header that is not blank gives.
pub open spec fn cookies_of(parts: Seq<Seq<char>>) -> Seq<Option<(Seq<char>, Seq<char>)>>
    decreases parts.len(),
{
    if parts.len() == 0 {
        Seq::empty()
    } else {
        let before = cookies_of(parts.drop_last());
        if blank(parts.last()) {
            before
        } else {
            before.push(cookie_of(parts.last()))
        }
    }
}

/// The model of what the parts of a header give.
pub open spec fn cookie_views(cookies: Seq<Option<(String, String)>>) -> Seq<
    Option<(Seq<char>, Seq<char>)>,
> {
    Seq::new(
        cookies.len(),
        |i: int|
            match cookies[i] {
                Some((name, value)) => Some((name@, value@)),
                None => None,
            },
    )
}

/// `cookie::Cookie::split_parse` reads what stands between semicolons: blank
/// parts are skipped, and a part without a name or an equals sign is an error.
#[verifier::external_body]
fn read_cookies(header: &str) -> (r: Vec<Option<(String, String)>>)
    ensures
        cookie_views(r@) == cookies_of(text::split_on(header@, ';')),
{
    cookie::Cookie::split_parse(header)
        .map(|c| c.ok().map(|c| (c.name().to_owned(), c.value().to_owned())))
        .collect()
}

/// The value of the first cookie with a name whose value is not empty.
pub open spec fn cookie_value(
    cookies: Seq<Option<(Seq<char>, Seq<char>)>>,
    name: Seq<char>,
) -> Option<Seq<char>>
    decreases cookies.len(),
{
    if cookies.len() == 0 {
        None
    } else {
        match cookie_value(cookies.drop_last(), name) {
            Some(value) => Some(value),
            None => match cookies.last() {
                Some((n, value)) => if n == name && value.len() > 0 {
                    Some(value)
                } else {
                    None
                },
                None => None,
            },
        }
    }
}

proof fn cookie_value_stands(
    cookies: Seq<Option<(Seq<char>, Seq<char>)>>,
    name: Seq<char>,
    i: int,
)
    requires
        0 <= i <= cookies.len(),
        cookie_value(cookies.take(i), name) is Some,
    ensures
        cookie_value(cookies, name) == cookie_value(cookies.take(i), name),
    decreases cookies.len(),
{
    if i == cookies.len() {
        assert(cookies.take(i) =~= cookies);
    } else {
        assert(cookies.drop_last().take(i) =~= cookies.take(i));
        cookie_value_stands(cookies.drop_last(), name, i);
    }
}

/// The value of the first cookie with a name whose value is not empty.
pub fn find_cookie(cookies: &Vec<Option<(String, String)>>, name: &str) -> (r: Option<String>)
    ensures
        owned(r) == cookie_value(cookie_views(cookies@), name@),
{
    let ghost all = cookie_views(cookies@);
    let mut i: usize = 0;
    assert(all.take(0) =~= Seq::empty());
    while i < cookies.len()
        invariant
            all == cookie_views(cookies@),
            i <= cookies@.len(),
            cookie_value(all.take(i as int), name@) is None,
        decreases cookies@.len() - i,
    {
        proof {
            assert(all.take(i + 1).drop_last() =~= all.take(i as int));
            assert(all.take(i + 1).last() == all[i as int]);
        }
        match &cookies[i] {
            Some(pair) => {
                if same_text(pair.0.as_str(), name) && pair.1.as_str().unicode_len() > 0 {
                    proof {
                        cookie_value_stands(all, name@, i + 1);
                    }
                    return Some(pair.1.clone());
                }
            },
            None => {},
        }
        i += 1;
    }
    assert(all.take(i as int) =~= all);
    None
}

/// The token that an `Authorization` header carries.
pub open spec fn bearer_token(authorization: Option<Seq<u8>>) -> Option<Seq<char>> {
    match authorization {
        Some(bytes) => match visible_text(bytes) {
            Some(value) => if text::has_prefix(value, "Bearer "@) {
                Some(value.skip(7))
            } else {
                None
            },
            None => None,
        },
        None => None,
    }
}

/// The token that a `Cookie` header carries.
pub open spec fn cookie_token(cookie: Option<Seq<u8>>, name: Seq<char>) -> Option<Seq<char>> {
    match cookie {
        Some(bytes) => match visible_text(bytes) {
            Some(value) => cookie_value(cookies_of(text::split_on(value, ';')), name),
            None => None,
        },
        None => None,
    }
}

/// The token of a request: that of its `Authorization` header, else that of
/// its session cookie.
pub open spec fn token_of(
    authorization: Option<Seq<u8>>,
    cookie: Option<Seq<u8>>,
    cookie_name: Seq<char>,
) -> Option<Seq<char>> {
    match bearer_token(authorization) {
        Some(token) => Some(token),
        None => cookie_token(cookie, cookie_name),
    }
}

/// The model of an optional header value.
pub open spec fn raw(value: Option<&Vec<u8>>) -> Option<Seq<u8>> {
    match value {
        Some(bytes) => Some(bytes@),
        None => None,
    }
}

fn read_bearer(authorization: Option<&Vec<u8>>) -> (r: Option<String>)
    ensures
        owned(r) == bearer_token(raw(authorization)),
{
    match authorization {
        Some(bytes) => match header_text(bytes.as_slice()) {
            Some(value) => {
                if begins(value.as_str(), "Bearer ") {
                    proof {
                        reveal_strlit("Bearer ");
                        assert("Bearer "@.len() == 7);
                    }
                    let chars = chars_of(value.as_str());
                    let token = text_of(&chars, 7, chars.len());
                    assert(token@ =~= value@.skip(7));
                    Some(token)
                } else {
                    None
                }
            },
            None => None,
        },
        None => None,
    }
}

/// The token of a request, if it carries one. The headers are given by their
/// raw values.
pub fn session_token(
    authorization: Option<&Vec<u8>>,
    cookie: Option<&Vec<u8>>,
    cookie_name: &str,
) -> (r: Option<String>)
    ensures
        owned(r) == token_of(raw(authorization), raw(cookie), cookie_name@),
{
    match read_bearer(authorization) {
        Some(token) => Some(token),
        None => match cookie {
            Some(bytes) => match header_text(bytes.as_slice()) {
                Some(value) => find_cookie(&read_cookies(value.as_str()), cookie_name),
                None => None,
            },
            None => None,
        },
    }
}

/// A point in time: seconds since the epoch and nanoseconds behind them.
#[derive(Debug, Clone, Copy, PartialEq, Eq, Structural)]
pub struct Moment {
    pub seconds: i64,
    pub nanoseconds: u32,
}

/// Whether `a` is later than `b`.
pub open spec fn later(a: Moment, b: Moment) -> bool {
    a.seconds > b.seconds || (a.seconds == b.seconds && a.nanoseconds > b.nanoseconds)
}

/// What the session store knows of a session.
#[derive(Debug, Clone, Copy)]
pub struct SessionInfo {
    pub expires_at: Moment,
    pub active: bool,
}

/// Whether a session admits a request: it is known, active and not expired.
pub open spec fn session_valid(session: Option<SessionInfo>, now: Moment) -> bool {
    match session {
        Some(session) => later(session.expires_at, now) && session.active,
        None => false,
    }
}

/// A refusal of the session check: a JSON document that says why.
pub open spec fn unauthorized(message: Seq<char>) -> AuthReplyView {
    AuthReplyView {
        status: 401,
        headers: seq![("Content-Type"@, "application/json"@)],
        body: vstd::utf8::encode_utf8(json_text::one_member("error"@, message)),
    }
}

fn deny(message: &str) -> (r: AuthReply)
    ensures
        r@ == unauthorized(message@),
{
    let body = concat3("{\"error\":\"", message, "\"}");
    proof {
        reveal_strlit("{\"");
        reveal_strlit("error");
        reveal_strlit("\":\"");
        reveal_strlit("{\"error\":\"");
        assert("{\""@ + "error"@ + "\":\""@ =~= "{\"error\":\""@);
        assert(body@ =~= json_text::one_member("error"@, message@));
    }
    let mut headers: Vec<(String, String)> = Vec::new();
    headers.push(("Content-Type".to_owned(), "application/json".to_owned()));
    assert(text_map::text_pairs(headers@) =~= seq![("Content-Type"@, "application/json"@)]);
    AuthReply { status: 401, headers, body: body.as_str().as_bytes_vec() }
}

/// How the session check of a request goes on.
#[derive(Debug)]
pub enum SessionStep {
    /// The request is admitted.
    Allow,
    /// The request is refused.
    Deny(AuthReply),
    /// The session with this token is looked up.
    LookUp { token: String },
}

/// Begins the session check. `cookie_name` is that of the session cookie where
/// there is an authentication service; without one every request is admitted.
pub fn begin_session(
    cookie_name: Option<&str>,
    authorization: Option<&Vec<u8>>,
    cookie: Option<&Vec<u8>>,
) -> (r: SessionStep)
    ensures
        match cookie_name {
            None => r is Allow,
            Some(name) => match token_of(raw(authorization), raw(cookie), name@) {
                Some(token) => r matches SessionStep::LookUp { token: t } && t@ == token,
                None => r matches SessionStep::Deny(reply) && reply@ == unauthorized(
                    "Authentication required"@,
                ),
            },
        },
{
    match cookie_name {
        None => SessionStep::Allow,
        Some(name) => match session_token(authorization, cookie, name) {
            Some(token) => SessionStep::LookUp { token },
            None => SessionStep::Deny(deny("Authentication required")),
        },
    }
}

/// Ends the session check with what was found under the token. A store that
/// failed counts as having found nothing.
pub fn verify_session(session: Option<SessionInfo>, now: Moment) -> (r: Result<(), AuthReply>)
    ensures
        match r {
            Ok(_) => session_valid(session, now),
            Err(reply) => !session_valid(session, now) && reply@ == unauthorized(
                "Invalid or expired session"@,
            ),
        },
{
    let valid: bool = match session {
        Some(s) => {
            let lasts: bool = s.expires_at.seconds > now.seconds || (s.expires_at.seconds
                == now.seconds && s.expires_at.nanoseconds > now.nanoseconds);
            lasts && s.active
        },
        None => false,
    };
    if valid {
        Ok(())
    } else {
        Err(deny("Invalid or expired session"))
    }
}

/// The text under `error` in a document, where there is one.
pub open spec fn error_member(document: Option<JsonView>) -> Option<Seq<char>> {
    match document {
        Some(JsonView::Object(members)) => if members.contains_key("error"@) {
            match members["error"@] {
                JsonView::String(message) => Some(message),
                _ => None,
            }
        } else {
            None
        },
        _ => None,
    }
}

/// Reads the text under `error` in a JSON document.
fn read_error(body: &[u8]) -> (r: Option<String>)
    ensures
        owned(r) == error_member(json_text::read_document(body@)),
        forall|message: Seq<char>|
            body@ == vstd::utf8::encode_utf8(#[trigger] json_text::one_member("error"@, message))
                && json_text::plain(message) ==> owned(r) == Some(message),
{
    proof {
        reveal_strlit("error");
    }
    let document = match json_text::parse_document(body) {
        Some(document) => document,
        None => return None,
    };
    let message = match json_text::member_of(&document, "error") {
        Some(value) => json_text::string_of(value),
        None => None,
    };
    message
}

/// The message of an envelope, given that of a refusal.
pub open spec fn envelope_message(message: Option<Seq<char>>) -> Seq<char> {
    match message {
        Some(message) => message,
        None => "Authentication required"@,
    }
}

/// The envelope around a refusal, given its status and message.
pub fn session_error(status: u16, message: Option<String>) -> (r: ApiError)
    ensures
        r@ == response::plain_error(status, envelope_message(owned(message)), "unauthorized"@),
{
    match message {
        Some(message) => create_error(status, message.as_str(), "unauthorized"),
        None => create_error(status, "Authentication required", "unauthorized"),
    }
}

proof fn refusals_are_short(message: Seq<char>)
    requires
        json_text::plain(message),
        message.len() <= 500,
    ensures
        unauthorized(message).body.len() <= MAX_REFUSAL_BYTES,
{
    let body = json_text::one_member("error"@, message);
    reveal_strlit("{\"");
    reveal_strlit("error");
    reveal_strlit("\":\"");
    reveal_strlit("\"}");
    assert(body.len() == message.len() + 12);
    assert(vstd::utf8::is_ascii_chars(body)) by {
        assert forall|i: int| 0 <= i < body.len() implies '\0' <= #[trigger] body[i]
            <= '\u{7f}' by {
            if 10 <= i < 10 + message.len() {
                assert(body[i] == message[i - 10]);
            }
        }
    }
    vstd::utf8::is_ascii_chars_encode_utf8(body);
}

/// Turns a refusal of the session check into the envelope of the JSON
/// endpoints: it keeps the status and, where the body is short enough and says
/// one, the message.
pub fn require_session(refusal: &AuthReply) -> (r: ApiError)
    ensures
        r@ == response::plain_error(
            refusal.status,
            envelope_message(
                error_member(
                    json_text::read_document(
                        if refusal.body@.len() <= MAX_REFUSAL_BYTES {
                            refusal.body@
                        } else {
                            Seq::empty()
                        },
                    ),
                ),
            ),
            "unauthorized"@,
        ),
        forall|message: Seq<char>|
            refusal@ == #[trigger] unauthorized(message) && json_text::plain(message)
                && message.len() <= 500 ==> r@ == response::plain_error(
                401,
                message,
                "unauthorized"@,
            ),
{
    proof {
        assert forall|message: Seq<char>| #[trigger]
            unauthorized(message).body == refusal.body@ && json_text::plain(message)
                && message.len() <= 500 implies refusal.body@.len() <= MAX_REFUSAL_BYTES by {
            refusals_are_short(message);
        }
    }
    let message = if refusal.body.len() <= MAX_REFUSAL_BYTES {
        read_error(refusal.body.as_slice())
    } else {
        let nothing: Vec<u8> = Vec::new();
        assert(nothing@ =~= Seq::empty());
        read_error(nothing.as_slice())
    };
    proof {
        assert forall|text: Seq<char>|
            refusal@ == #[trigger] unauthorized(text) && json_text::plain(text) && text.len()
                <= 500 implies owned(message) == Some(text) by {
            assert(unauthorized(text).body == refusal.body@);
        }
    }
    session_error(refusal.status, message)
}

/// Ends the session check of a JSON endpoint with what was found under the
/// token.
pub fn check_session(session: Option<SessionInfo>, now: Moment) -> (r: Result<(), ApiError>)
    ensures
        match r {
            Ok(_) => session_valid(session, now),
            Err(e) => !session_valid(session, now) && e@ == response::plain_error(
                401,
                "Invalid or expired session"@,
                "unauthorized"@,
            ),
        },
{
    match verify_session(session, now) {
        Ok(_) => Ok(()),
        Err(refusal) => {
            proof {
                reveal_strlit("Invalid or expired session");
            }
            Err(require_session(&refusal))
        },
    }
}

/// A header that carries a bearer token takes precedence over every cookie.
pub proof fn bearer_tokens_come_first(
    token: Seq<char>,
    authorization: Seq<u8>,
    cookie: Option<Seq<u8>>,
    cookie_name: Seq<char>,
)
    requires
        visible_text(authorization) == Some("Bearer "@ + token),
    ensures
        token_of(Some(authorization), cookie, cookie_name) == Some(token),
{
    reveal_strlit("Bearer ");
    assert("Bearer "@.len() == 7);
    let value = "Bearer "@ + token;
    assert(value.subrange(0, 7) =~= "Bearer "@);
    assert(value.skip(7) =~= token);
}

/// A session that has expired stays expired.
pub proof fn sessions_do_not_revive(session: SessionInfo, now: Moment, then: Moment)
    requires
        !later(session.expires_at, now),
        !later(now, then),
    ensures
        !session_valid(Some(session), then),
{
}

} // verus!
