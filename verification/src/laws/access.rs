//! Who is let in, and what is handed to the authentication service.
use vstd::prelude::*;

use crate::json::JsonView;
use crate::laws::texts;
use crate::server::auth;
use crate::server::auth::{AuthRequestView, HttpMethod, Moment, SessionInfo};
use crate::text;
use crate::text_map;

verus! {

/// What a method is called.
pub open spec fn method_name(method: HttpMethod) -> Seq<char> {
    match method {
        HttpMethod::Get => "GET"@,
        HttpMethod::Post => "POST"@,
        HttpMethod::Put => "PUT"@,
        HttpMethod::Delete => "DELETE"@,
        HttpMethod::Patch => "PATCH"@,
        HttpMethod::Options => "OPTIONS"@,
        HttpMethod::Head => "HEAD"@,
    }
}

/// A method is known by its own name and by no other.
pub proof fn methods_go_by_their_names(name: Seq<char>, method: HttpMethod)
    ensures
        auth::method_named(name) == Some(method) <==> name == method_name(method),
{
    reveal_strlit("GET");
    reveal_strlit("POST");
    reveal_strlit("PUT");
    reveal_strlit("DELETE");
    reveal_strlit("PATCH");
    reveal_strlit("OPTIONS");
    reveal_strlit("HEAD");
    assert("GET"@[0] != "PUT"@[0]);
    assert("POST"@[0] != "HEAD"@[0]);
    assert("GET"@.len() == 3 && "PUT"@.len() == 3);
    assert("POST"@.len() == 4 && "HEAD"@.len() == 4);
    assert("PATCH"@.len() == 5);
    assert("DELETE"@.len() == 6);
    assert("OPTIONS"@.len() == 7);
}

/// What is handed to the authentication service is the request: its method, its
/// path, its body where it has one, its visible headers and its query; a method
/// that is not known and a body that could not be read are refused, in words that
/// name the method or the problem.
pub proof fn requests_are_handed_over(
    method: HttpMethod,
    path: Seq<char>,
    headers: Seq<(String, Vec<u8>)>,
    pairs: Seq<(Seq<char>, Seq<char>)>,
    body: Seq<u8>,
    problem: Seq<char>,
    unknown: Seq<char>,
)
    requires
        auth::method_named(unknown) is None,
    ensures
        auth::auth_request(method_name(method), path, headers, pairs, Ok(body)) matches Ok(request)
            && request.method == method && request.path == path && request.body == (if body.len()
            == 0 {
            None::<Seq<u8>>
        } else {
            Some(body)
        }) && request.headers == auth::header_map(headers) && request.query
            == text_map::pairs_view(pairs),
        auth::auth_request(method_name(method), path, headers, pairs, Err(problem)) == Err::<
            AuthRequestView,
            _,
        >("Failed to read request body: "@ + problem),
        auth::auth_request(unknown, path, headers, pairs, Ok(body)) == Err::<AuthRequestView, _>(
            "Unsupported HTTP method: "@ + unknown,
        ),
{
    methods_go_by_their_names(method_name(method), method);
}

/// A later header replaces an earlier one of the same name, written in any case;
/// a header whose value is not visible is left out; no other header changes.
pub proof fn later_headers_count(
    headers: Seq<(String, Vec<u8>)>,
    header: (String, Vec<u8>),
    other: Seq<char>,
)
    requires
        other != text::lower(header.0@),
    ensures
        match auth::visible_text(header.1@) {
            Some(value) => {
                &&& auth::header_map(headers.push(header)).contains_key(text::lower(header.0@))
                &&& auth::header_map(headers.push(header))[text::lower(header.0@)] == value
            },
            None => auth::header_map(headers.push(header)) == auth::header_map(headers),
        },
        auth::header_map(headers.push(header)).contains_key(other) == auth::header_map(
            headers,
        ).contains_key(other),
        auth::header_map(headers).contains_key(other) ==> auth::header_map(headers.push(header))[other]
            == auth::header_map(headers)[other],
{
    assert(headers.push(header).drop_last() =~= headers);
    assert(headers.push(header).last() == header);
}

/// A header's bytes are read as the characters of the same codes, and only where
/// each is printable ASCII, a space or a tab.
pub proof fn visible_bytes_are_their_characters(bytes: Seq<u8>, i: int)
    requires
        0 <= i < bytes.len(),
    ensures
        match auth::visible_text(bytes) {
            Some(value) => value.len() == bytes.len() && value[i] as int == bytes[i] as int && (
            32 <= bytes[i] < 127 || bytes[i] == 9),
            None => exists|k: int|
                0 <= k < bytes.len() && !(32 <= #[trigger] bytes[k] < 127 || bytes[k] == 9),
        },
{
    byte_is_its_character(bytes[i]);
    if auth::visible_text(bytes) is None {
        let k = choose|k: int| 0 <= k < bytes.len() && !auth::visible(#[trigger] bytes[k]);
        assert(!auth::visible(bytes[k]));
    } else {
        assert(auth::visible(bytes[i]));
    }
}

proof fn byte_is_its_character(b: u8)
    ensures
        b as char as int == b as int,
{
}

/// A pair of a query counts unless a later pair has the same name.
pub proof fn later_pairs_count(pairs: Seq<(Seq<char>, Seq<char>)>, i: int)
    requires
        0 <= i < pairs.len(),
        forall|j: int| i < j < pairs.len() ==> (#[trigger] pairs[j]).0 != pairs[i].0,
    ensures
        text_map::pairs_view(pairs).contains_key(pairs[i].0),
        text_map::pairs_view(pairs)[pairs[i].0] == pairs[i].1,
    decreases pairs.len(),
{
    let last = pairs.len() - 1;
    if i < last {
        assert(pairs[last].0 != pairs[i].0);
        later_pairs_count(pairs.drop_last(), i);
    }
}

/// A part of a cookie header that is a name, an equals sign and a value, with any
/// white space around each, gives that name and that value.
pub proof fn cookies_are_names_and_values(
    front: Seq<char>,
    name: Seq<char>,
    between: Seq<char>,
    behind: Seq<char>,
    value: Seq<char>,
    back: Seq<char>,
)
    requires
        name.len() > 0,
        !name.contains('='),
        texts::tight(name),
        texts::tight(value),
        texts::all_white(front),
        texts::all_white(between),
        texts::all_white(behind),
        texts::all_white(back),
    ensures
        auth::cookie_of(front + (name + between + seq!['='] + behind + value) + back) == Some(
            (name, value),
        ),
{
    let inner = name + between + seq!['='] + behind + value;
    if value.len() > 0 {
        assert(inner[0] == name[0]);
        assert(inner.last() == value.last());
        texts::tight_texts_survive_trimming(front, inner, back);
        cookie_pair(name, between, behind, value);
    } else {
        let core = name + between + seq!['='];
        let rest = behind + value + back;
        assert(core[0] == name[0]);
        assert(core.last() == '=');
        assert(!text::white_space('='));
        assert(front + inner + back =~= front + core + rest);
        assert forall|i: int| 0 <= i < rest.len() implies text::white_space(#[trigger] rest[i]) by {
            if i < behind.len() {
                assert(rest[i] == behind[i]);
            } else {
                assert(rest[i] == back[i - behind.len()]);
            }
        }
        texts::tight_texts_survive_trimming(front, core, rest);
        assert(value =~= Seq::empty());
        let none: Seq<char> = Seq::empty();
        assert(core =~= name + between + seq!['='] + none + value);
        cookie_pair(name, between, none, value);
    }
}

proof fn cookie_pair(
    name: Seq<char>,
    between: Seq<char>,
    behind: Seq<char>,
    value: Seq<char>,
)
    requires
        name.len() > 0,
        !name.contains('='),
        texts::tight(name),
        texts::tight(value),
        texts::all_white(between),
        texts::all_white(behind),
    ensures
        ({
            let pair = name + between + seq!['='] + behind + value;
            &&& text::first_index(pair, '=') == Some((name.len() + between.len()) as int)
            &&& text::trim(pair.take((name.len() + between.len()) as int)) == name
            &&& text::trim(pair.skip((name.len() + between.len()) as int + 1)) == value
        }),
{
    let pair = name + between + seq!['='] + behind + value;
    let at = (name.len() + between.len()) as int;
    text::first_index_is_first(pair, '=');
    assert(pair[at] == '=');
    assert(pair.contains(pair[at]));
    let found = text::first_index(pair, '=')->0;
    if found < at {
        if found < name.len() {
            assert(pair[found] == name[found]);
            assert(name.contains(name[found]));
        } else {
            assert(pair[found] == between[found - name.len()]);
            assert(!text::white_space('='));
            assert(text::white_space(between[found - name.len()]));
        }
    } else if found > at {
        assert(pair[at] != '=');
    }
    let none: Seq<char> = Seq::empty();
    assert(pair.take(at) =~= none + name + between);
    texts::tight_texts_survive_trimming(none, name, between);
    assert(pair.skip(at + 1) =~= behind + value + none);
    texts::tight_texts_survive_trimming(behind, value, none);
}

/// The value of a cookie is that of the first cookie with the name whose value is
/// not empty, and there is none where no cookie is such.
pub proof fn the_first_cookie_counts(
    cookies: Seq<Option<(Seq<char>, Seq<char>)>>,
    name: Seq<char>,
)
    ensures
        match auth::cookie_value(cookies, name) {
            Some(value) => value.len() > 0 && exists|i: int|
                0 <= i < cookies.len() && #[trigger] cookies[i] == Some((name, value)) && forall|
                    j: int,
                |
                    0 <= j < i ==> !has_cookie(#[trigger] cookies[j], name),
            None => forall|i: int| 0 <= i < cookies.len() ==> !has_cookie(#[trigger] cookies[i], name),
        },
    decreases cookies.len(),
{
    if cookies.len() > 0 {
        let shorter = cookies.drop_last();
        let last = cookies.len() - 1;
        the_first_cookie_counts(shorter, name);
        assert(cookies[last] == cookies.last());
        match auth::cookie_value(shorter, name) {
            Some(value) => {
                let i = choose|i: int|
                    0 <= i < shorter.len() && #[trigger] shorter[i] == Some((name, value)) && forall|
                        j: int,
                    |
                        0 <= j < i ==> !has_cookie(#[trigger] shorter[j], name);
                assert(cookies[i] == shorter[i]);
                assert forall|j: int| 0 <= j < i implies !has_cookie(#[trigger] cookies[j], name) by {
                    assert(shorter[j] == cookies[j]);
                }
            },
            None => {
                assert forall|j: int| 0 <= j < last implies !has_cookie(
                    #[trigger] cookies[j],
                    name,
                ) by {
                    assert(shorter[j] == cookies[j]);
                }
            },
        }
    }
}

/// Whether what a part of a cookie header gives is a cookie of a name with a value
/// that is not empty.
pub open spec fn has_cookie(cookie: Option<(Seq<char>, Seq<char>)>, name: Seq<char>) -> bool {
    cookie matches Some((n, value)) && n == name && value.len() > 0
}

/// The token of a request without a bearer token is that of its cookie; an
/// authorization header of another scheme, or in other letters, is no bearer
/// token.
pub proof fn cookies_carry_tokens(
    authorization: Option<Seq<u8>>,
    cookie: Seq<u8>,
    name: Seq<char>,
    value: Seq<char>,
)
    requires
        auth::visible_text(cookie) == Some(value),
        authorization matches Some(bytes) ==> match auth::visible_text(bytes) {
            Some(header) => !text::has_prefix(header, seq!['B', 'e', 'a', 'r', 'e', 'r', ' ']),
            None => true,
        },
    ensures
        auth::token_of(authorization, Some(cookie), name) == auth::cookie_value(
            auth::cookies_of(text::split_on(value, ';')),
            name,
        ),
        auth::token_of(authorization, None, name) is None,
{
    reveal_strlit("Bearer ");
    assert("Bearer "@ =~= seq!['B', 'e', 'a', 'r', 'e', 'r', ' ']);
}

/// How many nanoseconds a moment lies behind the epoch.
pub open spec fn nanoseconds(m: Moment) -> int {
    m.seconds * 1_000_000_000 + m.nanoseconds
}

/// A session lets its holder in exactly while it is there, active, and expires at a
/// moment that is still to come.
pub proof fn sessions_last_until_they_expire(session: SessionInfo, now: Moment)
    requires
        session.expires_at.nanoseconds < 1_000_000_000,
        now.nanoseconds < 1_000_000_000,
    ensures
        auth::session_valid(Some(session), now) <==> session.active && nanoseconds(now)
            < nanoseconds(session.expires_at),
        !auth::session_valid(None, now),
{
}

/// A refusal is a 401 with a JSON document whose one member is the message.
pub proof fn refusals_say_why(message: Seq<char>)
    ensures
        auth::unauthorized(message).status == 401,
        auth::unauthorized(message).headers == seq![("Content-Type"@, "application/json"@)],
        auth::unauthorized(message).body == vstd::utf8::encode_utf8(
            seq!['{', '"', 'e', 'r', 'r', 'o', 'r', '"', ':', '"'] + message + seq!['"', '}'],
        ),
{
    reveal_strlit("{\"");
    reveal_strlit("error");
    reveal_strlit("\":\"");
    reveal_strlit("\"}");
    assert(crate::json_text::one_member("error"@, message) =~= seq![
        '{',
        '"',
        'e',
        'r',
        'r',
        'o',
        'r',
        '"',
        ':',
        '"',
    ] + message + seq!['"', '}']);
}

/// The message of a refusal is the text under `error` in its document, and where
/// there is none the standing one.
pub proof fn refusal_messages_are_read(
    members: Map<Seq<char>, JsonView>,
    message: Seq<char>,
    document: Option<JsonView>,
)
    requires
        members.contains_key("error"@),
        members["error"@] == JsonView::String(message),
        !(document matches Some(JsonView::Object(other)) && other.contains_key("error"@)
            && other["error"@] is String),
    ensures
        auth::envelope_message(auth::error_member(Some(JsonView::Object(members)))) == message,
        auth::envelope_message(auth::error_member(document)) == "Authentication required"@,
{
}

/// An error document has one member, the message.
pub proof fn error_documents_hold_their_message(message: Seq<char>)
    ensures
        auth::error_document(message) matches JsonView::Object(members) && (forall|key: Seq<char>|
            #[trigger]
            members.contains_key(key) <==> key == "error"@) && members["error"@] == JsonView::String(
            message,
        ),
{
}

/// Headers are sent on in their order, with their names in small letters, and only
/// those whose name is a token and whose value holds no control character but the
/// tab.
pub proof fn sendable_headers_are_sent(
    headers: Seq<(Seq<char>, Seq<char>)>,
    name: Seq<char>,
    value: Seq<char>,
)
    ensures
        auth::sendable(headers.push((name, value))) == (if sendable_name(name)
            && auth::is_header_value(value) {
            auth::sendable(headers).push((text::lower(name), value))
        } else {
            auth::sendable(headers)
        }),
        auth::sendable(Seq::empty()) == Seq::<(Seq<char>, Seq<char>)>::empty(),
{
    assert(headers.push((name, value)).drop_last() =~= headers);
}

/// Whether a text can be the name of a header.
pub open spec fn sendable_name(name: Seq<char>) -> bool {
    0 < name.len() <= 65535 && forall|i: int| 0 <= i < name.len() ==> auth::name_char(#[trigger] name[i])
}

/// A bare reply has its status, no headers, and its text as the body.
pub proof fn bare_replies_are_their_text(status: u16, body: Seq<char>)
    ensures
        auth::bare_reply(status, body).status == status,
        auth::bare_reply(status, body).headers.len() == 0,
        auth::bare_reply(status, body).body == vstd::utf8::encode_utf8(body),
{
}

/// A part of a cookie header without an equals sign, or with no name in front of it, is
/// no cookie; what is blank is passed over.
pub proof fn nameless_parts_are_no_cookies(
    part: Seq<char>,
    front: Seq<char>,
    value: Seq<char>,
    parts: Seq<Seq<char>>,
)
    requires
        !text::trim(part).contains('='),
        texts::all_white(front),
    ensures
        auth::cookie_of(part) is None,
        auth::cookie_of(front + (seq!['='] + value)) is None,
        auth::cookies_of(parts.push(front)) == auth::cookies_of(parts),
        !texts::all_white(part) ==> auth::cookies_of(parts.push(part)) == auth::cookies_of(
            parts,
        ).push(None),
{
    text::first_index_is_first(text::trim(part), '=');
    if let Some(i) = text::first_index(text::trim(part), '=') {
        assert(text::trim(part).contains(text::trim(part)[i]));
    }
    let whole = front + (seq!['='] + value);
    texts::trimming_takes_white_space(whole);
    let pair = text::trim(whole);
    let (before, after) = choose|before: Seq<char>, after: Seq<char>|
        texts::all_white(before) && texts::all_white(after) && whole == #[trigger] (before + pair
            + after);
    let f = front.len() as int;
    assert(whole[f] == '=');
    assert(!text::white_space('='));
    if before.len() > f {
        assert(whole[f] == before[f]);
        assert(text::white_space(before[f]));
    }
    if f >= before.len() + pair.len() {
        assert(whole[f] == after[f - before.len() - pair.len()]);
        assert(text::white_space(after[f - before.len() - pair.len()]));
    }
    if before.len() < f {
        assert(pair[0] == whole[before.len() as int]);
        assert(whole[before.len() as int] == front[before.len() as int]);
        assert(text::white_space(front[before.len() as int]));
    }
    assert(pair[0] == '=');
    text::first_index_is_first(pair, '=');
    assert(pair.contains(pair[0]));
    let at = text::first_index(pair, '=')->0;
    if at > 0 {
        assert(pair[0] != '=');
    }
    assert(pair.take(0) =~= Seq::empty());
    texts::nothing_is_left_of_white_space(pair.take(0));
    assert(parts.push(front).drop_last() =~= parts);
    assert(parts.push(part).drop_last() =~= parts);
    assert(auth::blank(front));
}

/// A header's value can be sent where it holds no control character but the tab, spaces
/// and characters beyond ASCII included.
pub proof fn values_without_controls_are_sent(c: char)
    ensures
        auth::is_header_value(seq![c]) <==> c == '\t' || (c as int >= 32 && c as int != 127),
{
    assert(seq![c][0] == c);
    if auth::is_header_value(seq![c]) {
        assert(auth::value_char(seq![c][0]));
    }
}

} // verus!
