//! Connection strings as they are shown: without the user and the password.
use vstd::prelude::*;

use crate::text;
use crate::text::{chars_of, text_of};

verus! {

/// Where what follows the first `://` at or behind `i` begins.
pub open spec fn scheme_end(url: Seq<char>, i: int) -> Option<int>
    decreases url.len() - i,
{
    if i + 3 > url.len() {
        None
    } else if url[i] == ':' && url[i + 1] == '/' && url[i + 2] == '/' {
        Some(i + 3)
    } else {
        scheme_end(url, i + 1)
    }
}

/// Where the authority that begins at or in front of `i` ends: at the first
/// slash, question mark or hash.
pub open spec fn authority_end(url: Seq<char>, i: int) -> int
    decreases url.len() - i,
{
    if i >= url.len() || url[i] == '/' || url[i] == '?' || url[i] == '#' {
        i
    } else {
        authority_end(url, i + 1)
    }
}

/// The authority of a URL: what names the user and the host.
pub open spec fn authority(url: Seq<char>) -> Option<Seq<char>> {
    match scheme_end(url, 0) {
        None => None,
        Some(start) => Some(url.subrange(start, authority_end(url, start))),
    }
}

/// A URL without what stands between `://` and the last `@` of its authority.
pub open spec fn sanitized(url: Seq<char>) -> Seq<char> {
    match authority(url) {
        None => url,
        Some(authority) => match text::last_index(authority, '@') {
            None => url,
            Some(i) => url.take(scheme_end(url, 0)->0) + url.skip(
                scheme_end(url, 0)->0 + i + 1,
            ),
        },
    }
}

proof fn authority_end_is_behind(url: Seq<char>, i: int)
    requires
        0 <= i <= url.len(),
    ensures
        i <= authority_end(url, i) <= url.len(),
    decreases url.len() - i,
{
    if !(i >= url.len() || url[i] == '/' || url[i] == '?' || url[i] == '#') {
        authority_end_is_behind(url, i + 1);
    }
}

proof fn scheme_end_is_behind(url: Seq<char>, i: int)
    requires
        0 <= i,
    ensures
        scheme_end(url, i) matches Some(start) ==> i + 3 <= start <= url.len(),
    decreases url.len() - i,
{
    if i + 3 <= url.len() && !(url[i] == ':' && url[i + 1] == '/' && url[i + 2] == '/') {
        scheme_end_is_behind(url, i + 1);
    }
}

/// Where the scheme ends depends on nothing behind it.
proof fn scheme_end_stands(url: Seq<char>, other: Seq<char>, i: int)
    requires
        0 <= i,
        scheme_end(url, i) is Some,
        scheme_end(url, i)->0 <= other.len(),
        url.take(scheme_end(url, i)->0) == other.take(scheme_end(url, i)->0),
    ensures
        scheme_end(other, i) == scheme_end(url, i),
    decreases url.len() - i,
{
    let start = scheme_end(url, i)->0;
    scheme_end_is_behind(url, i);
    assert forall|k: int| 0 <= k < start implies url[k] == other[k] by {
        assert(url.take(start)[k] == other.take(start)[k]);
    }
    if !(url[i] == ':' && url[i + 1] == '/' && url[i + 2] == '/') {
        scheme_end_is_behind(url, i + 1);
        scheme_end_stands(url, other, i + 1);
    }
}

/// Where the authority ends does not depend on where one begins to look for
/// it.
proof fn authority_end_from(url: Seq<char>, i: int, j: int)
    requires
        0 <= i <= j <= authority_end(url, i),
        i <= url.len(),
    ensures
        authority_end(url, j) == authority_end(url, i),
    decreases j - i,
{
    if i < j {
        authority_end_from(url, i + 1, j);
    }
}

proof fn authority_end_moves(url: Seq<char>, other: Seq<char>, i: int, j: int)
    requires
        0 <= i <= url.len(),
        0 <= j <= other.len(),
        url.skip(i) == other.skip(j),
    ensures
        authority_end(url, i) - i == authority_end(other, j) - j,
    decreases url.len() - i,
{
    assert(url.skip(i).len() == url.len() - i);
    assert(other.skip(j).len() == other.len() - j);
    if i < url.len() {
        assert(url[i] == url.skip(i)[0]);
        assert(other[j] == other.skip(j)[0]);
        assert(url.skip(i + 1) =~= url.skip(i).skip(1));
        assert(other.skip(j + 1) =~= other.skip(j).skip(1));
        authority_end_moves(url, other, i + 1, j + 1);
    }
}

/// What is shown of a URL names no user: its authority holds no `@`. Its
/// scheme is that of the URL, and so is what follows the user.
pub proof fn shown_locations_name_no_user(url: Seq<char>)
    ensures
        authority(url) is Some == authority(sanitized(url)) is Some,
        authority(sanitized(url)) matches Some(shown) ==> !shown.contains('@') && exists|user: Seq<
            char,
        >| #[trigger]
            (user + shown) == authority(url)->0,
{
    let shown = sanitized(url);
    match scheme_end(url, 0) {
        None => {},
        Some(start) => {
            scheme_end_is_behind(url, 0);
            authority_end_is_behind(url, start);
            let end = authority_end(url, start);
            let whole = url.subrange(start, end);
            text::last_index_is_last(whole, '@');
            match text::last_index(whole, '@') {
                None => {
                    assert(Seq::<char>::empty() + whole =~= whole);
                },
                Some(i) => {
                    let rest = start + i + 1;
                    assert(shown.take(start) =~= url.take(start));
                    scheme_end_stands(url, shown, 0);
                    assert(shown.skip(start) =~= url.skip(rest));
                    authority_end_moves(url, shown, rest, start);
                    authority_end_from(url, start, rest);
                    let left = authority(shown)->0;
                    assert(left =~= whole.skip(i + 1));
                    assert(!left.contains('@')) by {
                        assert forall|k: int| 0 <= k < left.len() implies left[k] != '@' by {
                            assert(left[k] == whole[i + 1 + k]);
                        }
                    }
                    assert(whole.take(i + 1) + left =~= whole);
                },
            }
        },
    }
}

/// A URL as it is shown: without the user and the password.
pub fn without_user(url: &str) -> (r: String)
    ensures
        r@ == sanitized(url@),
{
    let chars = chars_of(url);
    let ghost all = url@;
    let mut start: usize = 0;
    while start < chars.len()
        invariant
            chars@ == all,
            all == url@,
            start <= all.len(),
            scheme_end(all, 0) == scheme_end(all, start as int),
        decreases chars@.len() - start,
    {
        if chars.len() - start < 3 {
            return url.to_owned();
        }
        if chars[start] == ':' && chars[start + 1] == '/' && chars[start + 2] == '/' {
            return behind_user(url, &chars, start + 3);
        }
        start += 1;
    }
    url.to_owned()
}

/// Takes the user out of a URL whose authority begins at `start`.
fn behind_user(url: &str, chars: &Vec<char>, start: usize) -> (r: String)
    requires
        chars@ == url@,
        scheme_end(url@, 0) == Some(start as int),
        start <= chars@.len(),
    ensures
        r@ == sanitized(url@),
{
    let mut user: Option<usize> = None;
    let mut end: usize = start;
    assert(chars@.subrange(start as int, end as int) =~= Seq::empty());
    while end < chars.len() && chars[end] != '/' && chars[end] != '?' && chars[end] != '#'
        invariant
            chars@ == url@,
            start <= end <= chars@.len(),
            authority_end(url@, start as int) == authority_end(url@, end as int),
            match user {
                Some(i) => start <= i < end && text::last_index(
                    url@.subrange(start as int, end as int),
                    '@',
                ) == Some(i - start),
                None => text::last_index(url@.subrange(start as int, end as int), '@') is None,
            },
        decreases chars@.len() - end,
    {
        assert(url@.subrange(start as int, end + 1).drop_last() =~= url@.subrange(
            start as int,
            end as int,
        ));
        if chars[end] == '@' {
            user = Some(end);
        }
        end += 1;
    }
    match user {
        None => url.to_owned(),
        Some(i) => {
            let mut shown = text_of(chars, 0, start);
            let rest = text_of(chars, i + 1, chars.len());
            shown.append(rest.as_str());
            assert(shown@ =~= sanitized(url@));
            shown
        },
    }
}

} // verus!
