//! Where row paths lead.
use vstd::prelude::*;

use crate::json::JsonView;
use crate::open_connector::error::ErrorView;
use crate::open_connector::row_path;
use crate::open_connector::row_path::Walked;
use crate::text;

verus! {

/// Whether going from a value through object keys, one after the other, ends at
/// a target.
pub open spec fn leads(value: JsonView, keys: Seq<Seq<char>>, target: JsonView) -> bool
    decreases keys.len(),
{
    if keys.len() == 0 {
        value == target
    } else {
        &&& value is Object
        &&& value->Object_0.contains_key(keys[0])
        &&& leads(value->Object_0[keys[0]], keys.skip(1), target)
    }
}

/// Whether keys can be written in a path: at least one, none empty, none with a
/// dot in it.
pub open spec fn writable(keys: Seq<Seq<char>>) -> bool {
    &&& keys.len() > 0
    &&& forall|i: int|
        0 <= i < keys.len() ==> (#[trigger] keys[i]).len() > 0 && !keys[i].contains('.')
}

/// A path through keys.
pub open spec fn path_through(keys: Seq<Seq<char>>) -> Seq<char> {
    "$."@ + text::joined(keys, "."@)
}

proof fn walking_follows_keys(value: JsonView, keys: Seq<Seq<char>>, target: JsonView)
    ensures
        leads(value, keys, target) <==> row_path::walk(value, keys) == Walked::Found(target),
    decreases keys.len(),
{
    if keys.len() > 0 && value is Object && value->Object_0.contains_key(keys[0]) {
        walking_follows_keys(value->Object_0[keys[0]], keys.skip(1), target);
    }
}

proof fn walking_stops(value: JsonView, keys: Seq<Seq<char>>, n: int, stop: JsonView)
    requires
        0 <= n < keys.len(),
        leads(value, keys.take(n), stop),
    ensures
        row_path::walk(value, keys) == row_path::walk(stop, keys.skip(n)),
    decreases n,
{
    if n == 0 {
        assert(keys.skip(0) =~= keys);
    } else {
        assert(keys.take(n)[0] == keys[0]);
        assert(keys.take(n).skip(1) =~= keys.skip(1).take(n - 1));
        walking_stops(value->Object_0[keys[0]], keys.skip(1), n - 1, stop);
        assert(keys.skip(1).skip(n - 1) =~= keys.skip(n));
    }
}

/// The keys that a path is written with are the keys that it goes through.
pub proof fn paths_hold_their_keys(keys: Seq<Seq<char>>)
    requires
        writable(keys),
    ensures
        row_path::segments_of(path_through(keys)) == keys,
        row_path::parsed_path(path_through(keys)) == Ok::<_, ErrorView>(path_through(keys)),
{
    reveal_strlit("$.");
    reveal_strlit(".");
    let path = path_through(keys);
    assert("."@ =~= seq!['.']);
    assert(path.skip(2) =~= text::joined(keys, "."@));
    text::joining_is_undone(keys, '.');
    assert(path.take(2) =~= "$."@);
}

/// Only paths of at least one key from the root are accepted: what an accepted
/// path goes through are keys without dots, none of them empty, and the path
/// is what those keys are written as.
pub proof fn accepted_paths_are_written_with_keys(path: Seq<char>)
    ensures
        row_path::parsed_path(path) is Ok <==> exists|keys: Seq<Seq<char>>| #[trigger]
            writable(keys) && path == path_through(keys),
        row_path::parsed_path(path) matches Ok(same) ==> same == path,
{
    reveal_strlit("$.");
    reveal_strlit(".");
    assert("."@ =~= seq!['.']);
    if row_path::parsed_path(path) is Ok {
        let keys = row_path::segments_of(path);
        text::parts_hold_no_separator(path.skip(2), '.');
        splitting_is_undone(path.skip(2), '.');
        assert forall|i: int| 0 <= i < keys.len() implies (#[trigger] keys[i]).len() > 0
            && !keys[i].contains('.') by {}
        assert(writable(keys));
        assert(path =~= "$."@ + path.skip(2));
        assert(path == path_through(keys));
    }
    if exists|keys: Seq<Seq<char>>| #[trigger] writable(keys) && path == path_through(keys) {
        let keys = choose|keys: Seq<Seq<char>>| #[trigger]
            writable(keys) && path == path_through(keys);
        paths_hold_their_keys(keys);
    }
}

/// Joining what was split gives the text back.
pub proof fn splitting_is_undone(s: Seq<char>, sep: char)
    ensures
        text::split_on(s, sep).len() > 0,
        text::joined(text::split_on(s, sep), seq![sep]) == s,
    decreases s.len(),
{
    if s.len() == 0 {
        assert(s =~= Seq::empty());
    } else {
        splitting_is_undone(s.drop_last(), sep);
        let earlier = text::split_on(s.drop_last(), sep);
        let now = text::split_on(s, sep);
        if s.last() == sep {
            assert(now.drop_last() =~= earlier);
            assert(text::joined(now, seq![sep]) =~= s);
        } else {
            assert(now.drop_last() =~= earlier.drop_last());
            assert(now.last() =~= earlier.last().push(s.last()));
            if earlier.len() == 1 {
                assert(now[0] =~= earlier[0].push(s.last()));
                assert(text::joined(now, seq![sep]) =~= s);
            } else {
                let front = text::joined(earlier.drop_last(), seq![sep]) + seq![sep];
                assert(text::joined(now, seq![sep]) == front + now.last());
                assert(front + now.last() =~= (front + earlier.last()).push(s.last()));
                assert(text::joined(now, seq![sep]) =~= s);
            }
        }
    }
}

/// A path gives what its keys lead to, and nothing else.
pub proof fn paths_give_what_their_keys_lead_to(
    keys: Seq<Seq<char>>,
    value: JsonView,
    target: JsonView,
    page: usize,
)
    requires
        writable(keys),
    ensures
        leads(value, keys, target) <==> row_path::extracted(path_through(keys), value, page) == Ok::<
            _,
            ErrorView,
        >(target),
{
    paths_hold_their_keys(keys);
    walking_follows_keys(value, keys, target);
}

/// Where the first keys of a path lead to an object without the next key, the
/// path names that key and the page.
pub proof fn a_missing_key_is_named(
    keys: Seq<Seq<char>>,
    n: int,
    value: JsonView,
    members: Map<Seq<char>, JsonView>,
    page: usize,
)
    requires
        writable(keys),
        0 <= n < keys.len(),
        leads(value, keys.take(n), JsonView::Object(members)),
        !members.contains_key(keys[n]),
    ensures
        row_path::extracted(path_through(keys), value, page) == Err::<JsonView, _>(
            ErrorView::RowPathNotFound { path: path_through(keys), segment: keys[n], page },
        ),
{
    paths_hold_their_keys(keys);
    walking_stops(value, keys, n, JsonView::Object(members));
    assert(keys.skip(n)[0] == keys[n]);
}

/// Where the first keys of a path lead to something that is no object, the path
/// names the key that cannot be looked up in it, the page and what is there.
pub proof fn a_blocked_key_is_named(
    keys: Seq<Seq<char>>,
    n: int,
    value: JsonView,
    stop: JsonView,
    page: usize,
)
    requires
        writable(keys),
        0 <= n < keys.len(),
        leads(value, keys.take(n), stop),
        !(stop is Object),
    ensures
        row_path::extracted(path_through(keys), value, page) == Err::<JsonView, _>(
            ErrorView::RowPathNotObject {
                path: path_through(keys),
                segment: keys[n],
                page,
                found: match stop {
                    JsonView::Null => "null"@,
                    JsonView::Bool(_) => "a boolean"@,
                    JsonView::Number(_) => "a number"@,
                    JsonView::String(_) => "a string"@,
                    JsonView::Array(_) => "an array"@,
                    JsonView::Object(_) => "an object"@,
                },
            },
        ),
{
    paths_hold_their_keys(keys);
    walking_stops(value, keys, n, stop);
    assert(keys.skip(n)[0] == keys[n]);
}

/// The rows of a page are the items, in their order, of the array that the
/// path's keys lead to; anything but an array there fails and says what it is.
pub proof fn rows_are_the_items_at_the_path(
    keys: Seq<Seq<char>>,
    value: JsonView,
    target: JsonView,
    page: usize,
)
    requires
        writable(keys),
        leads(value, keys, target),
    ensures
        match target {
            JsonView::Array(items) => row_path::extracted_rows(path_through(keys), value, page)
                == Ok::<_, ErrorView>(items),
            _ => row_path::extracted_rows(path_through(keys), value, page) == Err::<
                Seq<JsonView>,
                _,
            >(
                ErrorView::RowPathNotArray {
                    path: path_through(keys),
                    page,
                    found: match target {
                        JsonView::Null => "null"@,
                        JsonView::Bool(_) => "a boolean"@,
                        JsonView::Number(_) => "a number"@,
                        JsonView::String(_) => "a string"@,
                        JsonView::Array(_) => "an array"@,
                        JsonView::Object(_) => "an object"@,
                    },
                },
            ),
        },
{
    paths_give_what_their_keys_lead_to(keys, value, target, page);
}

/// A path that leads nowhere gives no rows, for the reason that it gives no
/// value.
pub proof fn no_value_means_no_rows(path: Seq<char>, value: JsonView, page: usize)
    ensures
        row_path::extracted(path, value, page) matches Err(e) ==> row_path::extracted_rows(
            path,
            value,
            page,
        ) == Err::<Seq<JsonView>, _>(e),
{
}

/// A path that is refused is named, and the reason is that it does not begin at the
/// root or that one of its keys is empty.
pub proof fn refused_paths_are_told(path: Seq<char>)
    ensures
        !text::has_prefix(path, seq!['$', '.']) ==> row_path::parsed_path(path) == Err::<
            Seq<char>,
            _,
        >(ErrorView::InvalidRowPath { path, reason: "must start with '$.'"@ }),
        text::has_prefix(path, seq!['$', '.']) && row_path::parsed_path(path) is Err
            ==> row_path::parsed_path(path) == Err::<Seq<char>, _>(
            ErrorView::InvalidRowPath { path, reason: "must not contain an empty segment"@ },
        ),
{
    reveal_strlit("$.");
    assert("$."@ =~= seq!['$', '.']);
}

} // verus!
