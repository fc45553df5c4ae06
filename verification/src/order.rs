//! Texts in order: by character, which for UTF-8 is also the order of bytes.
use vstd::prelude::*;

use crate::text;
use crate::text::{chars_of, same_text};

verus! {

/// Whether `a` comes before `b`.
pub open spec fn before(a: Seq<char>, b: Seq<char>) -> bool
    decreases a.len(),
{
    if b.len() == 0 {
        false
    } else if a.len() == 0 {
        true
    } else if a[0] != b[0] {
        a[0] < b[0]
    } else {
        before(a.skip(1), b.skip(1))
    }
}

/// Whether texts ascend, none occurring twice.
pub open spec fn ascending(s: Seq<Seq<char>>) -> bool {
    forall|i: int, j: int| 0 <= i < j < s.len() ==> before(#[trigger] s[i], #[trigger] s[j])
}

/// No text comes before itself.
pub proof fn before_itself(a: Seq<char>)
    ensures
        !before(a, a),
    decreases a.len(),
{
    if a.len() > 0 {
        before_itself(a.skip(1));
    }
}

/// What comes before a text comes before all that the text comes before.
pub proof fn before_chains(a: Seq<char>, b: Seq<char>, c: Seq<char>)
    requires
        before(a, b),
        before(b, c),
    ensures
        before(a, c),
    decreases a.len(),
{
    if a.len() > 0 && a[0] == b[0] && b[0] == c[0] {
        before_chains(a.skip(1), b.skip(1), c.skip(1));
    }
}

/// Of two different texts one comes before the other.
pub proof fn one_is_before(a: Seq<char>, b: Seq<char>)
    ensures
        before(a, b) || a == b || before(b, a),
    decreases a.len(),
{
    if a.len() == 0 || b.len() == 0 {
        if a.len() == 0 && b.len() == 0 {
            assert(a =~= b);
        }
    } else if a[0] == b[0] {
        one_is_before(a.skip(1), b.skip(1));
        if a.skip(1) == b.skip(1) {
            assert(a =~= seq![a[0]] + a.skip(1));
            assert(b =~= seq![b[0]] + b.skip(1));
        }
    }
}

proof fn same_start(a: Seq<char>, b: Seq<char>, i: int)
    requires
        0 <= i <= a.len(),
        i <= b.len(),
        a.take(i) == b.take(i),
    ensures
        before(a, b) == before(a.skip(i), b.skip(i)),
    decreases i,
{
    if i == 0 {
        assert(a.skip(0) =~= a);
        assert(b.skip(0) =~= b);
    } else {
        assert(a[0] == a.take(i)[0]);
        assert(b[0] == b.take(i)[0]);
        assert(a.skip(1).take(i - 1) =~= a.take(i).skip(1));
        assert(b.skip(1).take(i - 1) =~= b.take(i).skip(1));
        same_start(a.skip(1), b.skip(1), i - 1);
        assert(a.skip(1).skip(i - 1) =~= a.skip(i));
        assert(b.skip(1).skip(i - 1) =~= b.skip(i));
    }
}

/// Whether `a` comes before `b`.
pub fn comes_before(a: &str, b: &str) -> (r: bool)
    ensures
        r == before(a@, b@),
{
    let x = chars_of(a);
    let y = chars_of(b);
    let mut i: usize = 0;
    assert(x@.take(0) =~= y@.take(0));
    while i < x.len() && i < y.len()
        invariant
            x@ == a@,
            y@ == b@,
            i <= x@.len(),
            i <= y@.len(),
            x@.take(i as int) == y@.take(i as int),
        decreases x@.len() - i,
    {
        if x[i] != y[i] {
            proof {
                same_start(a@, b@, i as int);
                assert(a@.skip(i as int)[0] == a@[i as int]);
                assert(b@.skip(i as int)[0] == b@[i as int]);
            }
            return x[i] < y[i];
        }
        i += 1;
        assert(x@.take(i as int) =~= x@.take(i - 1).push(x@[i - 1]));
        assert(y@.take(i as int) =~= y@.take(i - 1).push(y@[i - 1]));
    }
    proof {
        same_start(a@, b@, i as int);
    }
    i < y.len()
}

/// Puts a text at its place in an ascending row; one that is there already is
/// dropped.
fn insert_ordered(v: &mut Vec<String>, s: String)
    requires
        ascending(text::texts(old(v)@)),
    ensures
        ascending(text::texts(final(v)@)),
        forall|t: Seq<char>| #[trigger]
            text::texts(final(v)@).contains(t) <==> text::texts(old(v)@).contains(t) || t
                == s@,
{
    let ghost all = text::texts(v@);
    let mut i: usize = 0;
    while i < v.len() && comes_before(v[i].as_str(), s.as_str())
        invariant
            all == text::texts(v@),
            i <= v@.len(),
            forall|k: int| 0 <= k < i ==> before(#[trigger] all[k], s@),
        decreases v@.len() - i,
    {
        i += 1;
    }
    if i < v.len() && !comes_before(s.as_str(), v[i].as_str()) {
        proof {
            one_is_before(all[i as int], s@);
            assert(all[i as int] == s@);
        }
        return;
    }
    proof {
        if i < v@.len() {
            assert forall|k: int| i <= k < all.len() implies before(s@, #[trigger] all[k]) by {
                if k > i {
                    before_chains(s@, all[i as int], all[k]);
                }
            }
        }
    }
    v.insert(i, s);
    proof {
        let now = text::texts(v@);
        assert(now =~= all.insert(i as int, s@));
        assert forall|j: int, k: int| 0 <= j < k < now.len() implies before(
            #[trigger] now[j],
            #[trigger] now[k],
        ) by {
            if j < i && k > i {
                assert(now[j] == all[j] && now[k] == all[k - 1]);
            } else if j < i && k < i {
                assert(now[j] == all[j] && now[k] == all[k]);
            } else if j > i {
                assert(now[j] == all[j - 1] && now[k] == all[k - 1]);
            } else if j == i {
                assert(now[k] == all[k - 1]);
            } else {
                assert(now[j] == all[j]);
            }
        }
        assert forall|t: Seq<char>| #[trigger] now.contains(t) <==> all.contains(t) || t == s@ by {
            if all.contains(t) {
                let k = choose|k: int| 0 <= k < all.len() && all[k] == t;
                if k < i {
                    assert(now[k] == t);
                } else {
                    assert(now[k + 1] == t);
                }
            }
            if t == s@ {
                assert(now[i as int] == t);
            }
            if now.contains(t) {
                let k = choose|k: int| 0 <= k < now.len() && now[k] == t;
                if k < i {
                    assert(all[k] == t);
                } else if k > i {
                    assert(all[k - 1] == t);
                }
            }
        }
    }
}

/// Whether `sorted` holds the texts of `given`, ascending and each once.
pub open spec fn sorts(given: Seq<Seq<char>>, sorted: Seq<Seq<char>>) -> bool {
    &&& ascending(sorted)
    &&& forall|t: Seq<char>| #[trigger] sorted.contains(t) <==> given.contains(t)
}

/// The texts in order, each once.
pub fn sorted_once(given: &Vec<String>) -> (sorted: Vec<String>)
    ensures
        sorts(text::texts(given@), text::texts(sorted@)),
{
    let ghost all = text::texts(given@);
    let mut sorted: Vec<String> = Vec::new();
    let mut i: usize = 0;
    while i < given.len()
        invariant
            all == text::texts(given@),
            i <= given@.len(),
            ascending(text::texts(sorted@)),
            forall|t: Seq<char>| #[trigger]
                text::texts(sorted@).contains(t) <==> all.take(i as int).contains(t),
        decreases given@.len() - i,
    {
        insert_ordered(&mut sorted, given[i].clone());
        i += 1;
        proof {
            let upto = all.take(i as int);
            let shorter = all.take(i - 1);
            assert forall|t: Seq<char>| upto.contains(t) <==> shorter.contains(t) || t == all[i
                - 1] by {
                if shorter.contains(t) {
                    let k = choose|k: int| 0 <= k < shorter.len() && shorter[k] == t;
                    assert(upto[k] == t);
                }
                if t == all[i - 1] {
                    assert(upto[i - 1] == t);
                }
                if upto.contains(t) && t != all[i - 1] {
                    let k = choose|k: int| 0 <= k < upto.len() && upto[k] == t;
                    assert(shorter[k] == t);
                }
            }
        }
    }
    assert(all.take(i as int) =~= all);
    sorted
}

/// Two ascending rows of the same texts are the same row, so sorting has one
/// result.
pub proof fn sorting_has_one_result(
    given: Seq<Seq<char>>,
    a: Seq<Seq<char>>,
    b: Seq<Seq<char>>,
)
    requires
        sorts(given, a),
        sorts(given, b),
    ensures
        a == b,
    decreases a.len() + b.len(),
{
    if a.len() == 0 || b.len() == 0 {
        if a.len() > 0 {
            assert(a.contains(a[0]));
            assert(b.contains(a[0]));
        }
        if b.len() > 0 {
            assert(b.contains(b[0]));
            assert(a.contains(b[0]));
        }
        assert(a =~= b);
    } else {
        let x = a.last();
        let y = b.last();
        assert(a[a.len() - 1] == x && b[b.len() - 1] == y);
        assert(a.contains(x) && b.contains(y));
        assert(given.contains(x) && given.contains(y));
        assert(b.contains(x) && a.contains(y));
        let i = choose|i: int| 0 <= i < b.len() && b[i] == x;
        let j = choose|j: int| 0 <= j < a.len() && a[j] == y;
        if i < b.len() - 1 {
            assert(before(b[i], b[b.len() - 1]));
            if j < a.len() - 1 {
                assert(before(a[j], a[a.len() - 1]));
                before_chains(x, y, x);
                before_itself(x);
            } else {
                before_itself(x);
            }
        }
        assert(x == y);
        let rest = a.drop_last();
        let other = b.drop_last();
        assert forall|t: Seq<char>| rest.contains(t) <==> a.contains(t) && t != x by {
            if rest.contains(t) {
                let k = choose|k: int| 0 <= k < rest.len() && rest[k] == t;
                assert(a[k] == t);
                assert(before(a[k], a[a.len() - 1]));
                before_itself(x);
            }
            if a.contains(t) && t != x {
                let k = choose|k: int| 0 <= k < a.len() && a[k] == t;
                assert(rest[k] == t);
            }
        }
        assert forall|t: Seq<char>| other.contains(t) <==> b.contains(t) && t != x by {
            if other.contains(t) {
                let k = choose|k: int| 0 <= k < other.len() && other[k] == t;
                assert(b[k] == t);
                assert(before(b[k], b[b.len() - 1]));
                before_itself(x);
            }
            if b.contains(t) && t != x {
                let k = choose|k: int| 0 <= k < b.len() && b[k] == t;
                assert(other[k] == t);
            }
        }
        assert forall|t: Seq<char>| #[trigger] other.contains(t) <==> rest.contains(t) by {
            assert(a.contains(t) <==> given.contains(t));
            assert(b.contains(t) <==> given.contains(t));
        }
        assert(sorts(rest, rest));
        assert(sorts(rest, other));
        sorting_has_one_result(rest, rest, other);
        assert(a =~= rest.push(x));
        assert(b =~= other.push(x));
    }
}

/// The first name that occurs a second time.
pub open spec fn repeated(names: Seq<Seq<char>>) -> Option<Seq<char>>
    decreases names.len(),
{
    if names.len() == 0 {
        None
    } else {
        match repeated(names.drop_last()) {
            Some(name) => Some(name),
            None => if names.drop_last().contains(names.last()) {
                Some(names.last())
            } else {
                None
            },
        }
    }
}

proof fn repeated_stands(names: Seq<Seq<char>>, i: int)
    requires
        0 <= i <= names.len(),
        repeated(names.take(i)) is Some,
    ensures
        repeated(names) == repeated(names.take(i)),
    decreases names.len(),
{
    if i == names.len() {
        assert(names.take(i) =~= names);
    } else {
        assert(names.drop_last().take(i) =~= names.take(i));
        repeated_stands(names.drop_last(), i);
    }
}

fn stands_before(names: &Vec<String>, i: usize) -> (r: bool)
    requires
        i < names@.len(),
    ensures
        r == text::texts(names@).take(i as int).contains(names@[i as int]@),
{
    let ghost earlier = text::texts(names@).take(i as int);
    let mut j: usize = 0;
    while j < i
        invariant
            i < names@.len(),
            earlier == text::texts(names@).take(i as int),
            j <= i,
            forall|k: int| 0 <= k < j ==> #[trigger] earlier[k] != names@[i as int]@,
        decreases i - j,
    {
        if same_text(names[j].as_str(), names[i].as_str()) {
            assert(earlier[j as int] == names@[i as int]@);
            return true;
        }
        j += 1;
    }
    false
}

/// The first name that occurs a second time.
pub fn find_repeated(names: &Vec<String>) -> (r: Option<String>)
    ensures
        match r {
            Some(name) => repeated(text::texts(names@)) == Some(name@),
            None => repeated(text::texts(names@)) is None,
        },
{
    let ghost all = text::texts(names@);
    let mut i: usize = 0;
    assert(all.take(0) =~= Seq::empty());
    while i < names.len()
        invariant
            all == text::texts(names@),
            i <= names@.len(),
            repeated(all.take(i as int)) is None,
        decreases names@.len() - i,
    {
        proof {
            assert(all.take(i + 1).drop_last() =~= all.take(i as int));
            assert(all.take(i + 1).last() == names@[i as int]@);
        }
        if stands_before(names, i) {
            proof {
                repeated_stands(all, i + 1);
            }
            return Some(names[i].clone());
        }
        i += 1;
    }
    assert(all.take(i as int) =~= all);
    None
}

/// Where no name is repeated, names at different places differ.
pub proof fn unrepeated_names_differ(names: Seq<Seq<char>>, i: int, j: int)
    requires
        repeated(names) is None,
        0 <= i < j < names.len(),
    ensures
        names[i] != names[j],
    decreases names.len(),
{
    let shorter = names.drop_last();
    if j < shorter.len() {
        unrepeated_names_differ(shorter, i, j);
    } else {
        assert(shorter[i] == names[i]);
        assert(names.last() == names[j]);
    }
}

/// Where a key goes among the keys of some indices, which ascend.
pub open spec fn place(keys: Seq<Seq<char>>, done: Seq<int>, key: Seq<char>) -> int
    decreases done.len(),
{
    if done.len() == 0 {
        0
    } else if before(keys[done.last()], key) {
        done.len() as int
    } else {
        place(keys, done.drop_last(), key)
    }
}

/// The first `n` indices in the order of their keys.
pub open spec fn key_order(keys: Seq<Seq<char>>, n: nat) -> Seq<int>
    decreases n,
{
    if n == 0 {
        Seq::empty()
    } else {
        let done = key_order(keys, (n - 1) as nat);
        done.insert(place(keys, done, keys[n - 1]), n - 1)
    }
}

proof fn place_is_inside(keys: Seq<Seq<char>>, done: Seq<int>, key: Seq<char>)
    ensures
        0 <= place(keys, done, key) <= done.len(),
    decreases done.len(),
{
    if done.len() > 0 {
        place_is_inside(keys, done.drop_last(), key);
    }
}

/// The order of keys holds as many indices as it should, and no others.
pub proof fn key_order_holds_indices(keys: Seq<Seq<char>>, n: nat)
    ensures
        key_order(keys, n).len() == n,
        forall|i: int| 0 <= i < n ==> 0 <= #[trigger] key_order(keys, n)[i] < n,
    decreases n,
{
    if n > 0 {
        let done = key_order(keys, (n - 1) as nat);
        key_order_holds_indices(keys, (n - 1) as nat);
        let at = place(keys, done, keys[n - 1]);
        place_is_inside(keys, done, keys[n - 1]);
        let now = key_order(keys, n);
        assert forall|i: int| 0 <= i < n implies 0 <= #[trigger] now[i] < n by {
            if i < at {
                assert(now[i] == done[i]);
            } else if i > at {
                assert(now[i] == done[i - 1]);
            }
        }
    }
}

proof fn place_parts(keys: Seq<Seq<char>>, done: Seq<int>, key: Seq<char>)
    requires
        forall|i: int, j: int|
            0 <= i < j < done.len() ==> before(keys[#[trigger] done[i]], keys[#[trigger] done[j]]),
        forall|i: int| 0 <= i < done.len() ==> keys[#[trigger] done[i]] != key,
    ensures
        0 <= place(keys, done, key) <= done.len(),
        forall|i: int|
            0 <= i < place(keys, done, key) ==> before(keys[#[trigger] done[i]], key),
        forall|i: int|
            place(keys, done, key) <= i < done.len() ==> before(key, keys[#[trigger] done[i]]),
    decreases done.len(),
{
    if done.len() > 0 {
        let last = done.len() - 1;
        if before(keys[done.last()], key) {
            assert forall|i: int| 0 <= i < done.len() implies before(
                keys[#[trigger] done[i]],
                key,
            ) by {
                if i < last {
                    assert(before(keys[done[i]], keys[done[last]]));
                    before_chains(keys[done[i]], keys[done[last]], key);
                }
            }
        } else {
            let shorter = done.drop_last();
            assert forall|i: int, j: int| 0 <= i < j < shorter.len() implies before(
                keys[#[trigger] shorter[i]],
                keys[#[trigger] shorter[j]],
            ) by {
                assert(shorter[i] == done[i] && shorter[j] == done[j]);
            }
            assert forall|i: int| 0 <= i < shorter.len() implies keys[#[trigger] shorter[i]]
                != key by {
                assert(shorter[i] == done[i]);
            }
            place_parts(keys, shorter, key);
            one_is_before(keys[done[last]], key);
            assert(keys[done[last]] != key);
            assert forall|i: int| 0 <= i < place(keys, done, key) implies before(
                keys[#[trigger] done[i]],
                key,
            ) by {
                assert(shorter[i] == done[i]);
            }
            assert forall|i: int| place(keys, done, key) <= i < done.len() implies before(
                key,
                keys[#[trigger] done[i]],
            ) by {
                if i < last {
                    assert(shorter[i] == done[i]);
                }
            }
        }
    }
}

/// Along the order of keys that differ the keys ascend, and every index is in
/// it.
pub proof fn key_order_ascends(keys: Seq<Seq<char>>, n: nat)
    requires
        n <= keys.len(),
        forall|i: int, j: int|
            0 <= i < j < keys.len() ==> #[trigger] keys[i] != #[trigger] keys[j],
    ensures
        forall|i: int, j: int|
            0 <= i < j < n ==> before(
                keys[#[trigger] key_order(keys, n)[i]],
                keys[#[trigger] key_order(keys, n)[j]],
            ),
        forall|k: int| 0 <= k < n ==> #[trigger] key_order(keys, n).contains(k),
    decreases n,
{
    key_order_holds_indices(keys, n);
    if n > 0 {
        let done = key_order(keys, (n - 1) as nat);
        key_order_holds_indices(keys, (n - 1) as nat);
        key_order_ascends(keys, (n - 1) as nat);
        let key = keys[n - 1];
        assert forall|i: int| 0 <= i < done.len() implies keys[#[trigger] done[i]] != key by {
            assert(keys[done[i]] != keys[n - 1]);
        }
        place_parts(keys, done, key);
        let at = place(keys, done, key);
        let now = key_order(keys, n);
        assert(now[at] == n - 1);
        assert forall|i: int, j: int| 0 <= i < j < n implies before(
            keys[#[trigger] now[i]],
            keys[#[trigger] now[j]],
        ) by {
            if j < at {
                assert(now[i] == done[i] && now[j] == done[j]);
            } else if i < at && j == at {
                assert(now[i] == done[i]);
            } else if i < at {
                assert(now[i] == done[i] && now[j] == done[j - 1]);
            } else if i == at {
                assert(now[j] == done[j - 1]);
            } else {
                assert(now[i] == done[i - 1] && now[j] == done[j - 1]);
            }
        }
        assert forall|k: int| 0 <= k < n implies #[trigger] now.contains(k) by {
            if k < n - 1 {
                assert(done.contains(k));
                let i = choose|i: int| 0 <= i < done.len() && done[i] == k;
                if i < at {
                    assert(now[i] == k);
                } else {
                    assert(now[i + 1] == k);
                }
            }
        }
    }
}

/// The indices of keys, in the order of the keys.
pub fn order_of_keys(keys: &Vec<String>) -> (r: Vec<usize>)
    ensures
        r@.len() == keys@.len(),
        forall|i: int|
            0 <= i < r@.len() ==> (#[trigger] r@[i]) as int == key_order(
                text::texts(keys@),
                keys@.len(),
            )[i] && r@[i] < keys@.len(),
{
    let ghost all = text::texts(keys@);
    let mut order: Vec<usize> = Vec::new();
    let mut n: usize = 0;
    while n < keys.len()
        invariant
            all == text::texts(keys@),
            n <= keys@.len(),
            order@.len() == n,
            key_order(all, n as nat).len() == n,
            forall|i: int|
                0 <= i < n ==> (#[trigger] order@[i]) as int == key_order(all, n as nat)[i]
                    && order@[i] < n,
        decreases keys@.len() - n,
    {
        let ghost done = key_order(all, n as nat);
        let ghost held = order@;
        let key = keys[n].as_str();
        let mut at: usize = order.len();
        assert(done.take(at as int) =~= done);
        while at > 0 && !comes_before(keys[order[at - 1]].as_str(), key)
            invariant
                all == text::texts(keys@),
                n < keys@.len(),
                key@ == all[n as int],
                order@ == held,
                order@.len() == n,
                done.len() == n,
                forall|i: int| 0 <= i < n ==> (#[trigger] order@[i]) as int == done[i] && order@[i] < n,
                at <= n,
                place(all, done, key@) == place(all, done.take(at as int), key@),
            decreases at,
        {
            assert(done.take(at as int).drop_last() =~= done.take(at - 1));
            assert(order@[at - 1] as int == done[at - 1]);
            assert(done.take(at as int).last() == done[at - 1]);
            at -= 1;
        }
        proof {
            if at > 0 {
                assert(order@[at - 1] as int == done[at - 1]);
                assert(done.take(at as int).last() == done[at - 1]);
            }
            assert(place(all, done, key@) == at);
        }
        order.insert(at, n);
        proof {
            let now = key_order(all, (n + 1) as nat);
            assert(now == done.insert(at as int, n as int));
            assert forall|i: int| 0 <= i < n + 1 implies (#[trigger] order@[i]) as int == now[i]
                && order@[i] < n + 1 by {
                if i < at {
                    assert(order@[i] == held[i]);
                } else if i > at {
                    assert(order@[i] == held[i - 1]);
                }
            }
        }
        n += 1;
    }
    order
}

} // verus!
