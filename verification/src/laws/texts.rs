//! What trimming, lowering and searching do to a text.
use vstd::prelude::*;

use crate::json;
use crate::json::Json;
use crate::order;
use crate::text;

verus! {

/// Whether a text is white space and nothing else.
pub open spec fn all_white(s: Seq<char>) -> bool {
    forall|i: int| 0 <= i < s.len() ==> text::white_space(#[trigger] s[i])
}

/// Whether a text neither begins nor ends with white space.
pub open spec fn tight(s: Seq<char>) -> bool {
    s.len() > 0 ==> !text::white_space(s[0]) && !text::white_space(s.last())
}

proof fn the_front_is_white(s: Seq<char>) -> (n: int)
    ensures
        0 <= n <= s.len(),
        text::trim_front(s) == s.skip(n),
        all_white(s.take(n)),
        n < s.len() ==> !text::white_space(s[n]),
    decreases s.len(),
{
    if s.len() > 0 && text::white_space(s[0]) {
        let n = the_front_is_white(s.skip(1));
        assert(s.skip(1).skip(n) =~= s.skip(n + 1));
        assert forall|i: int| 0 <= i < s.take(n + 1).len() implies text::white_space(
            #[trigger] s.take(n + 1)[i],
        ) by {
            if i > 0 {
                assert(s.skip(1).take(n)[i - 1] == s[i]);
            }
        }
        n + 1
    } else {
        assert(s.skip(0) =~= s);
        0
    }
}

proof fn the_back_is_white(s: Seq<char>) -> (n: int)
    ensures
        0 <= n <= s.len(),
        text::trim_back(s) == s.take(n),
        all_white(s.skip(n)),
        n > 0 ==> !text::white_space(s[n - 1]),
    decreases s.len(),
{
    if s.len() > 0 && text::white_space(s.last()) {
        let n = the_back_is_white(s.drop_last());
        assert(s.drop_last().take(n) =~= s.take(n));
        assert forall|i: int| 0 <= i < s.skip(n).len() implies text::white_space(
            #[trigger] s.skip(n)[i],
        ) by {
            if i < s.skip(n).len() - 1 {
                assert(s.drop_last().skip(n)[i] == s[n + i]);
            }
        }
        n
    } else {
        assert(s.take(s.len() as int) =~= s);
        s.len() as int
    }
}

/// Trimming takes white space from both ends and nothing else: what is left is
/// tight, and with the white space around it, it is the text.
pub proof fn trimming_takes_white_space(s: Seq<char>)
    ensures
        tight(text::trim(s)),
        exists|front: Seq<char>, back: Seq<char>|
            all_white(front) && all_white(back) && s == #[trigger] (front + text::trim(s) + back),
{
    let n = the_front_is_white(s);
    let rest = s.skip(n);
    let m = the_back_is_white(rest);
    assert(text::trim(s) == rest.take(m));
    let front = s.take(n);
    let back = rest.skip(m);
    assert(s =~= front + rest.take(m) + back);
    if m > 0 {
        assert(rest.take(m)[0] == s[n]);
        assert(rest.take(m).last() == rest[m - 1]);
    }
}

/// A tight text is what trimming leaves of it with any white space around it.
pub proof fn tight_texts_survive_trimming(front: Seq<char>, s: Seq<char>, back: Seq<char>)
    requires
        all_white(front),
        tight(s),
        all_white(back),
    ensures
        text::trim(front + s + back) == s,
{
    let whole = front + s + back;
    let n = the_front_is_white(whole);
    let rest = whole.skip(n);
    let m = the_back_is_white(rest);
    if s.len() == 0 {
        assert forall|i: int| 0 <= i < whole.len() implies text::white_space(#[trigger] whole[i]) by {
            if i < front.len() {
                assert(whole[i] == front[i]);
            } else {
                assert(whole[i] == back[i - front.len()]);
            }
        }
        assert(n == whole.len());
        assert(text::trim(whole) =~= s);
    } else {
        let f = front.len() as int;
        assert(whole[f] == s[0]);
        if n < f {
            assert(whole[n] == front[n]);
        } else if n > f {
            assert(whole.take(n)[f] == whole[f]);
        }
        let l = s.len() as int;
        assert(rest =~= s + back);
        assert(rest[l - 1] == s.last());
        if m < l {
            assert(rest.skip(m)[l - 1 - m] == rest[l - 1]);
        } else if m > l {
            assert(rest[m - 1] == back[m - 1 - l]);
        }
        assert(text::trim(whole) =~= s);
    }
}

/// Nothing is left of a text by trimming exactly where it is all white space.
pub proof fn nothing_is_left_of_white_space(s: Seq<char>)
    ensures
        text::trim(s).len() == 0 <==> all_white(s),
{
    trimming_takes_white_space(s);
    let (front, back) = choose|front: Seq<char>, back: Seq<char>|
        all_white(front) && all_white(back) && s == #[trigger] (front + text::trim(s) + back);
    if text::trim(s).len() == 0 {
        assert forall|i: int| 0 <= i < s.len() implies text::white_space(#[trigger] s[i]) by {
            if i < front.len() {
                assert(s[i] == front[i]);
            } else {
                assert(s[i] == back[i - front.len()]);
            }
        }
    } else {
        assert(s[front.len() as int] == text::trim(s)[0]);
    }
}

/// Lowering keeps the length, makes capital letters small, and leaves every other
/// character; what is low already stays.
pub proof fn lowering_makes_letters_small(s: Seq<char>, i: int)
    requires
        0 <= i < s.len(),
    ensures
        text::lower(s).len() == s.len(),
        'A' <= s[i] <= 'Z' ==> text::lower(s)[i] as int == s[i] as int + 32,
        !('A' <= s[i] <= 'Z') ==> text::lower(s)[i] == s[i],
        !('A' <= text::lower(s)[i] <= 'Z'),
        text::lower(text::lower(s)) == text::lower(s),
{
    assert forall|k: int| 0 <= k < s.len() implies !('A' <= #[trigger] text::lower(s)[k] <= 'Z') by {
        lowered_is_low(s[k]);
    }
    lowered_is_low(s[i]);
    assert(text::lower(text::lower(s)) =~= text::lower(s));
}

proof fn lowered_is_low(c: char)
    ensures
        !('A' <= text::lower_char(c) <= 'Z'),
        'A' <= c <= 'Z' ==> text::lower_char(c) as int == c as int + 32,
{
}

/// Texts are ordered by the first character in which they differ, the smaller first,
/// and a text comes before all that begin with it.
pub proof fn the_first_difference_decides(
    front: Seq<char>,
    a: char,
    b: char,
    behind: Seq<char>,
    other: Seq<char>,
)
    requires
        a < b,
    ensures
        order::before(front + seq![a] + behind, front + seq![b] + other),
        !order::before(front + seq![b] + other, front + seq![a] + behind),
        order::before(front, front + seq![a] + behind),
        !order::before(front + seq![a] + behind, front),
    decreases front.len(),
{
    let x = front + seq![a] + behind;
    let y = front + seq![b] + other;
    if front.len() > 0 {
        let rest = front.skip(1);
        assert(x.skip(1) =~= rest + seq![a] + behind);
        assert(y.skip(1) =~= rest + seq![b] + other);
        assert(x[0] == front[0] && y[0] == front[0]);
        the_first_difference_decides(rest, a, b, behind, other);
    } else {
        assert(x[0] == a && y[0] == b);
    }
}

/// A number is read from its digits, with a plus sign in front of them or without, and
/// from nothing else; one that is too large is not read.
pub proof fn numbers_are_read_from_digits(n: nat, s: Seq<char>)
    ensures
        n <= u64::MAX ==> text::parsed_u64(text::decimal(n)) == Some(n as u64),
        n <= u64::MAX ==> text::parsed_u64(seq!['+'] + text::decimal(n)) == Some(n as u64),
        n > u64::MAX ==> text::parsed_u64(text::decimal(n)) is None,
        text::parsed_u64(s) is Some ==> s.len() > 0 && (text::all_digits(s) || (s[0] == '+'
            && s.len() > 1 && text::all_digits(s.skip(1)))),
{
    text::decimal_reads_back(n);
    let signed = seq!['+'] + text::decimal(n);
    assert(signed.skip(1) =~= text::decimal(n));
    assert(text::is_digit(text::decimal(n)[0]));
}

/// Of members with one key the last counts.
pub proof fn the_last_member_counts(members: Seq<(String, Json)>, i: int)
    requires
        0 <= i < members.len(),
        forall|j: int| i < j < members.len() ==> (#[trigger] members[j]).0@ != members[i].0@,
    ensures
        json::members_view(members).contains_key(members[i].0@),
        json::members_view(members)[members[i].0@] == members[i].1@,
    decreases members.len(),
{
    let last = members.len() - 1;
    if i < last {
        assert(members[last].0@ != members[i].0@);
        the_last_member_counts(members.drop_last(), i);
    }
}

/// A key that no member has is not there.
pub proof fn other_keys_are_not_there(members: Seq<(String, Json)>, key: Seq<char>)
    requires
        forall|j: int| 0 <= j < members.len() ==> (#[trigger] members[j]).0@ != key,
    ensures
        !json::members_view(members).contains_key(key),
    decreases members.len(),
{
    if members.len() > 0 {
        let last = members.len() - 1;
        assert(members[last].0@ != key);
        assert forall|j: int| 0 <= j < members.drop_last().len() implies (
        #[trigger] members.drop_last()[j]).0@ != key by {
            assert(members[j].0@ != key);
        }
        other_keys_are_not_there(members.drop_last(), key);
    }
}

/// The character of a decimal digit.
pub open spec fn figure(d: nat) -> char {
    seq!['0', '1', '2', '3', '4', '5', '6', '7', '8', '9'][d as int]
}

/// Numbers are written in decimal: a digit by its figure, and ten times a number and a
/// digit as the number and the figure behind it. They are read in the same way, and
/// figures alone are digits.
pub proof fn numbers_are_written_in_figures(n: nat, d: nat, s: Seq<char>, c: char)
    requires
        n > 0,
        d < 10,
    ensures
        text::decimal(d) == seq![figure(d)],
        text::decimal(10 * n + d) == text::decimal(n).push(figure(d)),
        text::digits_value(s.push(figure(d))) == 10 * text::digits_value(s) + d,
        text::digits_value(Seq::empty()) == 0,
        text::is_digit(c) <==> exists|k: nat| k < 10 && c == #[trigger] figure(k),
{
    figures_are_digits(d);
    assert((10 * n + d) / 10 == n);
    assert((10 * n + d) % 10 == d);
    assert(s.push(figure(d)).drop_last() =~= s);
    if text::is_digit(c) {
        let k = (c as int - 48) as nat;
        figures_are_digits(k);
        assert(c == figure(k));
    }
    assert forall|k: nat| k < 10 implies text::is_digit(#[trigger] figure(k)) by {
        figures_are_digits(k);
    }
}

proof fn figures_are_digits(d: nat)
    requires
        d < 10,
    ensures
        text::digit_char(d) == figure(d),
        text::digit_value(figure(d)) == d,
        text::is_digit(figure(d)),
        figure(d) as int == 48 + d,
{
}

} // verus!
