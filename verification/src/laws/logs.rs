//! Which log directives are kept, and what the filter lets through.
use vstd::prelude::*;

use crate::laws::texts;
use crate::server::logging;
use crate::text;

verus! {

/// Whether a target is one that prints query plans, or lies below one.
pub open spec fn plan_target(target: Seq<char>) -> bool {
    ||| text::has_prefix(target, "datafusion"@)
    ||| text::has_prefix(target, "skardi_query_plan"@)
    ||| text::has_prefix(target, "sqlparser"@)
}

/// Whether a level is one at which plans are printed: `debug` or `trace` in any
/// letters, a number from four to 255, or none at all, which means `trace`.
pub open spec fn prints_at(level: Seq<char>) -> bool {
    ||| level.len() == 0
    ||| text::lower(level) == "debug"@
    ||| text::lower(level) == "trace"@
    ||| text::parsed_u64(text::lower(level)) matches Some(n) && 4 <= n <= 255
}

/// Whether a text can stand on one side of an equals sign in a directive without a
/// span.
pub open spec fn simple(s: Seq<char>) -> bool {
    s.len() > 0 && texts::tight(s) && !s.contains('=') && !s.contains('[')
}

proof fn plan_targets(target: Seq<char>)
    ensures
        logging::prints_plans(target) <==> plan_target(target),
{
    let all = logging::plan_prefixes();
    assert(all[0] == "datafusion"@ && all[1] == "skardi_query_plan"@ && all[2] == "sqlparser"@);
    if logging::prints_plans(target) {
        let i = choose|i: int|
            0 <= i < all.len() && text::has_prefix(target, #[trigger] all[i]);
        assert(i == 0 || i == 1 || i == 2);
    }
    if text::has_prefix(target, "datafusion"@) {
        assert(text::has_prefix(target, all[0]));
    }
    if text::has_prefix(target, "skardi_query_plan"@) {
        assert(text::has_prefix(target, all[1]));
    }
    if text::has_prefix(target, "sqlparser"@) {
        assert(text::has_prefix(target, all[2]));
    }
}

/// A directive that is a target, an equals sign and a level, with any white space
/// around it, is for that target and at that level, and is dropped exactly where the
/// target prints plans and the level lets it.
pub proof fn leaky_directives_are_told(
    front: Seq<char>,
    target: Seq<char>,
    level: Seq<char>,
    back: Seq<char>,
)
    requires
        texts::all_white(front),
        texts::all_white(back),
        simple(target),
        simple(level),
    ensures
        ({
            let directive = front + (target + seq!['='] + level) + back;
            &&& logging::target_of(directive) == Some(target)
            &&& logging::level_of(directive) == Some(level)
            &&& logging::leaks(directive) <==> plan_target(target) && prints_at(level)
        }),
{
    let d = target + seq!['='] + level;
    let directive = front + d + back;
    let at = target.len() as int;
    assert(d[0] == target[0]);
    assert(d.last() == level.last());
    texts::tight_texts_survive_trimming(front, d, back);
    assert forall|k: int| 0 <= k < d.len() implies d[k] != '[' by {
        if k < at {
            assert(target.contains(target[k]));
        } else if k > at {
            assert(d[k] == level[k - at - 1]);
            assert(level.contains(level[k - at - 1]));
        }
    }
    text::first_index_is_first(d, '[');
    if let Some(i) = text::first_index(d, '[') {
        assert(d[i] == '[');
    }
    assert(logging::span_at(d) is None);
    assert(d[at] == '=');
    assert(d.skip(at + 1) =~= level);
    text::last_index_behind(d, '=', at);
    assert(d.take(at) =~= target);
    text::first_index_is_first(target, '[');
    if let Some(i) = text::first_index(target, '[') {
        assert(target.contains(target[i]));
    }
    let none: Seq<char> = Seq::empty();
    assert(none + target + none =~= target);
    assert(none + level + none =~= level);
    texts::tight_texts_survive_trimming(none, target, none);
    texts::tight_texts_survive_trimming(none, level, none);
    plan_targets(target);
}

/// A directive that is a target alone is dropped exactly where the target prints
/// plans, for it means all levels; one that is a level alone is for no target and is
/// never dropped.
pub proof fn bare_directives_are_told(word: Seq<char>)
    requires
        simple(word),
    ensures
        logging::names_level(word) ==> logging::target_of(word) is None && !logging::leaks(word),
        !logging::names_level(word) ==> logging::target_of(word) == Some(word) && (logging::leaks(
            word,
        ) <==> plan_target(word)),
{
    let none: Seq<char> = Seq::empty();
    assert(none + word + none =~= word);
    texts::tight_texts_survive_trimming(none, word, none);
    text::first_index_is_first(word, '[');
    text::first_index_is_first(word, '=');
    text::last_index_is_last(word, '=');
    if let Some(i) = text::first_index(word, '[') {
        assert(word.contains(word[i]));
    }
    if let Some(i) = text::last_index(word, '=') {
        assert(word.contains(word[i]));
    }
    plan_targets(word);
}

/// A word is a level where it is one of the six names, in any letters, or a number
/// of at most 255.
pub proof fn levels_go_by_their_names(word: Seq<char>)
    ensures
        logging::names_level(word) <==> text::lower(word) == "off"@ || text::lower(word) == "error"@
            || text::lower(word) == "warn"@ || text::lower(word) == "info"@ || text::lower(word)
            == "debug"@ || text::lower(word) == "trace"@ || (text::parsed_u64(word) matches Some(n)
            && n <= 255),
{
}

/// A directive for a span is dropped exactly where its level lets plans through,
/// whatever target stands in front of the span.
pub proof fn span_directives_are_told(target: Seq<char>, span: Seq<char>, level: Seq<char>)
    requires
        target.len() > 0 ==> texts::tight(target) && !target.contains('=') && !target.contains('['),
        simple(level),
        !level.contains(']'),
    ensures
        logging::leaks(target + seq!['['] + span + seq![']', '='] + level) <==> prints_at(level),
        logging::leaks(target + seq!['['] + span + seq![']']),
        logging::target_of(target + seq!['['] + span + seq![']', '='] + level) == Some(target),
        logging::level_of(target + seq!['['] + span + seq![']', '='] + level) == Some(level),
{
    let none: Seq<char> = Seq::empty();
    let at = target.len() as int;
    let d = target + seq!['['] + span + seq![']', '='] + level;
    assert(d[0] == (if at > 0 {
        target[0]
    } else {
        '['
    }));
    assert(!text::white_space('[') && !text::white_space(']'));
    assert(d.last() == level.last());
    assert(none + d + none =~= d);
    texts::tight_texts_survive_trimming(none, d, none);
    spans_begin_at_the_bracket(target, span + seq![']', '='] + level);
    assert(d =~= target + seq!['['] + (span + seq![']', '='] + level));
    let close = (at + 1 + span.len()) as int;
    assert(d[close] == ']');
    let rest = seq!['='] + level;
    assert(d.skip(close + 1) =~= rest);
    assert(!rest.contains(']')) by {
        assert forall|k: int| 0 <= k < rest.len() implies rest[k] != ']' by {
            if k > 0 {
                assert(rest[k] == level[k - 1]);
                assert(level.contains(level[k - 1]));
            }
        }
    }
    text::last_index_behind(d, ']', close);
    assert(rest[0] == '=');
    assert(rest.skip(1) =~= level);
    text::last_index_behind(rest, '=', 0);
    assert(none + level + none =~= level);
    texts::tight_texts_survive_trimming(none, level, none);
    assert(logging::level_of(d) == Some(level));
    assert(d.take(at) =~= target);
    assert(none + target + none =~= target);
    texts::tight_texts_survive_trimming(none, target, none);
    assert(logging::target_of(d) == Some(target));
    let bare = target + seq!['['] + span + seq![']'];
    assert(bare[0] == (if at > 0 {
        target[0]
    } else {
        '['
    }));
    assert(bare.last() == ']');
    assert(none + bare + none =~= bare);
    texts::tight_texts_survive_trimming(none, bare, none);
    spans_begin_at_the_bracket(target, span + seq![']']);
    assert(bare =~= target + seq!['['] + (span + seq![']']));
    assert(bare[close] == ']');
    assert(bare.skip(close + 1) =~= none);
    text::last_index_behind(bare, ']', close);
    assert(logging::level_of(bare) is None);
}

proof fn spans_begin_at_the_bracket(target: Seq<char>, rest: Seq<char>)
    requires
        !target.contains('='),
        !target.contains('['),
    ensures
        logging::span_at(target + seq!['['] + rest) == Some(target.len() as int),
{
    let d = target + seq!['['] + rest;
    let at = target.len() as int;
    assert(d[at] == '[');
    assert(d.contains(d[at]));
    text::first_index_is_first(d, '[');
    let b = text::first_index(d, '[')->0;
    if b < at {
        assert(target.contains(target[b]));
    } else if b > at {
        assert(d[at] != '[');
    }
    text::first_index_is_first(d, '=');
    if let Some(e) = text::first_index(d, '=') {
        if e < at {
            assert(target.contains(target[e]));
        }
    }
}

/// With the floor in place the directives that are kept are those that let no plans
/// through, all of them and in their order; without it every directive is kept.
pub proof fn harmless_directives_are_kept(directives: Seq<char>)
    ensures
        logging::retained(Some(directives), false) == text::split_on(directives, ',').filter(
            |directive: Seq<char>| !logging::leaks(directive),
        ),
        logging::retained(Some(directives), true) == text::split_on(directives, ','),
        logging::retained(None, true).len() == 0,
        logging::retained(None, false).len() == 0,
{
    harmless_ones_are_filtered(text::split_on(directives, ','));
}

proof fn harmless_ones_are_filtered(directives: Seq<Seq<char>>)
    ensures
        logging::harmless(directives) == directives.filter(
            |directive: Seq<char>| !logging::leaks(directive),
        ),
    decreases directives.len(),
{
    reveal(Seq::filter);
    if directives.len() > 0 {
        harmless_ones_are_filtered(directives.drop_last());
    }
}

/// The variable lifts the floor exactly where its value, trimmed and in small
/// letters, is neither empty nor `0`, `false` or `no`.
pub proof fn the_floor_is_lifted_on_purpose(front: Seq<char>, value: Seq<char>, back: Seq<char>)
    requires
        texts::all_white(front),
        texts::all_white(back),
        texts::tight(value),
    ensures
        logging::lifts_floor(front + value + back) <==> value.len() > 0 && text::lower(value) != seq![
            '0',
        ] && text::lower(value) != seq!['f', 'a', 'l', 's', 'e'] && text::lower(value) != seq![
            'n',
            'o',
        ],
{
    texts::tight_texts_survive_trimming(front, value, back);
    reveal_strlit("0");
    reveal_strlit("false");
    reveal_strlit("no");
    assert("0"@ =~= seq!['0']);
    assert("false"@ =~= seq!['f', 'a', 'l', 's', 'e']);
    assert("no"@ =~= seq!['n', 'o']);
}

/// Without directives everything is logged at `info`, the credentials of the cloud
/// client at `warn`, and each target that prints plans at `info` unless the floor is
/// lifted, in which case it has no level of its own.
pub proof fn the_standing_filter(allow: bool, target: Seq<char>)
    requires
        logging::plan_prefixes().contains(target),
    ensures
        logging::filter_levels(None, allow).contains_key(None),
        logging::filter_levels(None, allow)[None] == "info"@,
        logging::filter_levels(None, allow).contains_key(Some("aws_config"@)),
        logging::filter_levels(None, allow)[Some("aws_config"@)] == "warn"@,
        logging::filter_levels(None, allow).contains_key(Some(target)) <==> !allow,
        !allow ==> logging::filter_levels(None, allow)[Some(target)] == "info"@,
{
    let all = logging::plan_prefixes();
    let i = choose|i: int| 0 <= i < all.len() && all[i] == target;
    assert(i == 0 || i == 1 || i == 2);
    reveal_strlit("datafusion");
    reveal_strlit("skardi_query_plan");
    reveal_strlit("sqlparser");
    reveal_strlit("aws_config");
    assert("datafusion"@.len() == 10 && "aws_config"@.len() == 10);
    assert("datafusion"@[0] == 'd' && "aws_config"@[0] == 'a');
    assert("skardi_query_plan"@.len() == 17 && "sqlparser"@.len() == 9);
    let none: Seq<Seq<char>> = Seq::empty();
    let nothing: Seq<char> = Seq::empty();
    assert(text::joined(none, ","@) =~= nothing);
    texts::nothing_is_left_of_white_space(nothing);
    assert(logging::base_text(none) is None);
}

/// Directives that can be parsed set their levels; those that cannot are answered
/// with `info` for everything.
pub proof fn parsed_directives_set_their_levels(kept: Seq<Seq<char>>)
    ensures
        texts::all_white(text::joined(kept, seq![','])) ==> logging::base_levels(kept)
            == logging::one_level("info"@),
        !texts::all_white(text::joined(kept, seq![','])) ==> match logging::parsed_levels(
            text::joined(kept, seq![',']),
        ) {
            Some(levels) => logging::base_levels(kept) == levels,
            None => logging::base_levels(kept) == logging::one_level("info"@),
        },
{
    reveal_strlit(",");
    assert(","@ =~= seq![',']);
    texts::nothing_is_left_of_white_space(text::joined(kept, seq![',']));
}

/// The floor changes the levels of plan targets alone, and only of those that no kept
/// directive sets; the cap changes that of the credentials alone, and only where the
/// operator does not speak of it.
pub proof fn other_levels_are_left_alone(
    rust_log: Option<Seq<char>>,
    allow: bool,
    key: Option<Seq<char>>,
)
    requires
        key != Some("aws_config"@) || (rust_log matches Some(v) && text::occurs(v, "aws_config"@)),
        allow || (key != Some("datafusion"@) && key != Some("skardi_query_plan"@) && key != Some(
            "sqlparser"@,
        )) || (key matches Some(target) && logging::sets_level_of(
            logging::retained(rust_log, allow),
            target,
        )),
    ensures
        logging::filter_levels(rust_log, allow).contains_key(key) == logging::base_levels(
            logging::retained(rust_log, allow),
        ).contains_key(key),
        logging::base_levels(logging::retained(rust_log, allow)).contains_key(key)
            ==> logging::filter_levels(rust_log, allow)[key] == logging::base_levels(
            logging::retained(rust_log, allow),
        )[key],
{
    reveal_strlit("datafusion");
    reveal_strlit("skardi_query_plan");
    reveal_strlit("sqlparser");
    reveal_strlit("aws_config");
    assert("datafusion"@.len() == 10 && "aws_config"@.len() == 10);
    assert("datafusion"@[0] == 'd' && "aws_config"@[0] == 'a');
    assert("skardi_query_plan"@.len() == 17 && "sqlparser"@.len() == 9);
}

} // verus!
