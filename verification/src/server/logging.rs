//! The log filter, with the floor that keeps query plans out of the logs.
//!
//! A statement is never logged as it was sent, because it may hold secrets.
//! The engine prints the same literals inside the plans that it logs at debug
//! level, so every target that prints plans is pinned to `info` and cannot be
//! lowered by the operator's directives, unless the operator lifts the floor
//! by a separate opt-in.
use tracing_subscriber::EnvFilter;
use vstd::prelude::*;

use crate::text;
use crate::text::{
    begins, chars_of, find_first, find_last, holds_text, join, lowered, parse_u64, same_text,
    split_chars, text_of, trimmed,
};

verus! {

/// Variable that lifts the floor.
pub const ALLOW_PLAN_VALUE_LOGGING_ENV: &'static str = "SKARDI_ALLOW_PLAN_VALUE_LOGGING";

/// Target of the spans that carry query plans.
pub const QUERY_PLAN_TARGET: &'static str = "skardi_query_plan";

/// The prefixes of the targets that print plans.
pub open spec fn plan_prefixes() -> Seq<Seq<char>> {
    seq!["datafusion"@, "skardi_query_plan"@, "sqlparser"@]
}

/// What `str::parse::<u8>` reads.
pub open spec fn small_number(s: Seq<char>) -> Option<u64> {
    match text::parsed_u64(s) {
        Some(n) => if n <= 255 {
            Some(n)
        } else {
            None
        },
        None => None,
    }
}

/// Whether a bare token is a level, which sets the default, and no target.
pub open spec fn names_level(token: Seq<char>) -> bool {
    let name = text::lower(token);
    ||| name == "off"@
    ||| name == "error"@
    ||| name == "warn"@
    ||| name == "info"@
    ||| name == "debug"@
    ||| name == "trace"@
    ||| small_number(token) is Some
}

/// Where the span filter of a directive begins: at its first opening bracket,
/// unless a level comes first.
pub open spec fn span_at(d: Seq<char>) -> Option<int> {
    match text::first_index(d, '[') {
        Some(b) => match text::first_index(d, '=') {
            Some(e) => if b < e {
                Some(b)
            } else {
                None
            },
            None => Some(b),
        },
        None => None,
    }
}

/// What stands in front of the first opening bracket of a text.
pub open spec fn before_bracket(s: Seq<char>) -> Seq<char> {
    match text::first_index(s, '[') {
        Some(b) => s.take(b),
        None => s,
    }
}

/// The target that a directive names, without its span filter. A bare level
/// names none.
pub open spec fn target_of(directive: Seq<char>) -> Option<Seq<char>> {
    let d = text::trim(directive);
    if d.len() == 0 {
        None
    } else {
        match span_at(d) {
            Some(b) => Some(text::trim(d.take(b))),
            None => match text::last_index(d, '=') {
                Some(i) => Some(text::trim(before_bracket(d.take(i)))),
                None => if names_level(d) {
                    None
                } else {
                    Some(d)
                },
            },
        }
    }
}

/// What stands behind the last equals sign of a text, without white space
/// around it.
pub open spec fn behind_equals(s: Seq<char>) -> Option<Seq<char>> {
    match text::last_index(s, '=') {
        Some(i) => Some(text::trim(s.skip(i + 1))),
        None => None,
    }
}

/// The level that a directive gives, if it gives one: behind its span filter,
/// where it has one.
pub open spec fn level_of(directive: Seq<char>) -> Option<Seq<char>> {
    let d = text::trim(directive);
    match span_at(d) {
        Some(_) => match text::last_index(d, ']') {
            Some(c) => behind_equals(d.skip(c + 1)),
            None => None,
        },
        None => behind_equals(d),
    }
}

/// Whether a target prints plans.
pub open spec fn prints_plans(target: Seq<char>) -> bool {
    exists|i: int|
        0 <= i < plan_prefixes().len() && text::has_prefix(target, #[trigger] plan_prefixes()[i])
}

/// Whether a level lets plans through: none at all means trace.
pub open spec fn lets_plans_through(level: Option<Seq<char>>) -> bool {
    match level {
        None => true,
        Some(level) => {
            ||| level.len() == 0
            ||| text::lower(level) == "debug"@
            ||| text::lower(level) == "trace"@
            ||| (small_number(text::lower(level)) matches Some(n) && n >= 4)
        },
    }
}

/// Whether a directive has a span filter. Inside a span that it names, its level
/// holds for the records of every target.
pub open spec fn scoped(directive: Seq<char>) -> bool {
    span_at(text::trim(directive)) is Some
}

/// Whether a directive would let a target print its plans.
pub open spec fn leaks(directive: Seq<char>) -> bool {
    match target_of(directive) {
        Some(target) => (prints_plans(target) || scoped(directive)) && lets_plans_through(
            level_of(directive),
        ),
        None => false,
    }
}

fn number_up_to_255(token: &str) -> (r: Option<u64>)
    ensures
        r == small_number(token@),
{
    match parse_u64(token) {
        Some(n) => if n <= 255 {
            Some(n)
        } else {
            None
        },
        None => None,
    }
}

/// Whether a bare token is a level, which sets the default, and no target.
pub fn is_level_name(token: &str) -> (r: bool)
    ensures
        r == names_level(token@),
{
    let name = lowered(token);
    let name = name.as_str();
    same_text(name, "off") || same_text(name, "error") || same_text(name, "warn") || same_text(
        name,
        "info",
    ) || same_text(name, "debug") || same_text(name, "trace") || number_up_to_255(token).is_some()
}

fn find_span(chars: &Vec<char>) -> (r: Option<usize>)
    ensures
        match r {
            Some(b) => b < chars@.len() && span_at(chars@) == Some(b as int),
            None => span_at(chars@) is None,
        },
{
    match find_first(chars, '[') {
        Some(b) => match find_first(chars, '=') {
            Some(e) => if b < e {
                Some(b)
            } else {
                None
            },
            None => Some(b),
        },
        None => None,
    }
}

/// The target that a directive names, without its span filter. A bare level
/// names none.
pub fn directive_target(directive: &str) -> (r: Option<String>)
    ensures
        match r {
            Some(target) => target_of(directive@) == Some(target@),
            None => target_of(directive@) is None,
        },
{
    let d = trimmed(directive);
    if d.as_str().is_empty() {
        return None;
    }
    let chars = chars_of(d.as_str());
    match find_span(&chars) {
        Some(b) => {
            assert(chars@.subrange(0, b as int) =~= chars@.take(b as int));
            Some(trimmed(text_of(&chars, 0, b).as_str()))
        },
        None => match find_last(&chars, '=') {
            Some(i) => {
                assert(chars@.subrange(0, i as int) =~= chars@.take(i as int));
                let front = chars_of(text_of(&chars, 0, i).as_str());
                let end: usize = match find_first(&front, '[') {
                    Some(b) => b,
                    None => front.len(),
                };
                assert(front@.subrange(0, end as int) =~= before_bracket(front@));
                Some(trimmed(text_of(&front, 0, end).as_str()))
            },
            None => if is_level_name(d.as_str()) {
                None
            } else {
                Some(d)
            },
        },
    }
}

fn find_behind_equals(chars: &Vec<char>, from: usize) -> (r: Option<String>)
    requires
        from <= chars@.len(),
    ensures
        match r {
            Some(level) => behind_equals(chars@.skip(from as int)) == Some(level@),
            None => behind_equals(chars@.skip(from as int)) is None,
        },
{
    let end: usize = chars.len();
    let rest = text_of(chars, from, end);
    assert(chars@.subrange(from as int, end as int) =~= chars@.skip(from as int));
    let behind = chars_of(rest.as_str());
    let n: usize = behind.len();
    match find_last(&behind, '=') {
        Some(i) => {
            assert(behind@.subrange(i + 1, n as int) =~= behind@.skip(i + 1));
            let level = text_of(&behind, i + 1, n);
            Some(trimmed(level.as_str()))
        },
        None => None,
    }
}

fn directive_level(directive: &str) -> (r: Option<String>)
    ensures
        match r {
            Some(level) => level_of(directive@) == Some(level@),
            None => level_of(directive@) is None,
        },
{
    let d = trimmed(directive);
    let chars = chars_of(d.as_str());
    match find_span(&chars) {
        Some(_) => match find_last(&chars, ']') {
            Some(c) => find_behind_equals(&chars, c + 1),
            None => None,
        },
        None => {
            assert(chars@.skip(0) =~= chars@);
            find_behind_equals(&chars, 0)
        },
    }
}

fn directive_is_scoped(directive: &str) -> (r: bool)
    ensures
        r == scoped(directive@),
{
    let d = trimmed(directive);
    find_span(&chars_of(d.as_str())).is_some()
}

fn target_prints_plans(target: &str) -> (r: bool)
    ensures
        r == prints_plans(target@),
{
    let r = begins(target, "datafusion") || begins(target, "skardi_query_plan") || begins(
        target,
        "sqlparser",
    );
    proof {
        assert(plan_prefixes()[0] == "datafusion"@);
        assert(plan_prefixes()[1] == "skardi_query_plan"@);
        assert(plan_prefixes()[2] == "sqlparser"@);
    }
    r
}

/// Whether one directive would let a target print its plans: its own target, or
/// any target inside the span that it names. A bare level is left alone, because
/// the floors are more specific; a bare target means trace.
pub fn directive_leaks_plan_values(directive: &str) -> (r: bool)
    ensures
        r == leaks(directive@),
{
    match directive_target(directive) {
        Some(target) => {
            if !target_prints_plans(target.as_str()) && !directive_is_scoped(directive) {
                return false;
            }
        },
        None => {
            return false;
        },
    }
    match directive_level(directive) {
        None => true,
        Some(level) => {
            if level.as_str().is_empty() {
                return true;
            }
            let level = lowered(level.as_str());
            let level = level.as_str();
            same_text(level, "debug") || same_text(level, "trace") || match number_up_to_255(level) {
                Some(n) => n >= 4,
                None => false,
            }
        },
    }
}

/// The directives that do not leak.
pub open spec fn harmless(directives: Seq<Seq<char>>) -> Seq<Seq<char>>
    decreases directives.len(),
{
    if directives.len() == 0 {
        Seq::empty()
    } else if leaks(directives.last()) {
        harmless(directives.drop_last())
    } else {
        harmless(directives.drop_last()).push(directives.last())
    }
}

/// The directives of an operator that are kept.
pub open spec fn retained(rust_log: Option<Seq<char>>, allow: bool) -> Seq<Seq<char>> {
    match rust_log {
        Some(v) => if allow {
            text::split_on(v, ',')
        } else {
            harmless(text::split_on(v, ','))
        },
        None => Seq::empty(),
    }
}

fn keep_directives(rust_log: Option<&str>, allow: bool) -> (r: Vec<String>)
    ensures
        text::texts(r@) == retained(text::optional(rust_log), allow),
{
    let mut kept: Vec<String> = Vec::new();
    let v = match rust_log {
        Some(v) => v,
        None => {
            assert(text::texts(kept@) =~= Seq::empty());
            return kept;
        },
    };
    let chars = chars_of(v);
    assert(chars@.skip(0) =~= chars@);
    let parts = split_chars(&chars, 0, ',');
    if allow {
        return parts;
    }
    let ghost all = text::texts(parts@);
    let mut i: usize = 0;
    assert(all.take(0) =~= Seq::empty());
    assert(text::texts(kept@) =~= Seq::empty());
    while i < parts.len()
        invariant
            all == text::texts(parts@),
            i <= parts@.len(),
            text::texts(kept@) == harmless(all.take(i as int)),
        decreases parts@.len() - i,
    {
        let ghost before = text::texts(kept@);
        proof {
            assert(all.take(i + 1).drop_last() =~= all.take(i as int));
            assert(all.take(i + 1).last() == parts@[i as int]@);
        }
        if !directive_leaks_plan_values(parts[i].as_str()) {
            kept.push(parts[i].clone());
            assert(text::texts(kept@) =~= before.push(parts@[i as int]@));
        }
        i += 1;
    }
    assert(all.take(i as int) =~= all);
    kept
}

/// The number of bytes of a character in UTF-8.
pub open spec fn width(c: char) -> nat {
    if c as u32 <= 0x7f {
        1
    } else if c as u32 <= 0x7ff {
        2
    } else if c as u32 <= 0xffff {
        3
    } else {
        4
    }
}

/// The number of bytes of a text in UTF-8.
pub open spec fn bytes(s: Seq<char>) -> nat
    decreases s.len(),
{
    if s.len() == 0 {
        0
    } else {
        bytes(s.drop_last()) + width(s.last())
    }
}

/// Whether a byte position of a text lies between two of its characters.
pub open spec fn between_chars(s: Seq<char>, n: nat) -> bool {
    exists|m: int| 0 <= m <= s.len() && bytes(#[trigger] s.take(m)) == n
}

/// Whether a character separates the parts of a directive.
pub open spec fn separates(c: char) -> bool {
    c == '=' || c == '[' || c == ']' || c == '{' || c == '}'
}

/// Whether a directive can be cut before and behind a separator, at positions
/// that are counted without the white space in front.
pub open spec fn cuts_at(directive: Seq<char>, j: int) -> bool {
    let n = bytes(text::trim(directive).take(j));
    between_chars(directive, n) && between_chars(directive, n + 1)
}

/// Whether a directive can be parsed without splitting a character.
pub open spec fn aligned(directive: Seq<char>) -> bool {
    let d = text::trim(directive);
    forall|j: int| 0 <= j < d.len() && separates(#[trigger] d[j]) ==> cuts_at(directive, j)
}

/// Whether all directives of a text can be parsed without splitting a
/// character.
pub open spec fn all_aligned(directives: Seq<char>) -> bool {
    forall|i: int|
        0 <= i < text::split_on(directives, ',').len() ==> aligned(
            #[trigger] text::split_on(directives, ',')[i],
        )
}

/// The level that a text names for the parser: by a number up to five, or by a
/// name in any case.
pub open spec fn level_named(s: Seq<char>) -> Option<Seq<char>> {
    let name = text::lower(s);
    match text::parsed_u64(s) {
        Some(0) => Some("off"@),
        Some(1) => Some("error"@),
        Some(2) => Some("warn"@),
        Some(3) => Some("info"@),
        Some(4) => Some("debug"@),
        Some(5) => Some("trace"@),
        _ => if name == "off"@ || name == "error"@ || name == "warn"@ || name == "info"@ || name
            == "debug"@ || name == "trace"@ {
            Some(name)
        } else {
            None
        },
    }
}

/// Whether a directive has neither span nor fields, and no white space in front.
pub open spec fn plain(directive: Seq<char>) -> bool {
    directive.len() > 0 && !text::white_space(directive[0]) && !directive.contains('[')
}

/// The target whose level a plain directive sets, as the parser reads it.
pub open spec fn read_target(directive: Seq<char>) -> Option<Seq<char>> {
    match text::first_index(directive, '=') {
        Some(i) => Some(directive.take(i)),
        None => if level_named(directive) is Some {
            None
        } else {
            Some(directive)
        },
    }
}

/// The level that a plain directive sets, as the parser reads it. A target
/// without a level is at `trace`; a level without a name cannot be read.
pub open spec fn read_level(directive: Seq<char>) -> Option<Seq<char>> {
    match text::first_index(directive, '=') {
        Some(i) => if i + 1 == directive.len() {
            Some("trace"@)
        } else {
            level_named(directive.skip(i + 1))
        },
        None => match level_named(directive) {
            Some(level) => Some(level),
            None => Some("trace"@),
        },
    }
}

/// The levels that the plain directives among some set, the later ones over the
/// earlier ones.
pub open spec fn read_levels(directives: Seq<Seq<char>>) -> Map<Option<Seq<char>>, Seq<char>>
    decreases directives.len(),
{
    if directives.len() == 0 {
        Map::empty()
    } else {
        let earlier = read_levels(directives.drop_last());
        let last = directives.last();
        match read_level(last) {
            Some(level) => if plain(last) {
                earlier.insert(read_target(last), level)
            } else {
                earlier
            },
            None => earlier,
        }
    }
}

/// Whether the levels of plain directives can be read.
pub open spec fn all_readable(directives: Seq<Seq<char>>) -> bool {
    forall|i: int|
        0 <= i < directives.len() && plain(#[trigger] directives[i]) ==> read_level(directives[i])
            is Some
}

/// Whether levels agree on all targets but those that begin with white space.
pub open spec fn levels_agree(
    a: Map<Option<Seq<char>>, Seq<char>>,
    b: Map<Option<Seq<char>>, Seq<char>>,
) -> bool {
    forall|key: Option<Seq<char>>|
        !(key matches Some(t) && t.len() > 0 && text::white_space(t[0])) ==> (
        #[trigger] a.dom().contains(key) == b.dom().contains(key)) && (a.dom().contains(key)
            ==> a[key] == b[key])
}

/// Whether the directives of an operator that are kept can be parsed without
/// splitting a character.
pub open spec fn can_be_parsed(rust_log: Option<Seq<char>>, allow: bool) -> bool {
    rust_log is Some ==> all_aligned(text::joined(retained(rust_log, allow), ","@))
}

/// A log filter.
#[verifier::external_type_specification]
#[verifier::external_body]
pub struct ExEnvFilter(EnvFilter);

/// The level that a filter sets for each target, under `None` for all other
/// targets, by directives without spans and fields.
pub uninterp spec fn target_levels(filter: EnvFilter) -> Map<Option<Seq<char>>, Seq<char>>;

/// The levels that a filter sets by directives with spans or fields. Inside a
/// span that such a directive names, its level holds for the records of every
/// target.
pub uninterp spec fn scoped_levels(filter: EnvFilter) -> Set<Seq<char>>;

/// The level that a directive with a span filter sets, as the parser reads it.
pub open spec fn scoped_level(directive: Seq<char>) -> Option<Seq<char>> {
    match level_of(directive) {
        Some(level) => if level.len() == 0 {
            Some("trace"@)
        } else {
            level_named(level)
        },
        None => Some("trace"@),
    }
}

/// Whether each of some levels is set by a directive with a span filter.
pub open spec fn set_in_spans(levels: Set<Seq<char>>, directives: Seq<Seq<char>>) -> bool {
    forall|level: Seq<char>| #[trigger]
        levels.contains(level) ==> exists|i: int|
            0 <= i < directives.len() && scoped(#[trigger] directives[i]) && scoped_level(
                directives[i],
            ) == Some(level)
}

/// The levels that the directives of a text set, if they can be parsed.
pub uninterp spec fn parsed_levels(directives: Seq<char>) -> Option<
    Map<Option<Seq<char>>, Seq<char>>,
>;

/// `EnvFilter::try_new` parses directives between commas, and none of them if
/// one cannot be parsed. One without span and fields is a target and a level
/// with an equals sign between them, a level alone or a target alone; its target
/// is all that stands in front of the sign. Of two for one target the later one
/// counts. The parser looks for the parts of a directive at positions that it
/// counts without the white space in front, and panics where such a position
/// splits a character. What it makes of directives with white space in front is
/// left unsaid, but that their targets begin with it. One with a span or fields
/// has these in brackets in front of the equals sign; without a level it is at
/// `trace`, and one with white space in front of it cannot be parsed where it
/// gives a level.
#[verifier::external_body]
fn parse_filter(directives: &str) -> (r: Option<EnvFilter>)
    requires
        all_aligned(directives@),
    ensures
        match r {
            Some(filter) => {
                &&& parsed_levels(directives@) == Some(target_levels(filter))
                &&& all_readable(text::split_on(directives@, ','))
                &&& levels_agree(
                    target_levels(filter),
                    read_levels(text::split_on(directives@, ',')),
                )
                &&& set_in_spans(scoped_levels(filter), text::split_on(directives@, ','))
            },
            None => parsed_levels(directives@) is None,
        },
{
    EnvFilter::try_new(directives).ok()
}

/// One level for all targets.
pub open spec fn one_level(level: Seq<char>) -> Map<Option<Seq<char>>, Seq<char>> {
    Map::empty().insert(None, level)
}

/// `EnvFilter::new` on the name of a level sets that level for all targets, and
/// nothing for spans.
#[verifier::external_body]
fn level_filter(level: &str) -> (filter: EnvFilter)
    requires
        level@ == "info"@ || level@ == "warn"@,
    ensures
        target_levels(filter) == one_level(level@),
        scoped_levels(filter) == Set::<Seq<char>>::empty(),
{
    EnvFilter::new(level)
}

/// Whether a text can be a target: letters, digits and underscores.
pub open spec fn plain_target(s: Seq<char>) -> bool {
    s.len() > 0 && forall|i: int|
        0 <= i < s.len() ==> ('a' <= #[trigger] s[i] <= 'z' || '0' <= s[i] <= '9' || s[i] == '_')
}

/// `EnvFilter::add_directive` with `target=level` sets the level of the target
/// and leaves all others, and those in spans.
#[verifier::external_body]
fn set_level(filter: EnvFilter, target: &str, level: &str) -> (r: EnvFilter)
    requires
        plain_target(target@),
        level@ == "info"@ || level@ == "warn"@,
    ensures
        target_levels(r) == target_levels(filter).insert(Some(target@), level@),
        scoped_levels(r) == scoped_levels(filter),
{
    filter.add_directive(format!("{target}={level}").parse().unwrap())
}

/// The text of the kept directives, if it says anything.
pub open spec fn base_text(kept: Seq<Seq<char>>) -> Option<Seq<char>> {
    let all = text::joined(kept, ","@);
    if text::trim(all).len() == 0 {
        None
    } else {
        Some(all)
    }
}

/// The levels that a filter starts with: those of the kept directives, or
/// `info` where there are none or they cannot be parsed.
pub open spec fn base_levels(kept: Seq<Seq<char>>) -> Map<Option<Seq<char>>, Seq<char>> {
    match base_text(kept) {
        Some(directives) => match parsed_levels(directives) {
            Some(levels) => levels,
            None => one_level("info"@),
        },
        None => one_level("info"@),
    }
}

/// Whether one of the directives sets the level of exactly this target, outside
/// of spans too.
pub open spec fn sets_level_of(kept: Seq<Seq<char>>, target: Seq<char>) -> bool {
    exists|i: int|
        0 <= i < kept.len() && plain(#[trigger] kept[i]) && read_target(kept[i]) == Some(target)
}

/// Levels with the floor of one target, unless a kept directive sets its level:
/// that one does not leak, and the floor would raise it.
pub open spec fn floored(
    levels: Map<Option<Seq<char>>, Seq<char>>,
    kept: Seq<Seq<char>>,
    target: Seq<char>,
) -> Map<Option<Seq<char>>, Seq<char>> {
    if sets_level_of(kept, target) {
        levels
    } else {
        levels.insert(Some(target), "info"@)
    }
}

/// Levels with all floors, unless they are lifted.
pub open spec fn all_floored(
    levels: Map<Option<Seq<char>>, Seq<char>>,
    kept: Seq<Seq<char>>,
    allow: bool,
) -> Map<Option<Seq<char>>, Seq<char>> {
    if allow {
        levels
    } else {
        floored(
            floored(floored(levels, kept, "datafusion"@), kept, "skardi_query_plan"@),
            kept,
            "sqlparser"@,
        )
    }
}

/// Levels with credentials resolution capped, unless the operator speaks of
/// it: it logs access keys at `info`.
pub open spec fn capped(
    levels: Map<Option<Seq<char>>, Seq<char>>,
    rust_log: Option<Seq<char>>,
) -> Map<Option<Seq<char>>, Seq<char>> {
    if rust_log matches Some(v) && text::occurs(v, "aws_config"@) {
        levels
    } else {
        levels.insert(Some("aws_config"@), "warn"@)
    }
}

/// The levels that the filter sets.
pub open spec fn filter_levels(rust_log: Option<Seq<char>>, allow: bool) -> Map<
    Option<Seq<char>>,
    Seq<char>,
> {
    let kept = retained(rust_log, allow);
    capped(all_floored(base_levels(kept), kept, allow), rust_log)
}

fn names_a_level(s: &str) -> (r: bool)
    ensures
        r == (level_named(s@) is Some),
{
    match parse_u64(s) {
        Some(n) => if n <= 5 {
            return true;
        },
        None => {},
    }
    let name = lowered(s);
    let name = name.as_str();
    same_text(name, "off") || same_text(name, "error") || same_text(name, "warn") || same_text(
        name,
        "info",
    ) || same_text(name, "debug") || same_text(name, "trace")
}

fn directive_sets_level_of(directive: &str, target: &str) -> (r: bool)
    ensures
        r == (plain(directive@) && read_target(directive@) == Some(target@)),
{
    let chars = chars_of(directive);
    if chars.len() == 0 || chars[0].is_whitespace() {
        return false;
    }
    match find_first(&chars, '[') {
        Some(b) => {
            proof {
                text::first_index_is_first(chars@, '[');
            }
            return false;
        },
        None => {
            proof {
                text::first_index_is_first(chars@, '[');
            }
        },
    }
    match find_first(&chars, '=') {
        Some(i) => {
            assert(chars@.subrange(0, i as int) =~= chars@.take(i as int));
            let named = text_of(&chars, 0, i);
            same_text(named.as_str(), target)
        },
        None => !names_a_level(directive) && same_text(directive, target),
    }
}

fn one_sets_level_of(kept: &Vec<String>, target: &str) -> (r: bool)
    ensures
        r == sets_level_of(text::texts(kept@), target@),
{
    let ghost all = text::texts(kept@);
    let mut i: usize = 0;
    while i < kept.len()
        invariant
            all == text::texts(kept@),
            i <= kept@.len(),
            forall|k: int|
                0 <= k < i ==> !(plain(#[trigger] all[k]) && read_target(all[k]) == Some(target@)),
        decreases kept@.len() - i,
    {
        assert(all[i as int] == kept@[i as int]@);
        if directive_sets_level_of(kept[i].as_str(), target) {
            return true;
        }
        i += 1;
    }
    false
}

fn add_floor(filter: EnvFilter, kept: &Vec<String>, target: &str) -> (r: EnvFilter)
    requires
        plain_target(target@),
    ensures
        target_levels(r) == floored(target_levels(filter), text::texts(kept@), target@),
        scoped_levels(r) == scoped_levels(filter),
{
    if one_sets_level_of(kept, target) {
        filter
    } else {
        set_level(filter, target, "info")
    }
}

/// Adds the floors and the cap to a filter that was made of the kept
/// directives.
pub fn finish_filter(
    base: EnvFilter,
    kept: &Vec<String>,
    rust_log: Option<&str>,
    allow: bool,
) -> (r: EnvFilter)
    ensures
        target_levels(r) == capped(
            all_floored(target_levels(base), text::texts(kept@), allow),
            text::optional(rust_log),
        ),
        scoped_levels(r) == scoped_levels(base),
{
    proof {
        reveal_strlit("datafusion");
        reveal_strlit("skardi_query_plan");
        reveal_strlit("sqlparser");
        reveal_strlit("aws_config");
    }
    let mut filter = base;
    if !allow {
        filter = add_floor(filter, kept, "datafusion");
        filter = add_floor(filter, kept, "skardi_query_plan");
        filter = add_floor(filter, kept, "sqlparser");
    }
    let spoken_of = match rust_log {
        Some(v) => holds_text(v, "aws_config"),
        None => false,
    };
    if !spoken_of {
        filter = set_level(filter, "aws_config", "warn");
    }
    filter
}

proof fn harmless_directives(directives: Seq<Seq<char>>)
    ensures
        forall|i: int|
            0 <= i < harmless(directives).len() ==> !leaks(#[trigger] harmless(directives)[i])
                && directives.contains(harmless(directives)[i]),
    decreases directives.len(),
{
    if directives.len() > 0 {
        let shorter = directives.drop_last();
        harmless_directives(shorter);
        let kept = harmless(directives);
        assert forall|i: int| 0 <= i < kept.len() implies !leaks(#[trigger] kept[i])
            && directives.contains(kept[i]) by {
            if i < harmless(shorter).len() {
                assert(kept[i] == harmless(shorter)[i]);
                let k = choose|k: int| 0 <= k < shorter.len() && shorter[k] == kept[i];
                assert(directives[k] == kept[i]);
            } else {
                assert(directives[directives.len() - 1] == kept[i]);
            }
        }
    }
}

/// The level that decides for a target: that of the longest target that the
/// target begins with, or else the one for all targets. `n` bounds the length.
pub open spec fn deciding_level(
    levels: Map<Option<Seq<char>>, Seq<char>>,
    target: Seq<char>,
    n: nat,
) -> Option<Seq<char>>
    decreases n,
{
    if levels.dom().contains(Some(target.take(n as int))) {
        Some(levels[Some(target.take(n as int))])
    } else if n > 0 {
        deciding_level(levels, target, (n - 1) as nat)
    } else if levels.dom().contains(None) {
        Some(levels[None])
    } else {
        None
    }
}

/// Whether a level is above debug and trace.
pub open spec fn quiet(level: Seq<char>) -> bool {
    level == "off"@ || level == "error"@ || level == "warn"@ || level == "info"@
}

/// Whether levels keep the debug and trace records of a target out.
pub open spec fn kept_quiet(
    levels: Map<Option<Seq<char>>, Seq<char>>,
    target: Seq<char>,
) -> bool {
    match deciding_level(levels, target, target.len()) {
        Some(level) => quiet(level),
        None => true,
    }
}

proof fn kept_directives_are_split(rust_log: Option<Seq<char>>, allow: bool)
    requires
        retained(rust_log, allow).len() > 0,
    ensures
        text::split_on(text::joined(retained(rust_log, allow), ","@), ',') == retained(
            rust_log,
            allow,
        ),
{
    let kept = retained(rust_log, allow);
    reveal_strlit(",");
    assert(","@ =~= seq![',']);
    let v = rust_log->0;
    let parts = text::split_on(v, ',');
    text::parts_hold_no_separator(v, ',');
    harmless_directives(parts);
    assert forall|i: int| 0 <= i < kept.len() implies !(#[trigger] kept[i]).contains(',') by {
        if !allow {
            let k = choose|k: int| 0 <= k < parts.len() && parts[k] == kept[i];
            assert(!parts[k].contains(','));
        }
    }
    text::joining_is_undone(kept, ',');
}

proof fn level_names_are_letters(name: Seq<char>)
    requires
        name == "off"@ || name == "error"@ || name == "warn"@ || name == "info"@ || name
            == "debug"@ || name == "trace"@,
    ensures
        0 < name.len() <= 5,
        forall|k: int| 0 <= k < name.len() ==> 'a' <= #[trigger] name[k] <= 'z',
{
    reveal_strlit("off");
    reveal_strlit("error");
    reveal_strlit("warn");
    reveal_strlit("info");
    reveal_strlit("debug");
    reveal_strlit("trace");
    assert("off"@ =~= seq!['o', 'f', 'f']);
    assert("error"@ =~= seq!['e', 'r', 'r', 'o', 'r']);
    assert("warn"@ =~= seq!['w', 'a', 'r', 'n']);
    assert("info"@ =~= seq!['i', 'n', 'f', 'o']);
    assert("debug"@ =~= seq!['d', 'e', 'b', 'u', 'g']);
    assert("trace"@ =~= seq!['t', 'r', 'a', 'c', 'e']);
}

proof fn levels_hold_no_space(s: Seq<char>)
    requires
        level_named(s) is Some,
    ensures
        s.len() > 0,
        text::trim(s) == s,
        text::lower(s).len() == s.len(),
        !s.contains('='),
        s.len() <= 5 || text::is_digit(s[0]) || s[0] == '+',
{
    let name = text::lower(s);
    if text::parsed_u64(s) is None {
        level_names_are_letters(name);
    }
    assert forall|k: int| 0 <= k < s.len() implies !text::white_space(#[trigger] s[k]) && s[k]
        != '=' by {
        if text::parsed_u64(s) is Some {
            if k > 0 || s[0] != '+' {
                let body = if s[0] == '+' {
                    s.skip(1)
                } else {
                    s
                };
                let at = if s[0] == '+' {
                    k - 1
                } else {
                    k
                };
                assert(body[at] == s[k]);
                assert(text::is_digit(body[at]));
            }
        } else {
            assert(name[k] == text::lower_char(s[k]));
            assert('a' <= name[k] <= 'z');
        }
    }
    if text::parsed_u64(s) is Some {
        if s[0] != '+' {
            assert(text::is_digit(s[0]));
        }
    }
}

proof fn trimming_keeps_the_front(s: Seq<char>, front: Seq<char>)
    requires
        front.len() > 0,
        text::has_prefix(s, front),
        forall|k: int| 0 <= k < front.len() ==> !text::white_space(#[trigger] front[k]),
    ensures
        text::has_prefix(text::trim(s), front),
{
    assert(s[0] == front[0]);
    assert(text::trim_front(s) == s);
    trimming_behind_keeps_the_front(s, front);
}

proof fn trimming_behind_keeps_the_front(s: Seq<char>, front: Seq<char>)
    requires
        front.len() > 0,
        text::has_prefix(s, front),
        forall|k: int| 0 <= k < front.len() ==> !text::white_space(#[trigger] front[k]),
    ensures
        text::has_prefix(text::trim_back(s), front),
    decreases s.len(),
{
    if text::white_space(s.last()) {
        if s.len() == front.len() {
            assert(s.last() == front[front.len() - 1]);
        }
        let shorter = s.drop_last();
        assert(shorter.take(front.len() as int) =~= s.take(front.len() as int));
        trimming_behind_keeps_the_front(shorter, front);
    }
}

/// The plan prefix that a target begins with.
spec fn plan_prefix(target: Seq<char>) -> Seq<char> {
    let i = choose|i: int|
        0 <= i < plan_prefixes().len() && text::has_prefix(target, #[trigger] plan_prefixes()[i]);
    plan_prefixes()[i]
}

proof fn plan_prefixes_are_plain(target: Seq<char>)
    requires
        prints_plans(target),
    ensures
        ({
            let front = plan_prefix(target);
            &&& plan_prefixes().contains(front)
            &&& text::has_prefix(target, front)
            &&& front.len() > 5
            &&& 'a' <= front[0] <= 'z'
            &&& forall|k: int|
                0 <= k < front.len() ==> !text::white_space(#[trigger] front[k]) && front[k] != '='
        }),
{
    reveal_strlit("datafusion");
    reveal_strlit("skardi_query_plan");
    reveal_strlit("sqlparser");
    let i = choose|i: int|
        0 <= i < plan_prefixes().len() && text::has_prefix(target, #[trigger] plan_prefixes()[i]);
    assert(plan_prefixes()[i] == plan_prefix(target));
    assert("datafusion"@.len() == 10 && "skardi_query_plan"@.len() == 17 && "sqlparser"@.len() == 9);
}

proof fn trimmed_target_prints_plans(target: Seq<char>)
    requires
        prints_plans(target),
    ensures
        prints_plans(text::trim(target)),
{
    plan_prefixes_are_plain(target);
    let front = plan_prefix(target);
    trimming_keeps_the_front(target, front);
    let i = choose|i: int| 0 <= i < plan_prefixes().len() && plan_prefixes()[i] == front;
    assert(text::has_prefix(text::trim(target), plan_prefixes()[i]));
}

proof fn harmless_directive_is_quiet(d: Seq<char>)
    requires
        plain(d),
        !leaks(d),
        read_level(d) is Some,
        read_target(d) matches Some(target) && prints_plans(target),
    ensures
        quiet(read_level(d)->0),
{
    let target = read_target(d)->0;
    plan_prefixes_are_plain(target);
    trimmed_target_prints_plans(target);
    text::first_index_is_first(d, '[');
    text::first_index_is_first(d, '=');
    assert(text::trim_front(d) == d);
    match text::first_index(d, '=') {
        Some(i) => {
            let level = d.skip(i + 1);
            if i + 1 < d.len() {
                levels_hold_no_space(level);
                assert(level.last() == d.last());
                assert(text::trim_back(level) == level) by {
                    trimmed_ends(level);
                }
                trimmed_ends(level);
            } else {
                assert(level =~= Seq::empty());
            }
            assert(text::trim_back(d) == d);
            assert(text::trim(d) == d);
            text::first_index_is_first(text::trim(d), '[');
            text::last_index_behind(d, '=', i);
            text::first_index_is_first(d.take(i), '[');
            assert(before_bracket(d.take(i)) == target) by {
                if d.take(i).contains('[') {
                    let k = choose|k: int| 0 <= k < i && d.take(i)[k] == '[';
                    assert(d[k] == '[');
                }
            }
            assert(target_of(d) == Some(text::trim(target)));
            assert(level_of(d) == Some(text::trim(level)));
            level_is_quiet(level);
        },
        None => {
            let t = text::trim(d);
            trimmed_part(d);
            assert(!t.contains('[') && !t.contains('='));
            text::first_index_is_first(t, '[');
            text::last_index_is_last(t, '=');
            assert(span_at(t) is None);
            assert(text::last_index(t, '=') is None);
            assert(text::has_prefix(t, plan_prefix(target))) by {
                trimming_keeps_the_front(target, plan_prefix(target));
            }
            assert(t[0] == plan_prefix(target)[0]);
            assert(!names_level(t)) by {
                long_names_are_no_levels(t);
            }
            assert(target_of(d) == Some(t));
            assert(level_of(d) is None);
        },
    }
}

proof fn trimmed_ends(s: Seq<char>)
    requires
        text::trim(s) == s,
        s.len() > 0,
    ensures
        !text::white_space(s.last()),
        !text::white_space(s[0]),
    decreases s.len(),
{
    trim_shortens(s);
    let front = text::trim_front(s);
    trim_front_shortens(s);
    trim_back_shortens(front);
    if text::white_space(s[0]) {
        trim_front_shortens(s.skip(1));
    }
    if text::white_space(s.last()) {
        trim_back_shortens(s.drop_last());
    }
}

proof fn trim_shortens(s: Seq<char>)
    ensures
        text::trim(s).len() <= s.len(),
{
    trim_front_shortens(s);
    trim_back_shortens(text::trim_front(s));
}

proof fn trim_front_shortens(s: Seq<char>)
    ensures
        text::trim_front(s).len() <= s.len(),
        text::trim_front(s).len() == s.len() ==> text::trim_front(s) == s,
    decreases s.len(),
{
    if s.len() > 0 && text::white_space(s[0]) {
        trim_front_shortens(s.skip(1));
    }
}

proof fn trim_back_shortens(s: Seq<char>)
    ensures
        text::trim_back(s).len() <= s.len(),
        forall|k: int| 0 <= k < text::trim_back(s).len() ==> #[trigger] text::trim_back(s)[k] == s[k],
    decreases s.len(),
{
    if s.len() > 0 && text::white_space(s.last()) {
        trim_back_shortens(s.drop_last());
    }
}

proof fn trimmed_part(d: Seq<char>)
    requires
        d.len() > 0,
        !text::white_space(d[0]),
    ensures
        forall|c: char| !d.contains(c) ==> !(#[trigger] text::trim(d).contains(c)),
{
    assert(text::trim_front(d) == d);
    trim_back_shortens(d);
    assert forall|c: char| !d.contains(c) implies !(#[trigger] text::trim(d).contains(c)) by {
        if text::trim(d).contains(c) {
            let k = choose|k: int| 0 <= k < text::trim(d).len() && text::trim(d)[k] == c;
            assert(d[k] == c);
        }
    }
}

proof fn long_names_are_no_levels(s: Seq<char>)
    requires
        s.len() > 5,
        'a' <= s[0] <= 'z',
    ensures
        !names_level(s),
{
    reveal_strlit("off");
    reveal_strlit("error");
    reveal_strlit("warn");
    reveal_strlit("info");
    reveal_strlit("debug");
    reveal_strlit("trace");
    assert(text::lower(s).len() == s.len());
    assert("off"@.len() == 3 && "error"@.len() == 5 && "warn"@.len() == 4 && "info"@.len() == 4
        && "debug"@.len() == 5 && "trace"@.len() == 5);
    assert(!text::is_digit(s[0]));
}

proof fn level_is_quiet(level: Seq<char>)
    requires
        level.len() > 0,
        level_named(level) is Some,
        !lets_plans_through(Some(text::trim(level))),
    ensures
        quiet(level_named(level)->0),
{
    levels_hold_no_space(level);
    if text::parsed_u64(level) is Some {
        assert(text::lower(level) =~= level) by {
            assert forall|k: int| 0 <= k < level.len() implies text::lower_char(
                #[trigger] level[k],
            ) == level[k] by {
                if k > 0 || level[0] != '+' {
                    let body = if level[0] == '+' {
                        level.skip(1)
                    } else {
                        level
                    };
                    let at = if level[0] == '+' {
                        k - 1
                    } else {
                        k
                    };
                    assert(body[at] == level[k]);
                    assert(text::is_digit(body[at]));
                }
            }
        }
    }
}

proof fn kept_levels_are_quiet(kept: Seq<Seq<char>>, target: Seq<char>)
    requires
        forall|i: int| 0 <= i < kept.len() ==> !leaks(#[trigger] kept[i]),
        all_readable(kept),
        prints_plans(target),
    ensures
        read_levels(kept).dom().contains(Some(target)) ==> quiet(read_levels(kept)[Some(target)]),
    decreases kept.len(),
{
    if kept.len() > 0 {
        let earlier = kept.drop_last();
        assert forall|i: int| 0 <= i < earlier.len() implies !leaks(#[trigger] earlier[i]) && (
        plain(earlier[i]) ==> read_level(earlier[i]) is Some) by {
            assert(kept[i] == earlier[i]);
        }
        kept_levels_are_quiet(earlier, target);
        let last = kept.last();
        assert(kept[kept.len() - 1] == last);
        if plain(last) && read_target(last) == Some(target) {
            harmless_directive_is_quiet(last);
        }
    }
}

proof fn set_levels_are_read(kept: Seq<Seq<char>>, target: Seq<char>)
    requires
        all_readable(kept),
        sets_level_of(kept, target),
    ensures
        read_levels(kept).dom().contains(Some(target)),
    decreases kept.len(),
{
    let i = choose|i: int|
        0 <= i < kept.len() && plain(#[trigger] kept[i]) && read_target(kept[i]) == Some(target);
    let earlier = kept.drop_last();
    assert(kept[kept.len() - 1] == kept.last());
    if i < earlier.len() {
        assert(earlier[i] == kept[i]);
        assert forall|k: int| 0 <= k < earlier.len() && plain(#[trigger] earlier[k]) implies read_level(
            earlier[k],
        ) is Some by {
            assert(kept[k] == earlier[k]);
        }
        set_levels_are_read(earlier, target);
    }
}

proof fn quiet_levels_decide(
    levels: Map<Option<Seq<char>>, Seq<char>>,
    target: Seq<char>,
    n: nat,
    least: nat,
)
    requires
        least <= n <= target.len(),
        forall|k: int|
            least <= k <= target.len() && levels.dom().contains(Some(#[trigger] target.take(k)))
                ==> quiet(levels[Some(target.take(k))]),
        levels.dom().contains(Some(target.take(least as int))),
    ensures
        deciding_level(levels, target, n) matches Some(level) && quiet(level),
    decreases n,
{
    if !levels.dom().contains(Some(target.take(n as int))) {
        quiet_levels_decide(levels, target, (n - 1) as nat, least);
    }
}

proof fn all_quiet(levels: Map<Option<Seq<char>>, Seq<char>>, target: Seq<char>, n: nat)
    requires
        forall|key: Option<Seq<char>>| #[trigger] levels.dom().contains(key) ==> quiet(levels[key]),
    ensures
        deciding_level(levels, target, n) matches Some(level) ==> quiet(level),
    decreases n,
{
    if n > 0 {
        all_quiet(levels, target, (n - 1) as nat);
    }
}

proof fn longer_targets_print_plans(target: Seq<char>, k: int)
    requires
        prints_plans(target),
        plan_prefix(target).len() <= k <= target.len(),
    ensures
        prints_plans(target.take(k)),
        target.take(plan_prefix(target).len() as int) == plan_prefix(target),
{
    plan_prefixes_are_plain(target);
    let front = plan_prefix(target);
    let i = choose|i: int| 0 <= i < plan_prefixes().len() && plan_prefixes()[i] == front;
    assert(target.take(k).take(front.len() as int) =~= target.take(front.len() as int));
    assert(text::has_prefix(target.take(k), plan_prefixes()[i]));
}

proof fn plan_targets_are_quiet(
    base: Map<Option<Seq<char>>, Seq<char>>,
    parsed: bool,
    rust_log: Option<Seq<char>>,
    target: Seq<char>,
)
    requires
        prints_plans(target),
        base == base_levels(retained(rust_log, false)),
        parsed ==> all_readable(retained(rust_log, false)) && levels_agree(
            base,
            read_levels(retained(rust_log, false)),
        ),
        !parsed ==> base == one_level("info"@),
    ensures
        kept_quiet(filter_levels(rust_log, false), target),
{
    let kept = retained(rust_log, false);
    let levels = filter_levels(rust_log, false);
    plan_prefixes_are_plain(target);
    let front = plan_prefix(target);
    if let Some(v) = rust_log {
        harmless_directives(text::split_on(v, ','));
    }
    if parsed {
        assert(front == "datafusion"@ || front == "skardi_query_plan"@ || front == "sqlparser"@);
        if sets_level_of(kept, front) {
            set_levels_are_read(kept, front);
            assert(base.dom().contains(Some(front)));
        }
        assert(levels.dom().contains(Some(front)));
        assert forall|k: int|
            front.len() <= k <= target.len() && levels.dom().contains(
                Some(#[trigger] target.take(k)),
            ) implies quiet(levels[Some(target.take(k))]) by {
            longer_targets_print_plans(target, k);
            kept_levels_are_quiet(kept, target.take(k));
            assert(target.take(k)[0] == front[0]);
            let key = Some(target.take(k));
            assert(base.dom().contains(key) == read_levels(kept).dom().contains(key));
        }
        longer_targets_print_plans(target, front.len() as int);
        quiet_levels_decide(levels, target, target.len(), front.len());
    } else {
        all_quiet(levels, target, target.len());
    }
}

proof fn scoped_levels_are_quiet(levels: Set<Seq<char>>, kept: Seq<Seq<char>>)
    requires
        forall|i: int| 0 <= i < kept.len() ==> !leaks(#[trigger] kept[i]),
        set_in_spans(levels, kept),
    ensures
        forall|level: Seq<char>| #[trigger] levels.contains(level) ==> quiet(level),
{
    assert forall|level: Seq<char>| #[trigger] levels.contains(level) implies quiet(level) by {
        let i = choose|i: int|
            0 <= i < kept.len() && scoped(#[trigger] kept[i]) && scoped_level(kept[i]) == Some(
                level,
            );
        let d = text::trim(kept[i]);
        text::first_index_is_first(d, '[');
        assert(target_of(kept[i]) is Some);
        assert(!lets_plans_through(level_of(kept[i])));
        let said = level_of(kept[i])->0;
        levels_hold_no_space(said);
        level_is_quiet(said);
    }
}

/// Makes the log filter from the operator's directives, `None` where there are
/// none, and `info` by default. Directives that would let a target print plans
/// are dropped, unless `allow_plan_value_logging` lifts the floor.
pub fn build_env_filter(rust_log: Option<&str>, allow_plan_value_logging: bool) -> (filter:
    EnvFilter)
    requires
        can_be_parsed(text::optional(rust_log), allow_plan_value_logging),
    ensures
        target_levels(filter) == filter_levels(text::optional(rust_log), allow_plan_value_logging),
        ({
            let kept = retained(text::optional(rust_log), allow_plan_value_logging);
            base_text(kept) matches Some(directives) ==> (parsed_levels(directives) matches Some(
                levels,
            ) ==> all_readable(kept) && levels_agree(levels, read_levels(kept)))
        }),
        !allow_plan_value_logging ==> forall|target: Seq<char>|
            prints_plans(target) ==> #[trigger] kept_quiet(target_levels(filter), target),
        !allow_plan_value_logging ==> forall|level: Seq<char>| #[trigger]
            scoped_levels(filter).contains(level) ==> quiet(level),
{
    let kept = keep_directives(rust_log, allow_plan_value_logging);
    let sanitized = join(&kept, ",");
    let parsed = if trimmed(sanitized.as_str()).as_str().is_empty() {
        None
    } else {
        proof {
            if rust_log is None {
                assert(text::joined(text::texts(kept@), ","@) =~= Seq::empty());
            }
        }
        parse_filter(sanitized.as_str())
    };
    proof {
        let directives = text::texts(kept@);
        if parsed is Some {
            kept_directives_are_split(text::optional(rust_log), allow_plan_value_logging);
        }
        let base = base_levels(directives);
        if !allow_plan_value_logging {
            assert forall|target: Seq<char>| prints_plans(target) implies #[trigger] kept_quiet(
                filter_levels(text::optional(rust_log), false),
                target,
            ) by {
                plan_targets_are_quiet(
                    base,
                    parsed is Some,
                    text::optional(rust_log),
                    target,
                );
            }
        }
    }
    let base = match parsed {
        Some(filter) => {
            proof {
                if !allow_plan_value_logging {
                    if let Some(v) = text::optional(rust_log) {
                        harmless_directives(text::split_on(v, ','));
                    }
                    scoped_levels_are_quiet(scoped_levels(filter), text::texts(kept@));
                }
            }
            filter
        },
        None => level_filter("info"),
    };
    let filter = finish_filter(base, &kept, rust_log, allow_plan_value_logging);
    assert(target_levels(filter) == filter_levels(
        text::optional(rust_log),
        allow_plan_value_logging,
    ));
    filter
}

fn char_width(c: char) -> (r: u128)
    ensures
        r == width(c),
{
    if c as u32 <= 0x7f {
        1
    } else if c as u32 <= 0x7ff {
        2
    } else if c as u32 <= 0xffff {
        3
    } else {
        4
    }
}

proof fn bytes_are_bounded(s: Seq<char>)
    ensures
        s.len() <= bytes(s) <= 4 * s.len(),
    decreases s.len(),
{
    if s.len() > 0 {
        bytes_are_bounded(s.drop_last());
    }
}

fn lies_between_chars(chars: &Vec<char>, n: u128) -> (r: bool)
    ensures
        r == between_chars(chars@, n as nat),
{
    let len: usize = chars.len();
    let mut m: usize = 0;
    let mut count: u128 = 0;
    assert(chars@.take(0) =~= Seq::empty());
    loop
        invariant
            len == chars@.len(),
            m <= len,
            count == bytes(chars@.take(m as int)),
            forall|k: int| 0 <= k < m ==> bytes(#[trigger] chars@.take(k)) != n,
        decreases len - m,
    {
        if count == n {
            assert(bytes(chars@.take(m as int)) == n);
            return true;
        }
        if m == len {
            return false;
        }
        proof {
            bytes_are_bounded(chars@.take(m as int));
            assert(chars@.take(m + 1).drop_last() =~= chars@.take(m as int));
        }
        count = count + char_width(chars[m]);
        m += 1;
    }
}

fn directive_is_aligned(directive: &str) -> (r: bool)
    ensures
        r == aligned(directive@),
{
    let chars = chars_of(directive);
    let d = trimmed(directive);
    let inner = chars_of(d.as_str());
    let len: usize = inner.len();
    let mut j: usize = 0;
    let mut count: u128 = 0;
    assert(inner@.take(0) =~= Seq::empty());
    while j < len
        invariant
            chars@ == directive@,
            inner@ == text::trim(directive@),
            len == inner@.len(),
            j <= len,
            count == bytes(inner@.take(j as int)),
            forall|k: int| 0 <= k < j && separates(#[trigger] inner@[k]) ==> cuts_at(directive@, k),
        decreases len - j,
    {
        let c = inner[j];
        proof {
            bytes_are_bounded(inner@.take(j as int));
            assert(inner@.take(j + 1).drop_last() =~= inner@.take(j as int));
        }
        if c == '=' || c == '[' || c == ']' || c == '{' || c == '}' {
            if !lies_between_chars(&chars, count) || !lies_between_chars(&chars, count + 1) {
                assert(separates(inner@[j as int]) && !cuts_at(directive@, j as int));
                return false;
            }
        }
        count = count + char_width(c);
        j += 1;
    }
    true
}

/// Whether all directives of a text can be parsed without splitting a
/// character.
pub fn directives_are_aligned(directives: &str) -> (r: bool)
    ensures
        r == all_aligned(directives@),
{
    let chars = chars_of(directives);
    assert(chars@.skip(0) =~= chars@);
    let parts = split_chars(&chars, 0, ',');
    let ghost all = text::split_on(directives@, ',');
    let mut i: usize = 0;
    while i < parts.len()
        invariant
            all == text::split_on(directives@, ','),
            text::texts(parts@) == all,
            i <= parts@.len(),
            forall|k: int| 0 <= k < i ==> aligned(#[trigger] all[k]),
        decreases parts@.len() - i,
    {
        assert(all[i as int] == parts@[i as int]@);
        if !directive_is_aligned(parts[i].as_str()) {
            return false;
        }
        i += 1;
    }
    true
}

/// Whether [`build_env_filter`] can take the operator's directives.
pub fn filter_can_be_built(rust_log: Option<&str>, allow_plan_value_logging: bool) -> (r: bool)
    ensures
        r == can_be_parsed(text::optional(rust_log), allow_plan_value_logging),
{
    match rust_log {
        Some(_) => {
            let kept = keep_directives(rust_log, allow_plan_value_logging);
            directives_are_aligned(join(&kept, ",").as_str())
        },
        None => true,
    }
}

/// Whether the value of [`ALLOW_PLAN_VALUE_LOGGING_ENV`] lifts the floor.
pub open spec fn lifts_floor(value: Seq<char>) -> bool {
    let v = text::lower(text::trim(value));
    !(v.len() == 0 || v == "0"@ || v == "false"@ || v == "no"@)
}

/// Whether the variable's value, `None` where it is unset, lifts the floor.
pub fn allow_plan_value_logging_from_env(value: Option<&str>) -> (r: bool)
    ensures
        r == (value matches Some(v) && lifts_floor(v@)),
{
    match value {
        Some(value) => {
            let v = lowered(trimmed(value).as_str());
            let v = v.as_str();
            !(v.is_empty() || same_text(v, "0") || same_text(v, "false") || same_text(v, "no"))
        },
        None => false,
    }
}

/// With the floor in place no kept directive lets a target print its plans, by
/// itself or inside a span, and each plan target whose level no kept directive
/// sets is at `info`, whatever the operator's directives say. A directive for a
/// span alone does not lift it.
pub proof fn plans_stay_out_of_the_logs(rust_log: Option<Seq<char>>, target: Seq<char>)
    requires
        plan_prefixes().contains(target),
    ensures
        forall|i: int|
            0 <= i < retained(rust_log, false).len() ==> !leaks(
                #[trigger] retained(rust_log, false)[i],
            ),
        !sets_level_of(retained(rust_log, false), target) ==> filter_levels(
            rust_log,
            false,
        ).contains_key(Some(target)) && filter_levels(rust_log, false)[Some(target)] == "info"@,
{
    if let Some(v) = rust_log {
        harmless_directives(text::split_on(v, ','));
    }
    reveal_strlit("datafusion");
    reveal_strlit("skardi_query_plan");
    reveal_strlit("sqlparser");
    reveal_strlit("aws_config");
    assert("datafusion"@.len() == 10 && "aws_config"@.len() == 10);
    assert("datafusion"@[0] == 'd' && "aws_config"@[0] == 'a');
    assert("skardi_query_plan"@.len() == 17 && "sqlparser"@.len() == 9);
}

/// Credentials resolution stays capped outside of spans, unless the operator
/// speaks of it.
pub proof fn credentials_are_capped(rust_log: Option<Seq<char>>, allow: bool)
    requires
        !(rust_log matches Some(v) && text::occurs(v, "aws_config"@)),
    ensures
        filter_levels(rust_log, allow).contains_key(Some("aws_config"@)),
        filter_levels(rust_log, allow)[Some("aws_config"@)] == "warn"@,
{
}

} // verus!
