//! What parameters become in a query.
use vstd::prelude::*;

use crate::json::{JsonView, NumberView};
use crate::json_text;
use crate::server::sql_params;
use crate::text;

verus! {

/// Whether a piece of SQL stands for a JSON value that is no row: a text as a
/// literal in single quotes from which the text is read back whatever follows
/// it, a number by its digits, a boolean and null by their names, and anything
/// else by its JSON text.
pub open spec fn stands_for(piece: Seq<char>, value: JsonView) -> bool {
    match value {
        JsonView::String(s) => {
            &&& piece.len() > 0
            &&& piece[0] == '\''
            &&& forall|behind: Seq<char>|
                behind.len() == 0 || behind[0] != '\'' ==> #[trigger] sql_params::read_literal(
                    (piece + behind).skip(1),
                ) == Some((s, behind))
        },
        JsonView::Number(NumberView::PosInt(n)) => piece == text::decimal(n as nat),
        JsonView::Number(NumberView::NegInt(n)) => if n < 0 {
            piece == seq!['-'] + text::decimal((-n) as nat)
        } else {
            piece == text::decimal(n as nat)
        },
        JsonView::Bool(true) => piece == seq!['t', 'r', 'u', 'e'],
        JsonView::Bool(false) => piece == seq!['f', 'a', 'l', 's', 'e'],
        JsonView::Null => piece == seq!['N', 'U', 'L', 'L'],
        _ => piece == json_text::json_text(value),
    }
}

/// Pieces of SQL with commas between them.
pub open spec fn listed(pieces: Seq<Seq<char>>) -> Seq<char> {
    text::joined(pieces, seq![',', ' '])
}

/// Whether a piece of SQL is a list of values, in their order, between brackets.
pub open spec fn stands_for_list(piece: Seq<char>, items: Seq<JsonView>) -> bool {
    exists|pieces: Seq<Seq<char>>|
        pieces.len() == items.len() && (forall|i: int|
            0 <= i < items.len() ==> stands_for(#[trigger] pieces[i], items[i])) && piece == seq!['[']
            + #[trigger] listed(pieces) + seq![']']
}

/// Whether a piece of SQL stands for a cell of a row: a list for an array, and
/// what a value stands as otherwise.
pub open spec fn stands_for_cell(piece: Seq<char>, cell: JsonView) -> bool {
    match cell {
        JsonView::Array(items) => stands_for_list(piece, items),
        _ => stands_for(piece, cell),
    }
}

/// Whether a piece of SQL is a row of cells, in their order, between
/// parentheses.
pub open spec fn stands_for_row(piece: Seq<char>, cells: Seq<JsonView>) -> bool {
    exists|pieces: Seq<Seq<char>>|
        pieces.len() == cells.len() && (forall|i: int|
            0 <= i < cells.len() ==> stands_for_cell(#[trigger] pieces[i], cells[i])) && piece
            == seq!['('] + #[trigger] listed(pieces) + seq![')']
}

/// Whether a piece of SQL is rows, in their order.
pub open spec fn stands_for_rows(piece: Seq<char>, rows: Seq<JsonView>) -> bool {
    exists|pieces: Seq<Seq<char>>|
        pieces.len() == rows.len() && (forall|i: int|
            0 <= i < rows.len() ==> stands_for_row(#[trigger] pieces[i], rows[i]->Array_0)) && piece
            == #[trigger] listed(pieces)
}

proof fn literals()
    ensures
        "-"@ == seq!['-'],
        "["@ == seq!['['],
        "]"@ == seq![']'],
        "("@ == seq!['('],
        ")"@ == seq![')'],
        ", "@ == seq![',', ' '],
        "true"@ == seq!['t', 'r', 'u', 'e'],
        "false"@ == seq!['f', 'a', 'l', 's', 'e'],
        "NULL"@ == seq!['N', 'U', 'L', 'L'],
{
    reveal_strlit("-");
    reveal_strlit("[");
    reveal_strlit("]");
    reveal_strlit("(");
    reveal_strlit(")");
    reveal_strlit(", ");
    reveal_strlit("true");
    reveal_strlit("false");
    reveal_strlit("NULL");
    assert("-"@ =~= seq!['-']);
    assert("["@ =~= seq!['[']);
    assert("]"@ =~= seq![']']);
    assert("("@ =~= seq!['(']);
    assert(")"@ =~= seq![')']);
    assert(", "@ =~= seq![',', ' ']);
    assert("true"@ =~= seq!['t', 'r', 'u', 'e']);
    assert("false"@ =~= seq!['f', 'a', 'l', 's', 'e']);
    assert("NULL"@ =~= seq!['N', 'U', 'L', 'L']);
}

/// What a value that is no row is written as in SQL stands for that value.
pub proof fn written_values_stand_for_themselves(value: JsonView)
    ensures
        stands_for(sql_params::scalar_sql(value), value),
{
    literals();
    if let JsonView::String(s) = value {
        let piece = sql_params::quoted(s);
        assert forall|behind: Seq<char>|
            behind.len() == 0 || behind[0] != '\'' implies #[trigger] sql_params::read_literal(
            (piece + behind).skip(1),
        ) == Some((s, behind)) by {
            sql_params::quoted_text_reads_back(s, behind);
        }
        reveal_strlit("'");
    }
}

/// An array that is written as a list holds its elements in their order, each
/// standing for itself.
pub proof fn written_lists_hold_their_elements(items: Seq<JsonView>)
    ensures
        stands_for_list(sql_params::array_sql(items), items),
{
    literals();
    let pieces = sql_params::scalars_sql(items);
    assert forall|i: int| 0 <= i < items.len() implies stands_for(#[trigger] pieces[i], items[i]) by {
        written_values_stand_for_themselves(items[i]);
    }
    assert(sql_params::array_sql(items) == seq!['['] + listed(pieces)
        + seq![']']);
}

proof fn written_rows_hold_their_cells(cells: Seq<JsonView>)
    ensures
        stands_for_row(sql_params::row_sql(JsonView::Array(cells)), cells),
{
    literals();
    let pieces = sql_params::cells_sql(cells);
    assert forall|i: int| 0 <= i < cells.len() implies stands_for_cell(
        #[trigger] pieces[i],
        cells[i],
    ) by {
        match cells[i] {
            JsonView::Array(items) => written_lists_hold_their_elements(items),
            _ => written_values_stand_for_themselves(cells[i]),
        }
    }
    assert(sql_params::row_sql(JsonView::Array(cells)) == seq!['('] + listed(pieces) + seq![')']);
}

/// Whether an array parameter can be used: it has elements, and either none of
/// them is an array, or all are arrays of one length that is not zero.
pub open spec fn usable_array(items: Seq<JsonView>) -> bool {
    &&& items.len() > 0
    &&& {
        ||| forall|i: int| 0 <= i < items.len() ==> !((#[trigger] items[i]) is Array)
        ||| exists|width: nat| width > 0 && #[trigger] rows_of(items, width)
    }
}

/// Whether all items are arrays of one length.
pub open spec fn rows_of(items: Seq<JsonView>, width: nat) -> bool {
    forall|i: int|
        0 <= i < items.len() ==> (#[trigger] items[i]) is Array && items[i]->Array_0.len() == width
}

/// What a parameter's value is written as stands for the value: scalars for
/// themselves, an array of scalars as a list, an array of rows as rows. It is
/// written exactly where it is no object and, if an array, a usable one; what
/// is not is reported under the parameter's name.
pub proof fn parameters_stand_for_their_values(name: Seq<char>, value: JsonView)
    ensures
        sql_params::param_sql(name, value) is Ok <==> match value {
            JsonView::Object(_) => false,
            JsonView::Array(items) => usable_array(items),
            _ => true,
        },
        sql_params::param_sql(name, value) matches Ok(piece) ==> match value {
            JsonView::Array(items) => if items[0] is Array {
                stands_for_rows(piece, items)
            } else {
                stands_for_list(piece, items)
            },
            _ => stands_for(piece, value),
        },
        sql_params::param_sql(name, value) matches Err(problem) ==> text::has_prefix(
            problem,
            name + seq![':', ' '],
        ),
        sql_params::param_sql(name, value) matches Err(problem) ==> (match value {
            JsonView::Array(items) => items.len() > 0,
            _ => true,
        }) ==> problem == name + seq![':', ' '] + json_text::debug_text(value),
{
    literals();
    reveal_strlit(": ");
    assert(": "@ =~= seq![':', ' ']);
    let front = name + seq![':', ' '];
    assert((front + json_text::debug_text(value)).take(front.len() as int) =~= front);
    match value {
        JsonView::Array(items) => {
            reveal_strlit(
                ": empty array — provide at least one row/element, or filter empty batches client-side",
            );
            let empty =
                name
                + ": empty array — provide at least one row/element, or filter empty batches client-side"@;
            assert(empty.take(front.len() as int) =~= front);
            if items.len() > 0 && sql_params::all_arrays(items) {
                let width = items[0]->Array_0.len();
                if sql_params::even_rows(items) {
                    assert(rows_of(items, width));
                    let pieces = Seq::new(items.len(), |i: int| sql_params::row_sql(items[i]));
                    assert forall|i: int| 0 <= i < items.len() implies stands_for_row(
                        #[trigger] pieces[i],
                        items[i]->Array_0,
                    ) by {
                        written_rows_hold_their_cells(items[i]->Array_0);
                        assert(items[i] == JsonView::Array(items[i]->Array_0));
                    }
                    assert(sql_params::rows_sql(items) == listed(pieces));
                } else if usable_array(items) {
                    assert(items[0] is Array);
                }
            } else if items.len() > 0 {
                written_lists_hold_their_elements(items);
                if sql_params::some_array(items) && usable_array(items) {
                    let i = choose|i: int| 0 <= i < items.len() && (#[trigger] items[i]) is Array;
                    assert(items[i] is Array);
                }
            }
        },
        JsonView::Object(_) => {},
        _ => written_values_stand_for_themselves(value),
    }
}

/// Where a part of joined texts stands: behind the earlier parts and their
/// separators and in front of the later ones.
pub proof fn joined_parts_stand_in_place(parts: Seq<Seq<char>>, sep: Seq<char>, i: int)
    requires
        0 <= i < parts.len(),
    ensures
        text::joined(parts, sep) == (if i == 0 {
            Seq::empty()
        } else {
            text::joined(parts.take(i), sep) + sep
        }) + parts[i] + (if i == parts.len() - 1 {
            Seq::empty()
        } else {
            sep + text::joined(parts.skip(i + 1), sep)
        }),
    decreases parts.len(),
{
    let all = text::joined(parts, sep);
    if i == parts.len() - 1 {
        assert(parts.take(i) =~= parts.drop_last());
        if i == 0 {
            assert(all =~= Seq::<char>::empty() + parts[i] + Seq::<char>::empty());
        } else {
            assert(all =~= text::joined(parts.take(i), sep) + sep + parts[i] + Seq::<char>::empty());
        }
    } else {
        let shorter = parts.drop_last();
        joined_parts_stand_in_place(shorter, sep, i);
        assert(shorter.take(i) =~= parts.take(i));
        let later = parts.skip(i + 1);
        assert(later.drop_last() =~= shorter.skip(i + 1));
        assert(later.last() == parts.last());
        let front = if i == 0 {
            Seq::empty()
        } else {
            text::joined(parts.take(i), sep) + sep
        };
        if i == shorter.len() - 1 {
            assert(later =~= seq![parts.last()]);
            assert(text::joined(later, sep) =~= parts.last());
            assert(all =~= front + parts[i] + (sep + text::joined(later, sep)));
        } else {
            assert(text::joined(later, sep) == text::joined(shorter.skip(i + 1), sep) + sep
                + parts.last());
            assert(all =~= front + parts[i] + (sep + text::joined(later, sep)));
        }
    }
}

/// Every text in an array parameter stands in the SQL, behind the opening
/// bracket and the elements before it, as a literal that opens with a single
/// quote and is read back as that text; behind the literal comes the next
/// element or the closing bracket.
pub proof fn texts_in_lists_read_back(items: Seq<JsonView>, i: int, s: Seq<char>)
    requires
        0 <= i < items.len(),
        items[i] == JsonView::String(s),
    ensures
        exists|front: Seq<char>, rest: Seq<char>, behind: Seq<char>|
            sql_params::array_sql(items) == #[trigger] (front + rest) && rest.len() > 0 && rest[0]
                == '\'' && sql_params::read_literal(rest.skip(1)) == Some(
                (s, #[trigger] seen_behind(behind)),
            ) && behind.len() > 0 && (if i == items.len() - 1 {
                behind == seq![']']
            } else {
                text::has_prefix(behind, seq![',', ' '])
            }) && (if i == 0 {
                front == seq!['[']
            } else {
                front == seq!['['] + text::joined(
                    sql_params::scalars_sql(items.take(i)),
                    seq![',', ' '],
                ) + seq![',', ' ']
            }),
{
    literals();
    let sep = seq![',', ' '];
    let pieces = sql_params::scalars_sql(items);
    joined_parts_stand_in_place(pieces, sep, i);
    assert(pieces.take(i) =~= sql_params::scalars_sql(items.take(i)));
    let earlier = if i == 0 {
        Seq::empty()
    } else {
        text::joined(pieces.take(i), sep) + sep
    };
    let later = if i == pieces.len() - 1 {
        Seq::empty()
    } else {
        sep + text::joined(pieces.skip(i + 1), sep)
    };
    let front = if i == 0 {
        seq!['[']
    } else {
        seq!['['] + text::joined(pieces.take(i), sep) + sep
    };
    let behind = later + seq![']'];
    let rest = sql_params::quoted(s) + behind;
    sql_params::quoted_text_reads_back(s, behind);
    if i == pieces.len() - 1 {
        assert(behind =~= seq![']']);
    } else {
        assert(behind.take(2) =~= sep);
    }
    assert(sql_params::array_sql(items) =~= front + rest);
    assert(seen_behind(behind) == behind);
}

/// A text as it is.
pub open spec fn seen_behind(s: Seq<char>) -> Seq<char> {
    s
}

/// The missing parameters are the expected ones that were not given, in the
/// order in which they are expected.
pub proof fn missing_parameters_are_those_not_given(
    sql: Seq<char>,
    expected: Seq<Seq<char>>,
    given: Map<Seq<char>, JsonView>,
)
    ensures
        sql_params::substituted(sql, expected, given).missing == expected.filter(
            |name: Seq<char>| !given.contains_key(name),
        ),
    decreases expected.len(),
{
    reveal(Seq::filter);
    if expected.len() > 0 {
        missing_parameters_are_those_not_given(sql, expected.drop_last(), given);
    }
}

/// The unusable parameters are the expected ones that were given with a value
/// that cannot be written, in the order in which they are expected.
pub proof fn unusable_parameters_are_reported(
    sql: Seq<char>,
    expected: Seq<Seq<char>>,
    given: Map<Seq<char>, JsonView>,
)
    ensures
        sql_params::substituted(sql, expected, given).unsupported.len() == expected.filter(
            |name: Seq<char>|
                given.contains_key(name) && sql_params::param_sql(name, given[name]) is Err,
        ).len(),
        forall|i: int|
            0 <= i < sql_params::substituted(sql, expected, given).unsupported.len()
                ==> sql_params::param_sql(
                expected.filter(
                    |name: Seq<char>|
                        given.contains_key(name) && sql_params::param_sql(name, given[name]) is Err,
                )[i],
                given[expected.filter(
                    |name: Seq<char>|
                        given.contains_key(name) && sql_params::param_sql(name, given[name]) is Err,
                )[i]],
            ) == Err::<Seq<char>, _>(
                #[trigger] sql_params::substituted(sql, expected, given).unsupported[i],
            ),
    decreases expected.len(),
{
    reveal(Seq::filter);
    if expected.len() > 0 {
        unusable_parameters_are_reported(sql, expected.drop_last(), given);
    }
}

} // verus!
