//! Descriptions of tables and columns in words.
use vstd::prelude::*;

use crate::server::data_source;
use crate::text;
use crate::text::same_text;
use crate::text_map;
use crate::text_map::TextMap;

verus! {

/// What tables and columns are, in words.
#[derive(Debug)]
pub struct SemanticsRegistry {
    /// The descriptions of tables by their names.
    pub tables: TextMap,
    /// The descriptions of columns: table, column and description. Of two for
    /// one column the later one counts.
    pub columns: Vec<(String, String, String)>,
}

/// The model of a [`SemanticsRegistry`].
pub struct SemanticsView {
    pub tables: Map<Seq<char>, Seq<char>>,
    pub columns: Map<(Seq<char>, Seq<char>), Seq<char>>,
}

/// The map that a row of column descriptions stands for.
pub open spec fn columns_view(columns: Seq<(String, String, String)>) -> Map<
    (Seq<char>, Seq<char>),
    Seq<char>,
>
    decreases columns.len(),
{
    if columns.len() == 0 {
        Map::empty()
    } else {
        let (table, column, description) = columns.last();
        columns_view(columns.drop_last()).insert((table@, column@), description@)
    }
}

impl View for SemanticsRegistry {
    type V = SemanticsView;

    open spec fn view(&self) -> SemanticsView {
        SemanticsView { tables: self.tables@, columns: columns_view(self.columns@) }
    }
}

/// The description of a column, if there is one.
pub open spec fn column_text(
    semantics: SemanticsView,
    table: Seq<char>,
    column: Seq<char>,
) -> Option<Seq<char>> {
    if semantics.columns.contains_key((table, column)) {
        Some(semantics.columns[(table, column)])
    } else {
        None
    }
}

proof fn later_columns_hide(columns: Seq<(String, String, String)>, i: int)
    requires
        0 <= i < columns.len(),
        forall|j: int|
            i < j < columns.len() ==> !((#[trigger] columns[j]).0@ == columns[i].0@ && columns[j].1@
                == columns[i].1@),
    ensures
        columns_view(columns).contains_key((columns[i].0@, columns[i].1@)),
        columns_view(columns)[(columns[i].0@, columns[i].1@)] == columns[i].2@,
    decreases columns.len(),
{
    if i < columns.len() - 1 {
        let shorter = columns.drop_last();
        assert(columns[columns.len() - 1] == columns.last());
        assert forall|j: int| i < j < shorter.len() implies !((#[trigger] shorter[j]).0@
            == shorter[i].0@ && shorter[j].1@ == shorter[i].1@) by {
            assert(shorter[j] == columns[j]);
        }
        later_columns_hide(shorter, i);
    }
}

proof fn absent_columns(
    columns: Seq<(String, String, String)>,
    table: Seq<char>,
    column: Seq<char>,
)
    requires
        forall|j: int|
            0 <= j < columns.len() ==> !((#[trigger] columns[j]).0@ == table && columns[j].1@
                == column),
    ensures
        !columns_view(columns).contains_key((table, column)),
    decreases columns.len(),
{
    if columns.len() > 0 {
        assert(columns[columns.len() - 1] == columns.last());
        absent_columns(columns.drop_last(), table, column);
    }
}

/// Table descriptions, completed by those of the sources that have none yet.
pub open spec fn completed(
    tables: Map<Seq<char>, Seq<char>>,
    fallbacks: Seq<(Seq<char>, Option<Seq<char>>)>,
) -> Map<Seq<char>, Seq<char>>
    decreases fallbacks.len(),
{
    if fallbacks.len() == 0 {
        tables
    } else {
        let before = completed(tables, fallbacks.drop_last());
        let (name, description) = fallbacks.last();
        match description {
            Some(description) => if before.contains_key(name) {
                before
            } else {
                before.insert(name, description)
            },
            None => before,
        }
    }
}

/// The models of names with optional descriptions.
pub open spec fn described(names: Seq<(String, Option<String>)>) -> Seq<
    (Seq<char>, Option<Seq<char>>),
> {
    Seq::new(names.len(), |i: int| (names[i].0@, data_source::owned(names[i].1)))
}

impl SemanticsRegistry {
    /// A registry without descriptions.
    pub fn new() -> (r: SemanticsRegistry)
        ensures
            r@.tables == Map::<Seq<char>, Seq<char>>::empty(),
            r@.columns == Map::<(Seq<char>, Seq<char>), Seq<char>>::empty(),
    {
        SemanticsRegistry { tables: TextMap::new(), columns: Vec::new() }
    }

    /// The description of a table.
    pub fn table_description(&self, table: &str) -> (r: Option<&str>)
        ensures
            text::optional(r) == text_map::lookup(self@.tables, table@),
    {
        self.tables.get(table)
    }

    /// The description of a column.
    pub fn column_description(&self, table: &str, column: &str) -> (r: Option<&str>)
        ensures
            text::optional(r) == column_text(self@, table@, column@),
    {
        let mut i: usize = self.columns.len();
        while i > 0
            invariant
                i <= self.columns@.len(),
                forall|j: int|
                    i <= j < self.columns@.len() ==> !((#[trigger] self.columns@[j]).0@ == table@
                        && self.columns@[j].1@ == column@),
            decreases i,
        {
            i -= 1;
            if same_text(self.columns[i].0.as_str(), table) && same_text(
                self.columns[i].1.as_str(),
                column,
            ) {
                proof {
                    later_columns_hide(self.columns@, i as int);
                }
                return Some(self.columns[i].2.as_str());
            }
        }
        proof {
            absent_columns(self.columns@, table@, column@);
        }
        None
    }

    /// Gives each source that has no description the one in the context file,
    /// where that has one.
    pub fn complete(&mut self, fallbacks: &Vec<(String, Option<String>)>)
        ensures
            final(self)@.tables == completed(old(self)@.tables, described(fallbacks@)),
            final(self)@.columns == old(self)@.columns,
    {
        let ghost all = described(fallbacks@);
        let ghost tables = self.tables@;
        let mut i: usize = 0;
        assert(all.take(0) =~= Seq::empty());
        while i < fallbacks.len()
            invariant
                all == described(fallbacks@),
                i <= fallbacks@.len(),
                self.tables@ == completed(tables, all.take(i as int)),
                self.columns == old(self).columns,
            decreases fallbacks@.len() - i,
        {
            proof {
                assert(all.take(i + 1).drop_last() =~= all.take(i as int));
                assert(all.take(i + 1).last() == all[i as int]);
            }
            match &fallbacks[i].1 {
                Some(description) => {
                    if !self.tables.contains_key(fallbacks[i].0.as_str()) {
                        self.tables.insert(fallbacks[i].0.clone(), description.clone());
                    }
                },
                None => {},
            }
            i += 1;
        }
        assert(all.take(i as int) =~= all);
    }
}

/// A description that a table already has is kept.
pub proof fn overlays_win(
    tables: Map<Seq<char>, Seq<char>>,
    fallbacks: Seq<(Seq<char>, Option<Seq<char>>)>,
    name: Seq<char>,
)
    requires
        tables.contains_key(name),
    ensures
        completed(tables, fallbacks).contains_key(name),
        completed(tables, fallbacks)[name] == tables[name],
    decreases fallbacks.len(),
{
    if fallbacks.len() > 0 {
        overlays_win(tables, fallbacks.drop_last(), name);
    }
}

/// A table without a description gets that of the first source with its name
/// that has one.
pub proof fn fallbacks_fill_gaps(
    tables: Map<Seq<char>, Seq<char>>,
    fallbacks: Seq<(Seq<char>, Option<Seq<char>>)>,
    i: int,
)
    requires
        0 <= i < fallbacks.len(),
        !tables.contains_key(fallbacks[i].0),
        fallbacks[i].1 is Some,
        forall|j: int|
            0 <= j < i ==> (#[trigger] fallbacks[j]).0 != fallbacks[i].0 || fallbacks[j].1 is None,
    ensures
        completed(tables, fallbacks).contains_key(fallbacks[i].0),
        completed(tables, fallbacks)[fallbacks[i].0] == fallbacks[i].1->0,
    decreases fallbacks.len(),
{
    let shorter = fallbacks.drop_last();
    if i < shorter.len() {
        assert forall|j: int| 0 <= j < i implies (#[trigger] shorter[j]).0 != shorter[i].0
            || shorter[j].1 is None by {
            assert(shorter[j] == fallbacks[j]);
        }
        fallbacks_fill_gaps(tables, shorter, i);
    } else {
        gaps_stay_open(tables, shorter, fallbacks[i].0);
        assert(fallbacks.last() == fallbacks[i]);
    }
}

proof fn gaps_stay_open(
    tables: Map<Seq<char>, Seq<char>>,
    fallbacks: Seq<(Seq<char>, Option<Seq<char>>)>,
    name: Seq<char>,
)
    requires
        !tables.contains_key(name),
        forall|j: int|
            0 <= j < fallbacks.len() ==> (#[trigger] fallbacks[j]).0 != name || fallbacks[j].1 is None,
    ensures
        !completed(tables, fallbacks).contains_key(name),
    decreases fallbacks.len(),
{
    if fallbacks.len() > 0 {
        let shorter = fallbacks.drop_last();
        assert forall|j: int| 0 <= j < shorter.len() implies (#[trigger] shorter[j]).0 != name
            || shorter[j].1 is None by {
            assert(shorter[j] == fallbacks[j]);
        }
        gaps_stay_open(tables, shorter, name);
        assert(fallbacks[fallbacks.len() - 1] == fallbacks.last());
    }
}

} // verus!
