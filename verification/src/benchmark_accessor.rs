//! The mutable table registry of one benchmark run.
//!
//! It maps a table reference to the table's generated columns and the
//! commitment computed for them. Inserting under a reference that is already
//! present overwrites the entry; references are never cleared within a run,
//! so two query entries naming the same table share its data (a deliberate
//! shared-namespace design).

use vstd::prelude::*;

use crate::random_util::{columns_view, GeneratedColumn};

verus! {

/// One registered table: its reference, columns and commitment.
pub struct TableEntry<C> {
    pub table_ref: String,
    pub columns: Vec<GeneratedColumn>,
    pub commitment: C,
}

/// The mathematical content of an entry sequence: a map from table reference
/// to the column views and the commitment.
pub open spec fn entries_as_map<C>(s: Seq<TableEntry<C>>) -> Map<
    Seq<char>,
    (Seq<(Seq<char>, Seq<i64>)>, C),
>
    decreases s.len(),
{
    if s.len() == 0 {
        Map::empty()
    } else {
        entries_as_map(s.drop_last()).insert(
            s.last().table_ref@,
            (columns_view(s.last().columns@), s.last().commitment),
        )
    }
}

/// No two entries share a table reference.
pub open spec fn entries_unique<C>(s: Seq<TableEntry<C>>) -> bool {
    forall|i: int, j: int|
        0 <= i < j < s.len() ==> (#[trigger] s[i]).table_ref@ != (#[trigger] s[j]).table_ref@
}

proof fn lemma_as_map_index<C>(s: Seq<TableEntry<C>>, i: int)
    requires
        entries_unique(s),
        0 <= i < s.len(),
    ensures
        entries_as_map(s).dom().contains(s[i].table_ref@),
        entries_as_map(s)[s[i].table_ref@] == (columns_view(s[i].columns@), s[i].commitment),
    decreases s.len(),
{
    if i < s.len() - 1 {
        lemma_as_map_index(s.drop_last(), i);
    }
}

proof fn lemma_as_map_absent<C>(s: Seq<TableEntry<C>>, key: Seq<char>)
    requires
        forall|i: int| 0 <= i < s.len() ==> (#[trigger] s[i]).table_ref@ != key,
    ensures
        !entries_as_map(s).dom().contains(key),
    decreases s.len(),
{
    if s.len() > 0 {
        lemma_as_map_absent(s.drop_last(), key);
    }
}

proof fn lemma_as_map_update<C>(s: Seq<TableEntry<C>>, i: int, e: TableEntry<C>)
    requires
        entries_unique(s),
        0 <= i < s.len(),
        e.table_ref@ == s[i].table_ref@,
    ensures
        entries_as_map(s.update(i, e)) =~= entries_as_map(s).insert(
            e.table_ref@,
            (columns_view(e.columns@), e.commitment),
        ),
    decreases s.len(),
{
    if i == s.len() - 1 {
        assert(s.update(i, e).drop_last() =~= s.drop_last());
    } else {
        lemma_as_map_update(s.drop_last(), i, e);
        assert(s.update(i, e).drop_last() =~= s.drop_last().update(i, e));
        assert(s.update(i, e).last() == s.last());
    }
}

/// The registry. Its view is a map from table reference to column views and
/// commitment.
pub struct BenchmarkAccessor<C> {
    entries: Vec<TableEntry<C>>,
}

impl<C> BenchmarkAccessor<C> {
    /// The registry's internal shape: entry references are unique, so the
    /// entry sequence faithfully represents a map.
    pub closed spec fn wf(self) -> bool {
        entries_unique(self.entries@)
    }

    pub closed spec fn view(self) -> Map<Seq<char>, (Seq<(Seq<char>, Seq<i64>)>, C)> {
        entries_as_map(self.entries@)
    }

    /// An empty registry.
    pub fn new() -> (r: Self)
        ensures
            r.wf(),
            r@ == Map::<Seq<char>, (Seq<(Seq<char>, Seq<i64>)>, C)>::empty(),
    {
        BenchmarkAccessor { entries: Vec::new() }
    }

    /// The position of `table_ref` among the entries, if present.
    fn position_of(&self, table_ref: &String) -> (r: Option<usize>)
        ensures
            match r {
                Some(i) => i < self.entries@.len() && self.entries@[i as int].table_ref@
                    == table_ref@,
                None => forall|i: int|
                    0 <= i < self.entries@.len() ==> (#[trigger] self.entries@[i]).table_ref@
                        != table_ref@,
            },
    {
        let mut i: usize = 0;
        while i < self.entries.len()
            invariant
                i <= self.entries@.len(),
                forall|k: int|
                    0 <= k < i ==> (#[trigger] self.entries@[k]).table_ref@ != table_ref@,
            decreases self.entries@.len() - i,
        {
            if self.entries[i].table_ref == *table_ref {
                return Some(i);
            }
            i = i + 1;
        }
        None
    }

    /// Register `columns` with their `commitment` under `table_ref`,
    /// overwriting any entry already registered under that reference.
    pub fn insert_table(&mut self, table_ref: String, columns: Vec<GeneratedColumn>, commitment: C)
        requires
            old(self).wf(),
        ensures
            final(self).wf(),
            final(self)@ == old(self)@.insert(table_ref@, (columns_view(columns@), commitment)),
    {
        let ghost old_entries = self.entries@;
        match self.position_of(&table_ref) {
            Some(i) => {
                let e = TableEntry { table_ref, columns, commitment };
                proof {
                    lemma_as_map_update(old_entries, i as int, e);
                }
                self.entries[i] = e;
                proof {
                    assert(entries_unique(self.entries@));
                }
            },
            None => {
                let e = TableEntry { table_ref, columns, commitment };
                self.entries.push(e);
                proof {
                    assert(self.entries@.drop_last() =~= old_entries);
                    assert(entries_unique(self.entries@));
                }
            },
        }
    }

    /// The columns registered under `table_ref`, if any.
    pub fn table_columns(&self, table_ref: &String) -> (r: Option<&Vec<GeneratedColumn>>)
        requires
            self.wf(),
        ensures
            match r {
                Some(cols) => self@.dom().contains(table_ref@) && columns_view(cols@)
                    == self@[table_ref@].0,
                None => !self@.dom().contains(table_ref@),
            },
    {
        match self.position_of(table_ref) {
            Some(i) => {
                proof {
                    lemma_as_map_index(self.entries@, i as int);
                }
                Some(&self.entries[i].columns)
            },
            None => {
                proof {
                    lemma_as_map_absent(self.entries@, table_ref@);
                }
                None
            },
        }
    }

    /// The commitment registered under `table_ref`, if any.
    pub fn table_commitment(&self, table_ref: &String) -> (r: Option<&C>)
        requires
            self.wf(),
        ensures
            match r {
                Some(c) => self@.dom().contains(table_ref@) && *c == self@[table_ref@].1,
                None => !self@.dom().contains(table_ref@),
            },
    {
        match self.position_of(table_ref) {
            Some(i) => {
                proof {
                    lemma_as_map_index(self.entries@, i as int);
                }
                Some(&self.entries[i].commitment)
            },
            None => {
                proof {
                    lemma_as_map_absent(self.entries@, table_ref@);
                }
                None
            },
        }
    }
}

} // verus!
