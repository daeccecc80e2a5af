//! Query entries and table shapes that a benchmark run is driven by.

use vstd::prelude::*;

verus! {

/// How a single synthetic column is generated: its name and an optional
/// exclusive upper bound on the generated values. A bound must be positive;
/// without one, values range over the non-negative `i64` values.
#[derive(Debug, Clone)]
pub struct ColumnSpec {
    pub name: String,
    pub bound: Option<i64>,
}

impl ColumnSpec {
    /// A bound, where present, must admit at least one value.
    pub open spec fn wf(self) -> bool {
        self.bound is Some ==> self.bound.unwrap() >= 1
    }
}

/// One synthetic input table: its unqualified name and the columns to generate.
#[derive(Debug, Clone)]
pub struct TableDefinition {
    pub name: String,
    pub columns: Vec<ColumnSpec>,
}

impl TableDefinition {
    pub open spec fn wf(self) -> bool {
        forall|i: int| 0 <= i < self.columns@.len() ==> (#[trigger] self.columns@[i]).wf()
    }
}

/// One benchmark query: a display name, the SQL text to plan, and the input
/// tables that are generated before the query is planned and proved.
#[derive(Debug, Clone)]
pub struct QueryEntry {
    pub name: String,
    pub sql: String,
    pub tables: Vec<TableDefinition>,
}

impl QueryEntry {
    pub open spec fn wf(self) -> bool {
        forall|i: int| 0 <= i < self.tables@.len() ==> (#[trigger] self.tables@[i]).wf()
    }
}

} // verus!
