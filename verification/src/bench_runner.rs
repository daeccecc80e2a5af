//! Options, per-iteration records, errors, and the per-query sizing and
//! deterministic table-generation steps of a benchmark run.

use vstd::prelude::*;

use crate::queries::QueryEntry;

verus! {

/// Caller-supplied options, immutable for the duration of one run.
///
/// `rand_seed == None` asks for a non-reproducible, entropy-seeded source;
/// `Some(seed)` makes the generated table data a function of the seed.
/// `parquet_dir` is the directory under which generated tables are persisted,
/// or `None` to skip persistence.
#[derive(Debug, Clone)]
pub struct BenchOptions {
    pub iterations: usize,
    pub table_size: usize,
    pub rand_seed: Option<u64>,
    pub parquet_dir: Option<String>,
}

impl BenchOptions {
    /// A run makes sense only with at least one iteration over at least one row.
    pub open spec fn wf(self) -> bool {
        &&& self.iterations >= 1
        &&& self.table_size >= 1
    }
}

/// One timed prove/verify round: which query and iteration it belongs to,
/// the two latencies, and the row count of the query's result.
#[derive(Debug, Clone)]
pub struct BenchResult {
    pub commitment_scheme: &'static str,
    pub query: String,
    pub table_size: usize,
    pub iteration: usize,
    pub generate_proof_ms: u128,
    pub verify_proof_ms: u128,
    pub num_query_results: usize,
}

/// Everything a completed run returns: the per-iteration records in the order
/// they were produced, and the paths of every persisted table file.
#[derive(Debug, Clone)]
pub struct BenchRunOutput {
    pub results: Vec<BenchResult>,
    pub parquet_paths: Vec<String>,
}

/// The failure of a run, tagged by the phase that failed. Each variant carries
/// the underlying collaborator's message. A run is all-or-nothing: on any
/// error the whole run aborts and only the error is returned.
#[derive(Debug, Clone)]
pub enum BenchRunError {
    Io(String),
    SqlParse(String),
    Planning(String),
    Proof(String),
    Verify(String),
    Setup(String),
    Parquet(String),
}

/// Whether a query feeds two input tables, so that each is generated at half
/// the requested size.
pub open spec fn spec_two_table_query(query: Seq<char>) -> bool {
    query == "Join"@ || query == "Union All"@
}

/// Effective per-table row count for a query: half the requested size,
/// rounded up, for a two-input-table query, and the full size otherwise.
pub open spec fn spec_table_size_for_query(table_size: usize, query: Seq<char>) -> int {
    if spec_two_table_query(query) {
        (table_size + 1) / 2
    } else {
        table_size as int
    }
}

/// Effective per-table row count for a query. Two-input-table queries
/// (joins and unions) halve the requested size, rounding up, so that the
/// combined input cardinality matches the size used for single-table queries.
pub fn table_size_for_query(table_size: usize, query: &str) -> (r: usize)
    ensures
        r == spec_table_size_for_query(table_size, query@),
        spec_two_table_query(query@) ==> r == (table_size + 1) / 2,
        !spec_two_table_query(query@) ==> r == table_size,
{
    if query.to_owned() == "Join".to_owned() || query.to_owned() == "Union All".to_owned() {
        table_size / 2 + table_size % 2
    } else {
        table_size
    }
}

/// The seed a run draws its table data from: the configured seed when one is
/// given (making the run reproducible), a fresh entropy word otherwise. An
/// unavailable entropy source is reported as an I/O failure, never a panic.
pub fn run_seed(options: &BenchOptions) -> (r: Result<u64, BenchRunError>)
    ensures
        options.rand_seed is Some ==> (r matches Ok(s) && s == options.rand_seed.unwrap()),
        r matches Err(e) ==> e is Io && options.rand_seed is None,
{
    match options.rand_seed {
        Some(seed) => Ok(seed),
        None => match crate::random_util::entropy_u64() {
            Some(word) => Ok(word),
            None => Err(BenchRunError::Io("the entropy source is unavailable".to_owned())),
        },
    }
}

/// The seed one table's columns are generated from: the run seed mixed with
/// the query's and the table's position.
pub open spec fn spec_table_seed(run_seed: u64, query_index: u64, table_index: u64) -> u64 {
    crate::random_util::spec_mix(crate::random_util::spec_mix(run_seed, query_index), table_index)
}

/// Generate every table of one query entry: one `(table name, columns)` pair
/// per table definition, in definition order, each generated at the query's
/// effective row count from a seed fixed by `(run_seed, query_index, table
/// position)`. With a fixed run seed the result is a pure function of its
/// arguments — the determinism the benchmark's repeatability rests on.
pub fn generate_query_tables(
    entry: &QueryEntry,
    table_size: usize,
    run_seed: u64,
    query_index: u64,
) -> (r: Vec<(String, Vec<crate::random_util::GeneratedColumn>)>)
    requires
        entry.wf(),
    ensures
        r@.len() == entry.tables@.len(),
        forall|t: int|
            0 <= t < r@.len() ==> {
                &&& (#[trigger] r@[t]).0@ == entry.tables@[t].name@
                &&& crate::random_util::columns_view(r@[t].1@)
                    == crate::random_util::spec_generated_columns(
                    spec_table_seed(run_seed, query_index, t as u64),
                    entry.tables@[t].columns@,
                    spec_table_size_for_query(table_size, entry.name@) as nat,
                )
            },
{
    let rows = table_size_for_query(table_size, entry.name.as_str());
    let qseed = crate::random_util::mix(run_seed, query_index);
    let mut out: Vec<(String, Vec<crate::random_util::GeneratedColumn>)> = Vec::new();
    let mut t: usize = 0;
    while t < entry.tables.len()
        invariant
            entry.wf(),
            t <= entry.tables@.len(),
            out@.len() == t,
            rows == spec_table_size_for_query(table_size, entry.name@),
            qseed == crate::random_util::spec_mix(run_seed, query_index),
            forall|i: int|
                0 <= i < t ==> {
                    &&& (#[trigger] out@[i]).0@ == entry.tables@[i].name@
                    &&& crate::random_util::columns_view(out@[i].1@)
                        == crate::random_util::spec_generated_columns(
                        spec_table_seed(run_seed, query_index, i as u64),
                        entry.tables@[i].columns@,
                        spec_table_size_for_query(table_size, entry.name@) as nat,
                    )
                },
        decreases entry.tables@.len() - t,
    {
        let def = &entry.tables[t];
        let tseed = crate::random_util::mix(qseed, t as u64);
        let cols = crate::random_util::generate_random_columns(tseed, &def.columns, rows);
        out.push((def.name.clone(), cols));
        t = t + 1;
    }
    out
}

} // verus!
