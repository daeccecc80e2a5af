//! Planning of the columnar persistence step.
//!
//! Output paths are a pure function of the persist directory, the query name
//! and the table name, so persisting the same table for the same query twice
//! targets the same file. The planner decides which files must be written:
//! a file that already exists is reused, never rewritten or re-encoded. The
//! actual file encoding and I/O are left to the caller.

use vstd::prelude::*;
use vstd::string::StrSliceExecFns;

use crate::bench_runner::BenchRunError;
use crate::benchmark_accessor::BenchmarkAccessor;
use crate::queries::TableDefinition;

verus! {

/// Characters kept by the sanitizer: ASCII alphanumerics, '_' and '-'.
pub open spec fn spec_keep_char(c: char) -> bool {
    ||| 97 <= (c as u32) <= 122
    ||| 65 <= (c as u32) <= 90
    ||| 48 <= (c as u32) <= 57
    ||| (c as u32) == 95
    ||| (c as u32) == 45
}

pub open spec fn spec_sanitize_char(c: char) -> char {
    if spec_keep_char(c) {
        c
    } else {
        '_'
    }
}

/// A sanitized path component: every character outside the kept set becomes
/// '_'; an empty input falls back to "table".
pub open spec fn spec_component(s: Seq<char>) -> Seq<char> {
    if s.len() == 0 {
        "table"@
    } else {
        s.map_values(|c: char| spec_sanitize_char(c))
    }
}

/// Relies on std's String::push: appends the given character.
#[verifier::external_body]
fn push_char(s: &mut String, c: char)
    ensures
        final(s)@ == old(s)@.push(c),
{
    s.push(c);
}

/// Relies on std's String::push_str: appends the given string slice.
#[verifier::external_body]
fn push_str(s: &mut String, suffix: &str)
    ensures
        final(s)@ == old(s)@ + suffix@,
{
    s.push_str(suffix);
}

/// Make `input` safe as a single path component: ASCII alphanumerics are
/// kept, and so — deliberately — are '_' and '-', both already path-safe,
/// so that established file names keep their hyphens; every other character
/// becomes '_', and an empty input becomes "table".
pub fn sanitize_component(input: &str) -> (r: String)
    ensures
        r@ == spec_component(input@),
{
    let n = input.unicode_len();
    if n == 0 {
        return "table".to_owned();
    }
    let mut out = String::new();
    let mut i: usize = 0;
    while i < n
        invariant
            n == input@.len(),
            i <= n,
            out@ =~= input@.take(i as int).map_values(|c: char| spec_sanitize_char(c)),
        decreases n - i,
    {
        let c = input.get_char(i);
        let u = c as u32;
        let kept = (97 <= u && u <= 122) || (65 <= u && u <= 90) || (48 <= u && u <= 57) || u == 95
            || u == 45;
        if kept {
            push_char(&mut out, c);
        } else {
            push_char(&mut out, '_');
        }
        i = i + 1;
        proof {
            assert(out@ =~= input@.take(i as int).map_values(|c: char| spec_sanitize_char(c)));
        }
    }
    proof {
        assert(input@.take(n as int) =~= input@);
    }
    out
}

/// The file name a table is persisted under: its sanitized reference plus
/// the columnar file extension.
pub open spec fn spec_table_filename(table_ref: Seq<char>) -> Seq<char> {
    spec_component(table_ref) + ".parquet"@
}

pub fn table_ref_filename(table_ref: &String) -> (r: String)
    ensures
        r@ == spec_table_filename(table_ref@),
{
    let mut out = sanitize_component(table_ref.as_str());
    push_str(&mut out, ".parquet");
    out
}

/// The full output path of one table of one query:
/// `<output_dir>/<sanitized query>/<sanitized table>.parquet`.
pub open spec fn spec_parquet_path(
    output_dir: Seq<char>,
    query: Seq<char>,
    table_ref: Seq<char>,
) -> Seq<char> {
    output_dir + "/"@ + spec_component(query) + "/"@ + spec_table_filename(table_ref)
}

pub fn parquet_file_path(output_dir: &String, query: &String, table_ref: &String) -> (r: String)
    ensures
        r@ == spec_parquet_path(output_dir@, query@, table_ref@),
{
    let mut out = output_dir.clone();
    push_str(&mut out, "/");
    let q = sanitize_component(query.as_str());
    push_str(&mut out, q.as_str());
    push_str(&mut out, "/");
    let f = table_ref_filename(table_ref);
    push_str(&mut out, f.as_str());
    proof {
        assert(out@ =~= spec_parquet_path(output_dir@, query@, table_ref@));
    }
    out
}

/// The persistence plan of one query: every table's target path in table
/// order, and, for each table whose file does not exist yet, the index of
/// the table whose columns must be encoded and written to that path.
pub struct ExportPlan {
    pub outputs: Vec<String>,
    pub writes: Vec<usize>,
}

/// Decide the persistence step for `tables` of query `query_name`.
/// `existing[i]` says whether the target file of table `i` already exists;
/// such a table is reused without being re-encoded or rewritten. A table
/// whose file must be written but whose columns are not in the accessor is
/// an error (unreachable when tables are always built first).
pub fn plan_table_exports<C>(
    accessor: &BenchmarkAccessor<C>,
    tables: &Vec<TableDefinition>,
    output_dir: &String,
    query_name: &String,
    existing: &Vec<bool>,
) -> (r: Result<ExportPlan, BenchRunError>)
    requires
        accessor.wf(),
        existing@.len() == tables@.len(),
    ensures
        match r {
            Ok(plan) => {
                &&& plan.outputs@.len() == tables@.len()
                &&& forall|i: int|
                    0 <= i < tables@.len() ==> (#[trigger] plan.outputs@[i])@ == spec_parquet_path(
                        output_dir@,
                        query_name@,
                        tables@[i].name@,
                    )
                &&& forall|k: int|
                    0 <= k < plan.writes@.len() ==> {
                        &&& (#[trigger] plan.writes@[k]) < tables@.len()
                        &&& !existing@[plan.writes@[k] as int]
                        &&& accessor@.dom().contains(tables@[plan.writes@[k] as int].name@)
                    }
                &&& forall|i: int|
                    0 <= i < tables@.len() && !existing@[i] ==> plan.writes@.contains(i as usize)
                &&& forall|i: int|
                    0 <= i < tables@.len() && existing@[i] ==> !plan.writes@.contains(i as usize)
                &&& forall|k1: int, k2: int|
                    0 <= k1 < k2 < plan.writes@.len() ==> #[trigger] plan.writes@[k1]
                        < #[trigger] plan.writes@[k2]
            },
            Err(e) => {
                &&& e matches BenchRunError::Parquet(m) && exists|i: int|
                    {
                        &&& 0 <= i < tables@.len()
                        &&& !existing@[i]
                        &&& !accessor@.dom().contains(#[trigger] tables@[i].name@)
                        &&& m@ == "missing table: "@ + tables@[i].name@
                        &&& forall|j: int|
                            0 <= j < i ==> existing@[j] || accessor@.dom().contains(
                                #[trigger] tables@[j].name@,
                            )
                    }
            },
        },
{
    let mut outputs: Vec<String> = Vec::new();
    let mut writes: Vec<usize> = Vec::new();
    let mut i: usize = 0;
    while i < tables.len()
        invariant
            accessor.wf(),
            existing@.len() == tables@.len(),
            i <= tables@.len(),
            outputs@.len() == i,
            forall|j: int|
                0 <= j < i ==> (#[trigger] outputs@[j])@ == spec_parquet_path(
                    output_dir@,
                    query_name@,
                    tables@[j].name@,
                ),
            forall|k: int|
                0 <= k < writes@.len() ==> {
                    &&& (#[trigger] writes@[k]) < i
                    &&& !existing@[writes@[k] as int]
                    &&& accessor@.dom().contains(tables@[writes@[k] as int].name@)
                },
            forall|j: int| 0 <= j < i && !existing@[j] ==> writes@.contains(j as usize),
            forall|j: int| 0 <= j < i && existing@[j] ==> !writes@.contains(j as usize),
            forall|k1: int, k2: int|
                0 <= k1 < k2 < writes@.len() ==> #[trigger] writes@[k1] < #[trigger] writes@[k2],
            forall|j: int|
                0 <= j < i ==> existing@[j] || accessor@.dom().contains(
                    #[trigger] tables@[j].name@,
                ),
        decreases tables@.len() - i,
    {
        let ghost old_writes = writes@;
        let path = parquet_file_path(output_dir, query_name, &tables[i].name);
        if !existing[i] {
            match accessor.table_columns(&tables[i].name) {
                Some(_) => {
                    writes.push(i);
                },
                None => {
                    let mut msg = "missing table: ".to_owned();
                    push_str(&mut msg, tables[i].name.as_str());
                    proof {
                        assert(0 <= i < tables@.len() && !existing@[i as int]
                            && !accessor@.dom().contains(tables@[i as int].name@)
                            && msg@ == "missing table: "@ + tables@[i as int].name@
                            && forall|j: int|
                            0 <= j < i ==> existing@[j] || accessor@.dom().contains(
                                #[trigger] tables@[j].name@,
                            ));
                    }
                    return Err(BenchRunError::Parquet(msg));
                },
            }
        }
        outputs.push(path);
        i = i + 1;
        proof {
            assert forall|j: int| 0 <= j < i && !existing@[j] implies writes@.contains(
                j as usize,
            ) by {
                if j < i - 1 {
                    let k = choose|k: int|
                        0 <= k < old_writes.len() && old_writes[k] == j as usize;
                    assert(writes@[k] == j as usize);
                } else {
                    assert(writes@[writes@.len() - 1] == j as usize);
                }
            }
            assert forall|j: int| 0 <= j < i && existing@[j] implies !writes@.contains(
                j as usize,
            ) by {
                if writes@.contains(j as usize) {
                    let k = choose|k: int| 0 <= k < writes@.len() && writes@[k] == j as usize;
                    if k < old_writes.len() {
                        assert(old_writes[k] == j as usize);
                        assert(old_writes.contains(j as usize));
                    } else {
                        assert(writes@[k] == (i - 1) as usize);
                        assert(!existing@[i - 1]);
                    }
                }
            }
        }
    }
    Ok(ExportPlan { outputs, writes })
}

/// Idempotent persistence law: target paths are a pure function of the
/// persist directory, the query name and the table name, so a second persist
/// step targets exactly the paths of the first; and a table whose file
/// already exists is never among the files to write.
pub proof fn lemma_export_paths_deterministic(
    first: Seq<char>,
    second: Seq<char>,
    output_dir: Seq<char>,
    query: Seq<char>,
    table_ref: Seq<char>,
)
    requires
        first == spec_parquet_path(output_dir, query, table_ref),
        second == spec_parquet_path(output_dir, query, table_ref),
    ensures
        first == second,
{
}

} // verus!
