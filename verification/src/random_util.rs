//! Deterministic synthetic column generation.
//!
//! Every generated value is a pure function of a seed, so that a run with a
//! fixed seed reproduces bit-identical table data. Each draw seeds a fresh
//! standard PRNG with a per-cell seed mixed from the column seed and the row
//! index; the raw word is then reduced into the column's value domain by
//! verified code.

use vstd::prelude::*;

use rand::RngCore;
use rand::SeedableRng;

use crate::queries::ColumnSpec;

verus! {

/// The multiplier used to mix a stream index into a seed.
pub const MIX_MULTIPLIER: u64 = 0x9E37_79B9_7F4A_7C15;

/// Seed mixing: a new seed from a parent seed and a stream index.
pub open spec fn spec_mix(a: u64, b: u64) -> u64 {
    vstd::wrapping::u64_specs::wrapping_add(
        vstd::wrapping::u64_specs::wrapping_mul(a, MIX_MULTIPLIER),
        b,
    )
}

pub fn mix(a: u64, b: u64) -> (r: u64)
    ensures
        r == spec_mix(a, b),
{
    a.wrapping_mul(MIX_MULTIPLIER).wrapping_add(b)
}

/// The word a freshly seeded standard PRNG yields first for a given seed.
pub uninterp spec fn drawn_u64(seed: u64) -> u64;

/// Relies on rand's StdRng: `seed_from_u64` is documented deterministic in
/// the seed, and the standard generator is platform-independent, so within
/// the library version built here the first `next_u64` word is a function
/// of the seed alone (rand reserves the right to change the generator
/// across its own versions).
#[verifier::external_body]
fn draw_u64(seed: u64) -> (r: u64)
    ensures
        r == drawn_u64(seed),
{
    rand::rngs::StdRng::seed_from_u64(seed).next_u64()
}

/// Relies on rand's `StdRng::from_rng` over the operating-system entropy
/// source: a generator from fresh entropy, or `None` when the source fails
/// (`from_rng` reports the failure instead of panicking). Nothing is
/// promised of the drawn word.
#[verifier::external_body]
pub(crate) fn entropy_u64() -> Option<u64> {
    match rand::rngs::StdRng::from_rng(rand::rngs::OsRng) {
        Ok(mut rng) => Some(rng.next_u64()),
        Err(_) => None,
    }
}

/// How a raw PRNG word is reduced into a column's value domain: with a bound
/// `b >= 1` the value is `raw % b`; without one it ranges over the
/// non-negative `i64` values.
pub open spec fn spec_value_in_domain(raw: u64, bound: Option<i64>) -> i64 {
    match bound {
        Option::Some(b) => (raw % (b as u64)) as i64,
        Option::None => (raw % 0x8000_0000_0000_0000u64) as i64,
    }
}

pub fn value_in_domain(raw: u64, bound: &Option<i64>) -> (r: i64)
    requires
        bound is Some ==> bound.unwrap() >= 1,
    ensures
        r == spec_value_in_domain(raw, *bound),
        0 <= r,
        bound is Some ==> r < bound.unwrap(),
{
    match bound {
        Option::Some(b) => (raw % (*b as u64)) as i64,
        Option::None => (raw % 0x8000_0000_0000_0000u64) as i64,
    }
}

/// The value generated at one row of one column.
pub open spec fn spec_generated_value(col_seed: u64, row: u64, bound: Option<i64>) -> i64 {
    spec_value_in_domain(drawn_u64(spec_mix(col_seed, row)), bound)
}

/// The whole generated column, as a function of its seed, bound and length.
pub open spec fn spec_generated_values(col_seed: u64, bound: Option<i64>, rows: nat) -> Seq<i64> {
    Seq::new(rows, |i: int| spec_generated_value(col_seed, i as u64, bound))
}

/// One generated column: its name and its values.
#[derive(Debug, Clone)]
pub struct GeneratedColumn {
    pub name: String,
    pub values: Vec<i64>,
}

/// Generate one column of `rows` values from `col_seed`, honoring `bound`.
pub fn generate_column_values(col_seed: u64, bound: &Option<i64>, rows: usize) -> (r: Vec<i64>)
    requires
        bound is Some ==> bound.unwrap() >= 1,
    ensures
        r@ == spec_generated_values(col_seed, *bound, rows as nat),
{
    let mut values: Vec<i64> = Vec::new();
    let mut i: usize = 0;
    while i < rows
        invariant
            i <= rows,
            bound is Some ==> bound.unwrap() >= 1,
            values@ =~= spec_generated_values(col_seed, *bound, i as nat),
        decreases rows - i,
    {
        let cell_seed = mix(col_seed, i as u64);
        let raw = draw_u64(cell_seed);
        values.push(value_in_domain(raw, bound));
        i = i + 1;
        proof {
            assert(values@ =~= spec_generated_values(col_seed, *bound, i as nat));
        }
    }
    proof {
        assert(values@ =~= spec_generated_values(col_seed, *bound, rows as nat));
    }
    values
}

/// The view of a whole generated column set: one entry per column spec, each
/// column's values drawn from a seed mixed from the table seed and the
/// column's position.
pub open spec fn spec_generated_columns(
    table_seed: u64,
    specs: Seq<ColumnSpec>,
    rows: nat,
) -> Seq<(Seq<char>, Seq<i64>)> {
    Seq::new(
        specs.len(),
        |j: int|
            (
                specs[j].name@,
                spec_generated_values(spec_mix(table_seed, j as u64), specs[j].bound, rows),
            ),
    )
}

/// The view of an exec column list, for stating contracts about it.
pub open spec fn columns_view(cols: Seq<GeneratedColumn>) -> Seq<(Seq<char>, Seq<i64>)> {
    Seq::new(cols.len(), |j: int| (cols[j].name@, cols[j].values@))
}

/// Generate one column per spec, `rows` values each, from `table_seed`.
/// The result is a pure function of `(table_seed, specs, rows)`: identical
/// inputs reproduce bit-identical columns.
pub fn generate_random_columns(
    table_seed: u64,
    specs: &Vec<ColumnSpec>,
    rows: usize,
) -> (r: Vec<GeneratedColumn>)
    requires
        forall|j: int| 0 <= j < specs@.len() ==> (#[trigger] specs@[j]).wf(),
    ensures
        columns_view(r@) == spec_generated_columns(table_seed, specs@, rows as nat),
        r@.len() == specs@.len(),
{
    let mut cols: Vec<GeneratedColumn> = Vec::new();
    let mut j: usize = 0;
    while j < specs.len()
        invariant
            j <= specs@.len(),
            cols@.len() == j,
            forall|k: int| 0 <= k < specs@.len() ==> (#[trigger] specs@[k]).wf(),
            columns_view(cols@) =~= spec_generated_columns(table_seed, specs@, rows as nat)
                .take(j as int),
        decreases specs@.len() - j,
    {
        let spec_j = &specs[j];
        let col_seed = mix(table_seed, j as u64);
        let values = generate_column_values(col_seed, &spec_j.bound, rows);
        cols.push(GeneratedColumn { name: spec_j.name.clone(), values });
        j = j + 1;
        proof {
            assert(columns_view(cols@) =~= spec_generated_columns(
                table_seed,
                specs@,
                rows as nat,
            ).take(j as int));
        }
    }
    proof {
        assert(spec_generated_columns(table_seed, specs@, rows as nat).take(
            specs@.len() as int,
        ) =~= spec_generated_columns(table_seed, specs@, rows as nat));
        assert(columns_view(cols@) =~= spec_generated_columns(table_seed, specs@, rows as nat));
    }
    cols
}

/// Determinism law: the generated column set is a function of the seed, the
/// specs and the row count alone, so two generations from equal inputs are
/// equal.
pub proof fn lemma_generation_deterministic(
    a: Seq<(Seq<char>, Seq<i64>)>,
    b: Seq<(Seq<char>, Seq<i64>)>,
    table_seed: u64,
    specs: Seq<ColumnSpec>,
    rows: nat,
)
    requires
        a == spec_generated_columns(table_seed, specs, rows),
        b == spec_generated_columns(table_seed, specs, rows),
    ensures
        a == b,
{
}

} // verus!
