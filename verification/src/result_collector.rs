//! Accumulation of per-iteration records and persisted paths.
//!
//! The collector is purely additive: records and paths are appended in the
//! order they are produced and never reordered or deduplicated. The
//! per-query schedule walks the plans of one query plan-major and
//! iteration-minor, stamping each appended record with the query's name, the
//! requested table size and the iteration index, so the order of the final
//! result sequence is `(query entry order, plan order, iteration order)` by
//! construction.

use vstd::prelude::*;

use crate::bench_runner::{BenchResult, BenchRunOutput};

verus! {

/// The run-wide, append-only store of records and persisted paths.
pub struct ResultCollector {
    pub results: Vec<BenchResult>,
    pub parquet_paths: Vec<String>,
}

impl ResultCollector {
    pub fn new() -> (r: Self)
        ensures
            r.results@ =~= Seq::<BenchResult>::empty(),
            r.parquet_paths@ =~= Seq::<String>::empty(),
    {
        ResultCollector { results: Vec::new(), parquet_paths: Vec::new() }
    }

    /// Append one persisted file path, keeping everything else.
    pub fn record_path(&mut self, path: String)
        ensures
            final(self).parquet_paths@ == old(self).parquet_paths@.push(path),
            final(self).results@ == old(self).results@,
    {
        self.parquet_paths.push(path);
    }

    /// Everything collected, in production order.
    pub fn into_output(self) -> (r: BenchRunOutput)
        ensures
            r.results@ == self.results@,
            r.parquet_paths@ == self.parquet_paths@,
    {
        BenchRunOutput { results: self.results, parquet_paths: self.parquet_paths }
    }
}

/// What must hold of the record at offset `k` of one query's block: it names
/// the query, carries the scheme and requested table size unchanged, and its
/// iteration index is `k` reduced modulo the iteration count.
pub open spec fn block_entry_ok(
    r: BenchResult,
    query_name: Seq<char>,
    scheme: Seq<char>,
    table_size: usize,
    iterations: usize,
    k: int,
) -> bool {
    &&& r.query@ == query_name
    &&& r.commitment_scheme@ == scheme
    &&& r.table_size == table_size
    &&& r.iteration == k % (iterations as int)
}

/// The walk over one query's `(plan, iteration)` pairs, plan-major. Each
/// recorded iteration appends exactly one record to the collector.
pub struct QuerySchedule {
    pub query_name: String,
    pub commitment_scheme: &'static str,
    pub table_size: usize,
    pub iterations: usize,
    pub num_plans: usize,
    pub next_plan: usize,
    pub next_iter: usize,
    pub base: Ghost<int>,
}

impl QuerySchedule {
    /// The schedule's internal shape.
    pub open spec fn wf(self) -> bool {
        &&& self.iterations >= 1
        &&& self.next_iter < self.iterations
        &&& self.next_plan <= self.num_plans
        &&& self.next_plan == self.num_plans ==> self.next_iter == 0
        &&& self.base@ >= 0
    }

    /// How many records of this query's block have been recorded.
    pub open spec fn done_count(self) -> int {
        self.next_plan * self.iterations + self.next_iter
    }

    /// The whole block this schedule will produce when complete.
    pub open spec fn total_count(self) -> int {
        self.num_plans * self.iterations
    }

    pub open spec fn done(self) -> bool {
        self.next_plan == self.num_plans
    }

    /// The schedule and the collector agree: everything recorded so far sits
    /// as one contiguous block at the end of the collector, well-stamped.
    pub open spec fn in_sync(self, rec: ResultCollector) -> bool {
        &&& rec.results@.len() == self.base@ + self.done_count()
        &&& forall|k: int|
            0 <= k < self.done_count() ==> block_entry_ok(
                #[trigger] rec.results@[self.base@ + k],
                self.query_name@,
                self.commitment_scheme@,
                self.table_size,
                self.iterations,
                k,
            )
    }

    /// Start the walk of one query's plans against the collector's current
    /// end.
    pub fn begin(
        query_name: String,
        commitment_scheme: &'static str,
        table_size: usize,
        iterations: usize,
        num_plans: usize,
        rec: &ResultCollector,
    ) -> (r: Self)
        requires
            iterations >= 1,
        ensures
            r.wf(),
            r.in_sync(*rec),
            r.done_count() == 0,
            r.query_name == query_name,
            r.commitment_scheme == commitment_scheme,
            r.table_size == table_size,
            r.iterations == iterations,
            r.num_plans == num_plans,
            r.done() <==> num_plans == 0,
            r.base@ == rec.results@.len(),
    {
        QuerySchedule {
            query_name,
            commitment_scheme,
            table_size,
            iterations,
            num_plans,
            next_plan: 0,
            next_iter: 0,
            base: Ghost(rec.results@.len() as int),
        }
    }

    /// Record the timings and result row count of the next `(plan,
    /// iteration)` pair. Exactly one record is appended; its stamped
    /// iteration index is the iteration position within the current plan.
    pub fn record_iteration(
        &mut self,
        rec: &mut ResultCollector,
        generate_proof_ms: u128,
        verify_proof_ms: u128,
        num_query_results: usize,
    )
        requires
            old(self).wf(),
            old(self).in_sync(*old(rec)),
            !old(self).done(),
        ensures
            final(self).wf(),
            final(self).in_sync(*final(rec)),
            final(self).done_count() == old(self).done_count() + 1,
            final(self).query_name == old(self).query_name,
            final(self).commitment_scheme == old(self).commitment_scheme,
            final(self).table_size == old(self).table_size,
            final(self).iterations == old(self).iterations,
            final(self).num_plans == old(self).num_plans,
            final(self).base == old(self).base,
            final(rec).parquet_paths@ == old(rec).parquet_paths@,
            final(rec).results@.len() == old(rec).results@.len() + 1,
            final(rec).results@ == old(rec).results@.push(
                BenchResult {
                    commitment_scheme: old(self).commitment_scheme,
                    query: old(self).query_name,
                    table_size: old(self).table_size,
                    iteration: old(self).next_iter,
                    generate_proof_ms,
                    verify_proof_ms,
                    num_query_results,
                },
            ),
    {
        proof {
            assert(self.next_plan < self.num_plans);
            assert(self.done_count() < self.total_count()) by (nonlinear_arith)
                requires
                    self.next_plan < self.num_plans,
                    self.next_iter < self.iterations,
                    self.done_count() == self.next_plan * self.iterations + self.next_iter,
                    self.total_count() == self.num_plans * self.iterations,
            ;
        }
        let record = BenchResult {
            commitment_scheme: self.commitment_scheme,
            query: self.query_name.clone(),
            table_size: self.table_size,
            iteration: self.next_iter,
            generate_proof_ms,
            verify_proof_ms,
            num_query_results,
        };
        let ghost old_done: int = self.done_count();
        rec.results.push(record);
        proof {
            assert((self.next_plan * self.iterations + self.next_iter) % (self.iterations as int)
                == self.next_iter) by (nonlinear_arith)
                requires
                    0 <= self.next_iter < self.iterations,
                    self.next_plan >= 0,
            ;
            assert(record.query@ == self.query_name@);
        }
        if self.next_iter + 1 < self.iterations {
            self.next_iter = self.next_iter + 1;
            proof {
                assert(self.done_count() == old_done + 1);
            }
        } else {
            self.next_iter = 0;
            self.next_plan = self.next_plan + 1;
            proof {
                assert((self.next_plan) * self.iterations == (self.next_plan - 1) * self.iterations
                    + self.iterations) by (nonlinear_arith);
                assert(self.done_count() == old_done + 1);
            }
        }
        proof {
            assert forall|k: int| 0 <= k < self.done_count() implies block_entry_ok(
                #[trigger] rec.results@[self.base@ + k],
                self.query_name@,
                self.commitment_scheme@,
                self.table_size,
                self.iterations,
                k,
            ) by {
                if k < old_done {
                    assert(block_entry_ok(
                        rec.results@[self.base@ + k],
                        self.query_name@,
                        self.commitment_scheme@,
                        self.table_size,
                        self.iterations,
                        k,
                    ));
                }
            }
        }
    }
}

/// Result ordering law: when a schedule and a collector are in sync, the
/// query's block sits contiguously at the end of the collector, and the
/// record at block offset `k` is stamped with iteration index `k` modulo the
/// iteration count — that is, plan-major, iteration-minor order.
pub proof fn lemma_result_ordering(sched: QuerySchedule, rec: ResultCollector)
    requires
        sched.wf(),
        sched.in_sync(rec),
    ensures
        rec.results@.len() == sched.base@ + sched.done_count(),
        forall|k: int|
            0 <= k < sched.done_count() ==> block_entry_ok(
                #[trigger] rec.results@[sched.base@ + k],
                sched.query_name@,
                sched.commitment_scheme@,
                sched.table_size,
                sched.iterations,
                k,
            ),
{
}

} // verus!
