//! Benchmark harness library for a commitment-based verifiable SQL engine:
//! deterministic synthetic-table generation, commitment-setup construction
//! with cross-library curve-point conversion, and the orchestration of the
//! timed prove/verify loop with result aggregation.

pub mod bench_runner;
pub mod benchmark_accessor;
pub mod curve;
pub mod hyperkzg_setup;
pub mod parquet_export;
pub mod queries;
pub mod random_util;
pub mod result_collector;
pub mod sql;

pub use bench_runner::{
    generate_query_tables, run_seed, table_size_for_query, BenchOptions, BenchResult,
    BenchRunError, BenchRunOutput,
};
pub use hyperkzg_setup::{load_setup_from_bytes, CommitmentSetup};
pub use benchmark_accessor::BenchmarkAccessor;
pub use parquet_export::sanitize_component;
pub use queries::{ColumnSpec, QueryEntry, TableDefinition};
pub use random_util::{generate_random_columns, GeneratedColumn};
pub use result_collector::{QuerySchedule, ResultCollector};
