use proof_of_sql_benchlib::sql::parse_query_sql;
use proof_of_sql_benchlib::{
    generate_query_tables, BenchRunError, BenchRunOutput, ColumnSpec, QueryEntry, ResultCollector,
    TableDefinition,
};

fn entry(name: &str, sql: &str) -> QueryEntry {
    QueryEntry {
        name: name.to_string(),
        sql: sql.to_string(),
        tables: vec![TableDefinition {
            name: "t".to_string(),
            columns: vec![ColumnSpec { name: "a".to_string(), bound: Some(100) }],
        }],
    }
}

#[test]
fn well_formed_sql_parses() {
    let statements = parse_query_sql("SELECT a FROM t").expect("parses");
    assert_eq!(statements.len(), 1);
}

#[test]
fn malformed_sql_is_a_sql_parse_error() {
    let err = parse_query_sql("((( not sql").expect_err("malformed");
    assert!(matches!(err, BenchRunError::SqlParse(_)));
}

fn drive(queries: &[QueryEntry], iterations: usize) -> Result<BenchRunOutput, BenchRunError> {
    // A run is all-or-nothing: the first failing phase aborts it, and records
    // already collected are discarded with the collector.
    let mut collector = ResultCollector::new();
    for (qi, entry) in queries.iter().enumerate() {
        let tables = generate_query_tables(entry, 8, 7, qi as u64);
        assert_eq!(tables.len(), entry.tables.len());
        parse_query_sql(&entry.sql)?;
        let mut schedule = proof_of_sql_benchlib::QuerySchedule::begin(
            entry.name.clone(),
            "HyperKZG",
            8,
            iterations,
            1,
            &collector,
        );
        for _ in 0..iterations {
            schedule.record_iteration(&mut collector, 1, 1, 8);
        }
    }
    Ok(collector.into_output())
}

#[test]
fn a_failure_in_a_middle_entry_returns_only_the_error() {
    let queries = vec![
        entry("A", "SELECT a FROM t"),
        entry("B", "((( not sql"),
        entry("C", "SELECT a FROM t"),
    ];
    let err = drive(&queries, 2).expect_err("entry two fails");
    assert!(matches!(err, BenchRunError::SqlParse(_)));
}

#[test]
fn a_clean_run_returns_all_records_in_order() {
    let queries = vec![entry("A", "SELECT a FROM t"), entry("B", "SELECT a FROM t")];
    let out = drive(&queries, 2).expect("runs");
    let tags: Vec<(String, usize)> = out
        .results
        .iter()
        .map(|r| (r.query.clone(), r.iteration))
        .collect();
    assert_eq!(
        tags,
        vec![
            ("A".to_string(), 0),
            ("A".to_string(), 1),
            ("B".to_string(), 0),
            ("B".to_string(), 1),
        ]
    );
}

#[test]
fn table_generation_is_reproducible_across_runs() {
    let e = entry("Filter", "SELECT a FROM t");
    let first = generate_query_tables(&e, 16, 99, 0);
    let second = generate_query_tables(&e, 16, 99, 0);
    assert_eq!(first.len(), second.len());
    for ((n1, c1), (n2, c2)) in first.iter().zip(second.iter()) {
        assert_eq!(n1, n2);
        for (a, b) in c1.iter().zip(c2.iter()) {
            assert_eq!(a.name, b.name);
            assert_eq!(a.values, b.values);
        }
    }
}

#[test]
fn join_entries_generate_half_sized_tables() {
    let e = entry("Join", "SELECT a FROM t");
    let tables = generate_query_tables(&e, 1001, 7, 0);
    assert_eq!(tables[0].1[0].values.len(), 501);
    let e = entry("Filter", "SELECT a FROM t");
    let tables = generate_query_tables(&e, 1001, 7, 0);
    assert_eq!(tables[0].1[0].values.len(), 1001);
}

#[test]
fn a_configured_seed_is_used_verbatim() {
    let options = proof_of_sql_benchlib::BenchOptions {
        iterations: 1,
        table_size: 8,
        rand_seed: Some(7),
        parquet_dir: None,
    };
    match proof_of_sql_benchlib::run_seed(&options) {
        Ok(seed) => assert_eq!(seed, 7),
        Err(_) => panic!("a configured seed never fails"),
    }
}

#[test]
fn an_absent_seed_draws_entropy_without_panicking() {
    let options = proof_of_sql_benchlib::BenchOptions {
        iterations: 1,
        table_size: 8,
        rand_seed: None,
        parquet_dir: None,
    };
    assert!(proof_of_sql_benchlib::run_seed(&options).is_ok());
}
