use proof_of_sql_benchlib::{QuerySchedule, ResultCollector};

#[test]
fn results_are_ordered_query_major_then_iteration() {
    let mut rec = ResultCollector::new();

    let mut a = QuerySchedule::begin("A".to_string(), "HyperKZG", 100, 2, 1, &rec);
    a.record_iteration(&mut rec, 5, 6, 10);
    a.record_iteration(&mut rec, 7, 8, 10);

    let mut b = QuerySchedule::begin("B".to_string(), "HyperKZG", 100, 2, 1, &rec);
    b.record_iteration(&mut rec, 1, 2, 20);
    b.record_iteration(&mut rec, 3, 4, 20);

    let out = rec.into_output();
    assert_eq!(out.results.len(), 4);
    let tags: Vec<(String, usize)> = out
        .results
        .iter()
        .map(|r| (r.query.clone(), r.iteration))
        .collect();
    assert_eq!(
        tags,
        vec![
            ("A".to_string(), 0),
            ("A".to_string(), 1),
            ("B".to_string(), 0),
            ("B".to_string(), 1),
        ]
    );
}

#[test]
fn results_are_plan_major_within_one_query() {
    let mut rec = ResultCollector::new();
    let mut sched = QuerySchedule::begin("Q".to_string(), "HyperKZG", 50, 2, 2, &rec);
    sched.record_iteration(&mut rec, 0, 0, 1);
    sched.record_iteration(&mut rec, 0, 0, 1);
    sched.record_iteration(&mut rec, 0, 0, 1);
    sched.record_iteration(&mut rec, 0, 0, 1);
    let out = rec.into_output();
    let iters: Vec<usize> = out.results.iter().map(|r| r.iteration).collect();
    assert_eq!(iters, vec![0, 1, 0, 1]);
}

#[test]
fn records_carry_the_stamped_fields() {
    let mut rec = ResultCollector::new();
    let mut sched = QuerySchedule::begin("Filter".to_string(), "HyperKZG", 1024, 1, 1, &rec);
    sched.record_iteration(&mut rec, 12, 34, 99);
    let out = rec.into_output();
    assert_eq!(out.results.len(), 1);
    let r = &out.results[0];
    assert_eq!(r.commitment_scheme, "HyperKZG");
    assert_eq!(r.query, "Filter");
    assert_eq!(r.table_size, 1024);
    assert_eq!(r.iteration, 0);
    assert_eq!(r.generate_proof_ms, 12);
    assert_eq!(r.verify_proof_ms, 34);
    assert_eq!(r.num_query_results, 99);
}

#[test]
fn paths_are_kept_in_recording_order() {
    let mut rec = ResultCollector::new();
    rec.record_path("out/q/a.parquet".to_string());
    rec.record_path("out/q/b.parquet".to_string());
    let out = rec.into_output();
    assert_eq!(
        out.parquet_paths,
        vec!["out/q/a.parquet".to_string(), "out/q/b.parquet".to_string()]
    );
    assert!(out.results.is_empty());
}
