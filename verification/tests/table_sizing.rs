use proof_of_sql_benchlib::table_size_for_query;

#[test]
fn join_size_is_halved_rounding_up() {
    assert_eq!(table_size_for_query(1001, "Join"), 501);
    assert_eq!(table_size_for_query(1001, "Union All"), 501);
    assert_eq!(table_size_for_query(1000, "Join"), 500);
    assert_eq!(table_size_for_query(1, "Join"), 1);
}

#[test]
fn other_queries_keep_the_full_size() {
    assert_eq!(table_size_for_query(1001, "Filter"), 1001);
    assert_eq!(table_size_for_query(1001, "Complex Filter"), 1001);
    assert_eq!(table_size_for_query(1001, ""), 1001);
    assert_eq!(table_size_for_query(1001, "join"), 1001);
}
