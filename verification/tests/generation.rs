use proof_of_sql_benchlib::{generate_random_columns, ColumnSpec};

fn specs() -> Vec<ColumnSpec> {
    vec![
        ColumnSpec { name: "a".to_string(), bound: Some(10) },
        ColumnSpec { name: "b".to_string(), bound: None },
    ]
}

#[test]
fn same_seed_reproduces_identical_columns() {
    let first = generate_random_columns(7, &specs(), 64);
    let second = generate_random_columns(7, &specs(), 64);
    assert_eq!(first.len(), 2);
    for (x, y) in first.iter().zip(second.iter()) {
        assert_eq!(x.name, y.name);
        assert_eq!(x.values, y.values);
    }
}

#[test]
fn generated_columns_have_requested_rows_and_names() {
    let cols = generate_random_columns(42, &specs(), 17);
    assert_eq!(cols.len(), 2);
    assert_eq!(cols[0].name, "a");
    assert_eq!(cols[1].name, "b");
    assert_eq!(cols[0].values.len(), 17);
    assert_eq!(cols[1].values.len(), 17);
}

#[test]
fn bounded_column_honors_its_bound() {
    let cols = generate_random_columns(3, &specs(), 200);
    assert!(cols[0].values.iter().all(|v| 0 <= *v && *v < 10));
    assert!(cols[1].values.iter().all(|v| 0 <= *v));
}

#[test]
fn different_seeds_differ() {
    let first = generate_random_columns(1, &specs(), 64);
    let second = generate_random_columns(2, &specs(), 64);
    assert_ne!(first[1].values, second[1].values);
}
