use proof_of_sql_benchlib::{BenchmarkAccessor, GeneratedColumn};

fn col(name: &str, values: Vec<i64>) -> GeneratedColumn {
    GeneratedColumn { name: name.to_string(), values }
}

#[test]
fn insert_then_lookup() {
    let mut acc: BenchmarkAccessor<u32> = BenchmarkAccessor::new();
    acc.insert_table("t1".to_string(), vec![col("a", vec![1, 2, 3])], 11);
    let got = acc.table_columns(&"t1".to_string()).expect("t1 present");
    assert_eq!(got.len(), 1);
    assert_eq!(got[0].name, "a");
    assert_eq!(got[0].values, vec![1, 2, 3]);
    assert_eq!(*acc.table_commitment(&"t1".to_string()).expect("t1 present"), 11);
    assert!(acc.table_columns(&"t2".to_string()).is_none());
}

#[test]
fn reinserting_a_reference_overwrites_it() {
    let mut acc: BenchmarkAccessor<u32> = BenchmarkAccessor::new();
    acc.insert_table("t".to_string(), vec![col("a", vec![1])], 1);
    acc.insert_table("t".to_string(), vec![col("b", vec![2, 3])], 2);
    let got = acc.table_columns(&"t".to_string()).expect("t present");
    assert_eq!(got.len(), 1);
    assert_eq!(got[0].name, "b");
    assert_eq!(got[0].values, vec![2, 3]);
    assert_eq!(*acc.table_commitment(&"t".to_string()).expect("t present"), 2);
}

#[test]
fn references_persist_across_queries() {
    // The registry is never cleared within a run: a later query naming the
    // same table sees the data already registered under that reference.
    let mut acc: BenchmarkAccessor<u32> = BenchmarkAccessor::new();
    acc.insert_table("shared".to_string(), vec![col("a", vec![9])], 1);
    acc.insert_table("other".to_string(), vec![col("b", vec![8])], 2);
    let got = acc.table_columns(&"shared".to_string()).expect("still present");
    assert_eq!(got[0].values, vec![9]);
}
