use apx::db::dev;
use apx::db::fts::{
    enhance_fts5_query, is_pascal_case, sanitize_fts5_query, sanitize_fts5_terms,
    validate_identifier, Fts5Column, Fts5Table,
};
use apx::db::logs::{app_path_pattern, cleanup_cutoff, query_logs_after_id_sql, query_logs_sql};

#[test]
fn test_validate_identifier_valid() {
    assert!(validate_identifier("my_table_v1").is_ok());
    assert!(validate_identifier("abc").is_ok());
    assert!(validate_identifier("A123").is_ok());
}

#[test]
fn test_validate_identifier_invalid() {
    assert!(validate_identifier("").is_err());
    assert!(validate_identifier("my-table").is_err());
    assert!(validate_identifier("my table").is_err());
    assert!(validate_identifier("table;DROP").is_err());
}

#[test]
fn test_sanitize_fts5_terms() {
    assert_eq!(
        sanitize_fts5_terms("serving endpoints"),
        vec!["\"serving\"", "\"endpoints\""]
    );
    assert_eq!(
        sanitize_fts5_terms("hello* OR world"),
        vec!["\"hello\"", "\"OR\"", "\"world\""]
    );
    assert!(sanitize_fts5_terms("").is_empty());
    assert!(sanitize_fts5_terms("   ").is_empty());
}

#[test]
fn fts_test_sanitize_fts5_query_basic() {
    assert_eq!(sanitize_fts5_query("hello world"), "\"hello\" OR \"world\"");
}

#[test]
fn fts_test_sanitize_fts5_query_special_chars() {
    assert_eq!(
        sanitize_fts5_query("hello* OR world"),
        "\"hello\" OR \"OR\" OR \"world\""
    );
}

#[test]
fn fts_test_sanitize_fts5_query_empty() {
    assert_eq!(sanitize_fts5_query(""), "");
    assert_eq!(sanitize_fts5_query("   "), "");
}

#[test]
fn dev_test_sanitize_fts5_query_basic() {
    assert_eq!(dev::sanitize_fts5_query("hello world"), "\"hello\" OR \"world\"");
}

#[test]
fn dev_test_sanitize_fts5_query_special_chars() {
    assert_eq!(
        dev::sanitize_fts5_query("hello* OR world"),
        "\"hello\" OR \"OR\" OR \"world\""
    );
}

#[test]
fn dev_test_sanitize_fts5_query_empty() {
    assert_eq!(dev::sanitize_fts5_query(""), "");
    assert_eq!(dev::sanitize_fts5_query("   "), "");
}

#[test]
fn test_is_pascal_case() {
    assert!(is_pascal_case("GenieAttachment"));
    assert!(is_pascal_case("ClustersAPI"));
    assert!(is_pascal_case("Abc"));
    assert!(!is_pascal_case("abc"));
    assert!(!is_pascal_case("ABC"));
    assert!(!is_pascal_case("create"));
    assert!(!is_pascal_case("123"));
}

#[test]
fn test_enhance_fts5_query_pascal_case() {
    let terms = vec!["\"GenieAttachment\"".to_string()];
    let result = enhance_fts5_query(&terms);
    assert!(result.contains("entity:\"GenieAttachment\""));
    assert!(result.contains("\"GenieAttachment\""));
}

#[test]
fn test_enhance_fts5_query_with_fields_hint() {
    let terms = vec!["\"GenieAttachment\"".to_string(), "\"fields\"".to_string()];
    let result = enhance_fts5_query(&terms);
    assert!(result.contains("entity:\"GenieAttachment\""));
    assert!(!result.contains("\"fields\""));
}

#[test]
fn test_enhance_fts5_query_plain() {
    let terms = vec!["\"create\"".to_string(), "\"clusters\"".to_string()];
    let result = enhance_fts5_query(&terms);
    assert_eq!(result, "\"create\" OR \"clusters\"");
}

#[test]
fn test_enhance_fts5_query_no_double_or() {
    let terms = vec!["\"serving\"".to_string(), "\"endpoints\"".to_string()];
    let result = enhance_fts5_query(&terms);
    assert!(!result.contains("OR OR"), "must not contain double OR: {result}");
    assert_eq!(result, "\"serving\" OR \"endpoints\"");
}

#[test]
fn enhance_puts_entity_terms_first() {
    let terms = vec!["\"create\"".to_string(), "\"GenieSpace\"".to_string()];
    assert_eq!(
        enhance_fts5_query(&terms),
        "entity:\"GenieSpace\" OR \"create\" OR \"GenieSpace\""
    );
}

#[test]
fn enhance_drops_every_hint_word_case_insensitively() {
    let terms = vec![
        "\"Fields\"".to_string(),
        "\"ATTRIBUTES\"".to_string(),
        "\"members\"".to_string(),
        "\"properties\"".to_string(),
        "\"jobs\"".to_string(),
    ];
    assert_eq!(enhance_fts5_query(&terms), "\"jobs\"");
}

fn cols(spec: &[(&'static str, bool)]) -> Vec<Fts5Column> {
    spec.iter().map(|(n, i)| Fts5Column { name: n, indexed: *i }).collect()
}

#[test]
fn test_fts5_table_new_valid() {
    let table = Fts5Table::new("my_table_v1", cols(&[("id", false), ("text", true)]));
    assert!(table.is_ok());
}

#[test]
fn test_fts5_table_rejects_bad_table_name() {
    let table = Fts5Table::new("my-table", cols(&[("text", true)]));
    assert!(table.is_err());
}

#[test]
fn test_fts5_table_rejects_empty_columns() {
    let table = Fts5Table::new("t", vec![]);
    assert_eq!(table.err().unwrap(), "FTS5 table must have at least one column");
}

#[test]
fn fts5_table_rejects_bad_column_name() {
    let table = Fts5Table::new("t", cols(&[("ok", true), ("bad col", true)]));
    assert_eq!(
        table.err().unwrap(),
        "Invalid identifier 'bad col': only alphanumeric characters and underscores allowed"
    );
}

#[test]
fn fts5_table_sql_text() {
    let t = Fts5Table::new("test_rt_v1", cols(&[("id", false), ("body", true), ("tag", true)])).unwrap();
    assert_eq!(t.table_name(), "test_rt_v1");
    assert_eq!(t.drop_sql(), "DROP TABLE IF EXISTS \"test_rt_v1\"");
    assert_eq!(
        t.create_sql(),
        "CREATE VIRTUAL TABLE \"test_rt_v1\" USING fts5(id UNINDEXED, body, tag, tokenize='porter unicode61')"
    );
    assert_eq!(
        t.insert_sql(3).unwrap(),
        "INSERT INTO \"test_rt_v1\" (id, body, tag) VALUES (?1, ?2, ?3)"
    );
    assert_eq!(
        t.search_sql(&["id", "body", "rank"]).unwrap(),
        "SELECT id, body, rank FROM \"test_rt_v1\" WHERE \"test_rt_v1\" MATCH ?1 ORDER BY rank LIMIT ?2"
    );
    let t2 = t.with_tokenizer("trigram");
    assert!(t2.create_sql().ends_with("tokenize='trigram')"));
}

#[test]
fn test_fts5_insert_str_wrong_count() {
    let t = Fts5Table::new("test_cnt_v1", cols(&[("a", true), ("b", true)])).unwrap();
    assert_eq!(t.insert_sql(1).err().unwrap(), "Expected 2 values, got 1");
}

#[test]
fn test_fts5_search_bm25_wrong_weight_count() {
    let t = Fts5Table::new("test_bm_v1", cols(&[("id", false), ("body", true)])).unwrap();
    let r = t.search_bm25_weights(&[1.0f64, 2.0], 0.0, &["id"]);
    assert_eq!(
        r.err().unwrap(),
        "Expected 1 bm25 weights (one per indexed column), got 2"
    );
}

#[test]
fn fts5_bm25_weights_fill_unindexed_with_zero() {
    let t = Fts5Table::new("t", cols(&[("id", false), ("body", true), ("tag", true)])).unwrap();
    let w = t.search_bm25_weights(&[1.0f64, 2.0], 0.0, &["id", "body"]).unwrap();
    assert_eq!(w, vec![0.0, 1.0, 2.0]);
    assert_eq!(
        t.search_bm25_sql("0, 1, 2", &["id", "body"]),
        "SELECT id, body, bm25(\"t\", 0, 1, 2) AS rank FROM \"t\" WHERE \"t\" MATCH ?1 ORDER BY rank LIMIT ?2"
    );
}

#[test]
fn fts5_unknown_result_column() {
    let t = Fts5Table::new("t", cols(&[("body", true)])).unwrap();
    assert_eq!(
        t.search_sql(&["body", "nope"]).err().unwrap(),
        "Unknown column 'nope' in result_columns"
    );
    assert!(t.search_sql(&["rank"]).is_ok());
    assert_eq!(
        t.search_bm25_weights(&[1.0f64], 0.0, &["rank"]).err().unwrap(),
        "Unknown column 'rank' in result_columns"
    );
}

#[test]
fn logs_query_text() {
    let ts = "COALESCE(NULLIF(timestamp_ns, 0), observed_timestamp_ns)";
    let head = "SELECT timestamp_ns, observed_timestamp_ns, severity_number, severity_text, body, service_name, app_path, resource_attributes, log_attributes, trace_id, span_id FROM logs WHERE ";
    assert_eq!(
        query_logs_sql(true, Some(5)),
        format!("{head}(app_path LIKE ?1 OR ?1 LIKE '%' || app_path || '%') AND {ts} >= ?2 ORDER BY {ts} ASC LIMIT 5")
    );
    assert_eq!(query_logs_sql(false, None), format!("{head}{ts} >= ?1 ORDER BY {ts} ASC"));
    assert_eq!(
        query_logs_after_id_sql(true),
        format!("{head}id > ?1 AND (app_path LIKE ?2 OR ?2 LIKE '%' || app_path || '%') ORDER BY {ts} ASC")
    );
    assert_eq!(query_logs_after_id_sql(false), format!("{head}id > ?1 ORDER BY {ts} ASC"));
}

#[test]
fn logs_pattern_and_cutoff() {
    assert_eq!(app_path_pattern("/tmp/test"), "%/tmp/test%");
    assert_eq!(cleanup_cutoff(Some(1_000_000)), 1_000_000 - 604_800);
    assert_eq!(cleanup_cutoff(None), 0);
}

#[test]
fn logs_statements() {
    let s = apx::db::logs::schema_statements();
    assert_eq!(s.len(), 5);
    assert!(s[0].starts_with("CREATE TABLE IF NOT EXISTS logs ("));
    assert_eq!(apx::db::logs::cleanup_sql(), "DELETE FROM logs WHERE created_at < ?");
    assert!(apx::db::dev::table_exists_sql().contains("sqlite_master"));
}
