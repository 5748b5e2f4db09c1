use kevgir::keys::{filter_migros_keys_by_branch, parse_migros_keys, RowParseError};

fn row(cells: &[&str]) -> Vec<String> {
    cells.iter().map(|c| c.to_string()).collect()
}

#[test]
fn parse_valid_row_round_trips_fields() {
    let cells = row(&[
        "12",
        "345",
        "6789",
        "BrandA",
        "BrandA-Platform",
        "Kadikoy",
        "BrandA Kadikoy",
        "BrandA Kadikoy Platform",
        "key-123",
    ]);
    let parsed = parse_migros_keys(&cells).unwrap();
    assert_eq!(parsed.chain_id, 12);
    assert_eq!(parsed.store_id, 345);
    assert_eq!(parsed.menu_id, 6789);
    assert_eq!(parsed.brand_name, "BrandA");
    assert_eq!(parsed.brand_name_platform, "BrandA-Platform");
    assert_eq!(parsed.branch_name, "Kadikoy");
    assert_eq!(parsed.branch_brand_name, "BrandA Kadikoy");
    assert_eq!(parsed.branch_name_platform, "BrandA Kadikoy Platform");
    assert_eq!(parsed.restaurant_key, "key-123");
}

#[test]
fn parse_row_with_extra_columns_succeeds() {
    let cells = row(&["1", "2", "3", "a", "b", "c", "d", "e", "f", "extra", "extra2"]);
    let parsed = parse_migros_keys(&cells).unwrap();
    assert_eq!(parsed.restaurant_key, "f");
}

#[test]
fn parse_short_row_fails_with_count() {
    let cells = row(&["1", "2", "3", "a", "b"]);
    match parse_migros_keys(&cells) {
        Err(RowParseError::TooFewColumns { found }) => assert_eq!(found, 5),
        other => panic!("expected TooFewColumns, got {:?}", other),
    }
}

#[test]
fn parse_negative_ids_accepted() {
    let cells = row(&["-1", "+2", "-3", "a", "b", "c", "d", "e", "f"]);
    let parsed = parse_migros_keys(&cells).unwrap();
    assert_eq!(parsed.chain_id, -1);
    assert_eq!(parsed.store_id, 2);
    assert_eq!(parsed.menu_id, -3);
}

#[test]
fn parse_bad_chain_id_reports_first_column() {
    let cells = row(&["x1", "2", "y3", "a", "b", "c", "d", "e", "f"]);
    match parse_migros_keys(&cells) {
        Err(RowParseError::BadInteger { column, cell }) => {
            assert_eq!(column, 0);
            assert_eq!(cell, "x1");
        }
        other => panic!("expected BadInteger, got {:?}", other),
    }
}

#[test]
fn parse_bad_menu_id_reports_third_column() {
    let cells = row(&["1", "2", "3.5", "a", "b", "c", "d", "e", "f"]);
    match parse_migros_keys(&cells) {
        Err(RowParseError::BadInteger { column, cell }) => {
            assert_eq!(column, 2);
            assert_eq!(cell, "3.5");
        }
        other => panic!("expected BadInteger, got {:?}", other),
    }
}

#[test]
fn parse_overflowing_id_is_rejected() {
    let cells = row(&["9223372036854775808", "2", "3", "a", "b", "c", "d", "e", "f"]);
    assert!(matches!(
        parse_migros_keys(&cells),
        Err(RowParseError::BadInteger { column: 0, .. })
    ));
}

#[test]
fn filter_selects_branch_in_order_and_counts_skips() {
    let table = vec![
        row(&["1", "10", "100", "a", "b", "Kadikoy", "d", "e", "k1"]),
        row(&["2", "20", "200", "a", "b", "Besiktas", "d", "e", "k2"]),
        row(&["bad", "20", "200", "a", "b", "Kadikoy", "d", "e", "k3"]),
        row(&["3", "30"]),
        row(&["4", "40", "400", "a", "b", "Kadikoy", "d", "e", "k4"]),
    ];
    let (keys, skipped) = filter_migros_keys_by_branch(&table, "Kadikoy");
    assert_eq!(skipped.len(), 2);
    assert_eq!(skipped[0].0, 2);
    assert!(matches!(skipped[0].1, RowParseError::BadInteger { column: 0, .. }));
    assert_eq!(skipped[1].0, 3);
    assert!(matches!(skipped[1].1, RowParseError::TooFewColumns { found: 2 }));
    assert_eq!(keys.len(), 2);
    assert_eq!(keys[0].restaurant_key, "k1");
    assert_eq!(keys[1].restaurant_key, "k4");
    assert_eq!(keys[0].chain_id, 1);
    assert_eq!(keys[1].store_id, 40);
}

#[test]
fn filter_keeps_duplicate_rows_independently() {
    let same = row(&["1", "10", "100", "a", "b", "Kadikoy", "d", "e", "dup"]);
    let table = vec![same.clone(), same.clone()];
    let (keys, skipped) = filter_migros_keys_by_branch(&table, "Kadikoy");
    assert!(skipped.is_empty());
    assert_eq!(keys.len(), 2);
    assert_eq!(keys[0].restaurant_key, "dup");
    assert_eq!(keys[1].restaurant_key, "dup");
}

#[test]
fn filter_of_empty_table_is_empty() {
    let table: Vec<Vec<String>> = vec![];
    let (keys, skipped) = filter_migros_keys_by_branch(&table, "Kadikoy");
    assert_eq!(keys.len(), 0);
    assert!(skipped.is_empty());
}
