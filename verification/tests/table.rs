use launcher_config::quality::Quality;
use launcher_config::table::{table_from_entries, QualityTable};

fn entry(key: &str, value: &str) -> (String, String) {
    (key.to_string(), value.to_string())
}

#[test]
fn new_table_is_empty() {
    let table: QualityTable<String> = QualityTable::new();
    assert!(table.is_empty());
    assert_eq!(table.len(), 0);
    for quality in Quality::all() {
        assert_eq!(table.get(quality), None);
    }
}

#[test]
fn insert_sets_one_channel_and_hands_back_the_old_value() {
    let mut table: QualityTable<u32> = QualityTable::new();
    assert_eq!(table.insert(Quality::Insiders, 7), None);
    assert_eq!(table.get(Quality::Insiders), Some(&7));
    assert_eq!(table.get(Quality::Stable), None);
    assert_eq!(table.get(Quality::Exploration), None);
    assert_eq!(table.len(), 1);
    assert!(!table.is_empty());
    assert_eq!(table.insert(Quality::Insiders, 9), Some(7));
    assert_eq!(table.get(Quality::Insiders), Some(&9));
    assert_eq!(table.len(), 1);
    assert_eq!(table.insert(Quality::Stable, 1), None);
    assert_eq!(table.insert(Quality::Exploration, 2), None);
    assert_eq!(table.len(), 3);
    assert_eq!(table.get(Quality::Stable), Some(&1));
    assert_eq!(table.get(Quality::Exploration), Some(&2));
}

#[test]
fn entries_with_known_keys_make_a_table_of_these_entries() {
    let table = table_from_entries(vec![
        entry("exploration", "https://example.com/x"),
        entry("stable", "https://example.com/s"),
    ])
    .unwrap();
    assert_eq!(table.len(), 2);
    assert_eq!(table.get(Quality::Stable), Some(&"https://example.com/s".to_string()));
    assert_eq!(table.get(Quality::Exploration), Some(&"https://example.com/x".to_string()));
    assert_eq!(table.get(Quality::Insiders), None);
}

#[test]
fn no_entries_make_the_empty_table() {
    let table = table_from_entries(Vec::<(String, String)>::new()).unwrap();
    assert!(table.is_empty());
    assert_eq!(table, QualityTable::new());
}

#[test]
fn of_two_entries_for_one_channel_the_later_stays() {
    let table =
        table_from_entries(vec![entry("stable", "first"), entry("stable", "second")]).unwrap();
    assert_eq!(table.len(), 1);
    assert_eq!(table.get(Quality::Stable), Some(&"second".to_string()));
}

#[test]
fn a_key_that_names_no_channel_is_refused() {
    assert_eq!(
        table_from_entries(vec![entry("stable", "a"), entry("nightly", "b")]),
        None
    );
    assert_eq!(table_from_entries(vec![entry("", "a")]), None);
    assert_eq!(
        table_from_entries(vec![entry("Insiders", "a"), entry("insiders", "b")]),
        None
    );
}

#[test]
fn values_of_any_type_are_kept_as_they_are() {
    let ids = vec!["A1".to_string(), "B2".to_string()];
    let table = table_from_entries(vec![("insiders".to_string(), ids.clone())]).unwrap();
    assert_eq!(table.get(Quality::Insiders), Some(&ids));
}
