use launcher_config::embedded::{
    parse_app_id_table, parse_download_uri_table, table_from_decoded, MalformedEmbeddedJson,
    TableError, TableKind,
};
use launcher_config::quality::Quality;
use launcher_config::table::QualityTable;

fn bad_ids(cause: TableError) -> MalformedEmbeddedJson {
    MalformedEmbeddedJson { table: TableKind::Win32AppIds, cause }
}

fn bad_uris(cause: TableError) -> MalformedEmbeddedJson {
    MalformedEmbeddedJson { table: TableKind::QualityDownloadUris, cause }
}

#[test]
fn absent_text_gives_no_table() {
    assert_eq!(parse_app_id_table(None), Ok(None));
    assert_eq!(parse_download_uri_table(None), Ok(None));
}

#[test]
fn empty_object_gives_an_empty_table_which_is_not_no_table() {
    let ids = parse_app_id_table(Some("{}"));
    assert_eq!(ids, Ok(Some(QualityTable::new())));
    assert_ne!(ids, parse_app_id_table(None));
    let uris = parse_download_uri_table(Some(" { } "));
    assert_eq!(uris, Ok(Some(QualityTable::new())));
    assert_ne!(uris, parse_download_uri_table(None));
}

#[test]
fn app_ids_are_read_as_they_were_written() {
    let table = parse_app_id_table(Some(
        r#"{"stable":["ABC123"],"insiders":["X","Y","Z"],"exploration":[]}"#,
    ))
    .unwrap()
    .unwrap();
    assert_eq!(table.len(), 3);
    assert_eq!(table.get(Quality::Stable), Some(&vec!["ABC123".to_string()]));
    assert_eq!(
        table.get(Quality::Insiders),
        Some(&vec!["X".to_string(), "Y".to_string(), "Z".to_string()])
    );
    assert_eq!(table.get(Quality::Exploration), Some(&Vec::<String>::new()));
}

#[test]
fn download_uris_are_read_as_they_were_written() {
    let table = parse_download_uri_table(Some(
        r#"{ "insiders": "https://example.com/insiders", "stable": "https://example.com/stable" }"#,
    ))
    .unwrap()
    .unwrap();
    assert_eq!(table.len(), 2);
    assert_eq!(table.get(Quality::Stable), Some(&"https://example.com/stable".to_string()));
    assert_eq!(table.get(Quality::Insiders), Some(&"https://example.com/insiders".to_string()));
    assert_eq!(table.get(Quality::Exploration), None);
}

#[test]
fn escapes_in_keys_and_values_are_decoded() {
    let table = parse_download_uri_table(Some(r#"{"stable":"a\/b\n\"c\""}"#))
        .unwrap()
        .unwrap();
    assert_eq!(table.get(Quality::Stable), Some(&"a/b\n\"c\"".to_string()));
}

#[test]
fn of_a_key_written_twice_the_later_value_stays() {
    let table =
        parse_download_uri_table(Some(r#"{"stable":"a","stable":"b"}"#)).unwrap().unwrap();
    assert_eq!(table.len(), 1);
    assert_eq!(table.get(Quality::Stable), Some(&"b".to_string()));
}

#[test]
fn text_that_is_no_json_is_malformed() {
    for text in ["", "{", "{\"stable\":", "stable", "{\"stable\":\"a\"} x", "{'stable':'a'}"] {
        assert_eq!(parse_download_uri_table(Some(text)), Err(bad_uris(TableError::InvalidJson)));
        assert_eq!(parse_app_id_table(Some(text)), Err(bad_ids(TableError::InvalidJson)));
    }
}

#[test]
fn json_that_is_no_object_is_malformed() {
    for text in ["null", "[]", "\"stable\"", "17", "true"] {
        assert_eq!(parse_download_uri_table(Some(text)), Err(bad_uris(TableError::InvalidJson)));
        assert_eq!(parse_app_id_table(Some(text)), Err(bad_ids(TableError::InvalidJson)));
    }
}

#[test]
fn values_of_the_wrong_shape_are_malformed() {
    assert_eq!(
        parse_download_uri_table(Some(r#"{"stable":["ABC123"]}"#)),
        Err(bad_uris(TableError::InvalidJson))
    );
    assert_eq!(
        parse_download_uri_table(Some(r#"{"stable":null}"#)),
        Err(bad_uris(TableError::InvalidJson))
    );
    assert_eq!(
        parse_app_id_table(Some(r#"{"stable":"ABC123"}"#)),
        Err(bad_ids(TableError::InvalidJson))
    );
    assert_eq!(
        parse_app_id_table(Some(r#"{"stable":["ABC123",7]}"#)),
        Err(bad_ids(TableError::InvalidJson))
    );
}

#[test]
fn an_unknown_key_is_malformed() {
    assert_eq!(
        parse_download_uri_table(Some(r#"{"stable":"a","nightly":"b"}"#)),
        Err(bad_uris(TableError::UnknownQuality))
    );
    assert_eq!(
        parse_app_id_table(Some(r#"{"Stable":["a"]}"#)),
        Err(bad_ids(TableError::UnknownQuality))
    );
    assert_eq!(
        parse_app_id_table(Some(r#"{"insider":[]}"#)),
        Err(bad_ids(TableError::UnknownQuality))
    );
}

#[test]
fn the_diagnostic_names_the_table_and_the_fault() {
    assert_eq!(
        bad_ids(TableError::InvalidJson).message(),
        "malformed embedded table VSCODE_CLI_WIN32_APP_IDS: not a JSON object of the expected shape"
    );
    assert_eq!(
        bad_uris(TableError::UnknownQuality).message(),
        "malformed embedded table VSCODE_CLI_QUALITY_DOWNLOAD_URIS: a key names no release channel"
    );
    assert_eq!(
        bad_ids(TableError::UnknownQuality).message(),
        "malformed embedded table VSCODE_CLI_WIN32_APP_IDS: a key names no release channel"
    );
    assert_eq!(
        bad_uris(TableError::InvalidJson).message(),
        "malformed embedded table VSCODE_CLI_QUALITY_DOWNLOAD_URIS: not a JSON object of the expected shape"
    );
}

#[test]
fn entries_that_were_not_decoded_are_invalid_json() {
    assert_eq!(
        table_from_decoded::<String>(TableKind::QualityDownloadUris, None),
        Err(bad_uris(TableError::InvalidJson))
    );
    assert_eq!(
        table_from_decoded::<Vec<String>>(TableKind::Win32AppIds, None),
        Err(bad_ids(TableError::InvalidJson))
    );
}

#[test]
fn decoded_entries_with_an_unknown_key_are_no_table() {
    let entries = vec![
        ("exploration".to_string(), vec!["E".to_string()]),
        ("preview".to_string(), Vec::new()),
    ];
    assert_eq!(
        table_from_decoded(TableKind::Win32AppIds, Some(entries)),
        Err(bad_ids(TableError::UnknownQuality))
    );
}

#[test]
fn decoded_entries_with_known_keys_are_the_table() {
    let entries = vec![
        ("exploration".to_string(), "e".to_string()),
        ("insiders".to_string(), "i".to_string()),
        ("stable".to_string(), "s".to_string()),
    ];
    let table =
        table_from_decoded(TableKind::QualityDownloadUris, Some(entries)).unwrap().unwrap();
    assert_eq!(table.len(), 3);
    assert_eq!(table.get(Quality::Exploration), Some(&"e".to_string()));
    assert_eq!(table.get(Quality::Insiders), Some(&"i".to_string()));
    assert_eq!(table.get(Quality::Stable), Some(&"s".to_string()));
    let empty = table_from_decoded(TableKind::QualityDownloadUris, Some(Vec::<(String, String)>::new()));
    assert_eq!(empty, Ok(Some(QualityTable::new())));
}
