use schema_store::error::DatabaseError;
use schema_store::history::collect_versions;
use schema_store::version::parse_version;
use schema_store::version::version_text;

fn texts(rows: &[&str]) -> Vec<String> {
    rows.iter().map(|row| row.to_string()).collect()
}

#[test]
fn version_text_is_plain_decimal() {
    assert_eq!(version_text(0), "0");
    assert_eq!(version_text(7), "7");
    assert_eq!(version_text(10), "10");
    assert_eq!(version_text(1203), "1203");
    assert_eq!(version_text(20170929203228), "20170929203228");
    assert_eq!(version_text(u64::MAX), "18446744073709551615");
}

#[test]
fn parse_version_reads_canonical_decimal() {
    assert_eq!(parse_version("0"), Some(0));
    assert_eq!(parse_version("7"), Some(7));
    assert_eq!(parse_version("10"), Some(10));
    assert_eq!(parse_version("20170929203228"), Some(20170929203228));
    assert_eq!(parse_version("18446744073709551615"), Some(u64::MAX));
}

#[test]
fn parse_version_refuses_what_is_not_canonical() {
    assert_eq!(parse_version(""), None);
    assert_eq!(parse_version("07"), None);
    assert_eq!(parse_version("00"), None);
    assert_eq!(parse_version("+7"), None);
    assert_eq!(parse_version("-7"), None);
    assert_eq!(parse_version(" 7"), None);
    assert_eq!(parse_version("7 "), None);
    assert_eq!(parse_version("7a"), None);
    assert_eq!(parse_version("a7"), None);
    assert_eq!(parse_version("1_000"), None);
    assert_eq!(parse_version("\u{0663}"), None);
    assert_eq!(parse_version("2017-09-29"), None);
}

#[test]
fn parse_version_refuses_what_does_not_fit() {
    assert_eq!(parse_version("18446744073709551616"), None);
    assert_eq!(parse_version("18446744073709551620"), None);
    assert_eq!(parse_version("99999999999999999999"), None);
    assert_eq!(parse_version("184467440737095516150"), None);
    assert_eq!(parse_version("000000000000000000000000000001"), None);
}

#[test]
fn parse_version_undoes_version_text() {
    let samples: [u64; 12] = [
        0,
        1,
        9,
        10,
        11,
        99,
        100,
        65535,
        4294967296,
        20170929203228,
        u64::MAX - 1,
        u64::MAX,
    ];
    for version in samples {
        assert_eq!(parse_version(&version_text(version)), Some(version));
    }
}

#[test]
fn collect_versions_orders_the_rows() {
    assert_eq!(collect_versions(&texts(&[])).unwrap(), Vec::<u64>::new());
    assert_eq!(collect_versions(&texts(&["2", "10", "1"])).unwrap(), vec![1, 2, 10]);
    assert_eq!(collect_versions(&texts(&["3", "2", "1"])).unwrap(), vec![1, 2, 3]);
    assert_eq!(collect_versions(&texts(&["1", "2", "3"])).unwrap(), vec![1, 2, 3]);
    assert_eq!(collect_versions(&texts(&["5"])).unwrap(), vec![5]);
}

#[test]
fn collect_versions_keeps_each_version_once() {
    assert_eq!(collect_versions(&texts(&["1", "1"])).unwrap(), vec![1]);
    assert_eq!(collect_versions(&texts(&["4", "2", "4", "2", "9"])).unwrap(), vec![2, 4, 9]);
}

#[test]
fn collect_versions_reports_the_first_row_that_is_no_version() {
    match collect_versions(&texts(&["1", "x", "y"])) {
        Err(DatabaseError::HistoryCorrupted(text)) => assert_eq!(text, "x"),
        _ => panic!("the second row is no version"),
    }
    match collect_versions(&texts(&["01"])) {
        Err(DatabaseError::HistoryCorrupted(text)) => assert_eq!(text, "01"),
        _ => panic!("the row is no version"),
    }
    match collect_versions(&texts(&["3", "2", ""])) {
        Err(DatabaseError::HistoryCorrupted(text)) => assert_eq!(text, ""),
        _ => panic!("the last row is no version"),
    }
}

#[test]
fn error_names_its_version() {
    assert_eq!(DatabaseError::MigrationScriptFailure(2, "no".to_string()).version(), Some(2));
    assert_eq!(DatabaseError::RevertScriptFailure(3, "no".to_string()).version(), Some(3));
    assert_eq!(DatabaseError::UnknownVersion(4).version(), Some(4));
    assert_eq!(DatabaseError::ConnectionError("no".to_string()).version(), None);
    assert_eq!(DatabaseError::HistoryCorrupted("x".to_string()).version(), None);
    assert_eq!(DatabaseError::StoreFailure("no".to_string()).version(), None);
    assert_eq!(DatabaseError::LockCorrupted.version(), None);
}
