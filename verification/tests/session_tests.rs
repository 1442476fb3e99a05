use change_observer::command::{
    parse_command, parse_filter, parse_mode, Command, UsageError, EXIT_USAGE,
};
use change_observer::config::{Setting, StoreConfig};
use change_observer::filter::ChangeEventType;
use change_observer::record::{Record, UserOp};
use change_observer::session::{
    exit_code, is_fatal, ErrorKind, SessionEnd, SessionKind, EXIT_CLEAN, EXIT_FAILURE,
};

const SESSIONS: [SessionKind; 4] =
    [SessionKind::Snapshot, SessionKind::Poll, SessionKind::Feed, SessionKind::HealthCheck];

fn args(words: &[&str]) -> Vec<String> {
    words.iter().map(|w| w.to_string()).collect()
}

fn some(text: &str) -> Option<String> {
    Some(text.to_string())
}

#[test]
fn startup_errors_are_fatal_everywhere() {
    for session in SESSIONS {
        assert!(is_fatal(ErrorKind::Configuration, session));
        assert!(is_fatal(ErrorKind::Connection, session));
        assert!(is_fatal(ErrorKind::SubscriptionClosed, session));
    }
}

#[test]
fn failed_read_is_fatal_except_to_the_feed() {
    assert!(is_fatal(ErrorKind::Query, SessionKind::Snapshot));
    assert!(is_fatal(ErrorKind::Query, SessionKind::Poll));
    assert!(is_fatal(ErrorKind::Query, SessionKind::HealthCheck));
    assert!(!is_fatal(ErrorKind::Query, SessionKind::Feed));
}

#[test]
fn timestamp_errors_are_never_fatal() {
    for session in SESSIONS {
        assert!(!is_fatal(ErrorKind::TimestampDecode, session));
    }
}

#[test]
fn exit_codes() {
    assert_eq!(EXIT_CLEAN, 0);
    assert_eq!(EXIT_FAILURE, 1);
    assert_eq!(EXIT_USAGE, 1);
    assert_eq!(exit_code(SessionEnd::Cancelled), 0);
    for kind in [
        ErrorKind::Configuration,
        ErrorKind::Connection,
        ErrorKind::Query,
        ErrorKind::SubscriptionClosed,
        ErrorKind::TimestampDecode,
    ] {
        assert_eq!(exit_code(SessionEnd::Failed(kind)), 1);
    }
}

#[test]
fn complete_settings_make_a_configuration() {
    let config = StoreConfig::from_settings(some("mongodb://h"), some("db"), some("ops"));
    let expected = StoreConfig {
        uri: "mongodb://h".to_string(),
        database: "db".to_string(),
        collection: "ops".to_string(),
    };
    assert_eq!(config, Ok(expected));
}

#[test]
fn missing_uri_is_named() {
    assert_eq!(StoreConfig::from_settings(None, some("db"), some("ops")), Err(Setting::Uri));
}

#[test]
fn missing_database_is_named() {
    let config = StoreConfig::from_settings(some("mongodb://h"), None, some("ops"));
    assert_eq!(config, Err(Setting::Database));
}

#[test]
fn missing_collection_is_named() {
    let config = StoreConfig::from_settings(some("mongodb://h"), some("db"), None);
    assert_eq!(config, Err(Setting::Collection));
}

#[test]
fn first_missing_setting_is_named() {
    assert_eq!(StoreConfig::from_settings(None, None, None), Err(Setting::Uri));
    assert_eq!(StoreConfig::from_settings(some("u"), None, None), Err(Setting::Database));
    assert_eq!(StoreConfig::from_settings(None, None, some("c")), Err(Setting::Uri));
}

#[test]
fn empty_settings_are_present() {
    let config = StoreConfig::from_settings(some(""), some(""), some(""));
    let expected =
        StoreConfig { uri: String::new(), database: String::new(), collection: String::new() };
    assert_eq!(config, Ok(expected));
}

#[test]
fn mode_names() {
    assert_eq!(parse_mode(&"snapshot".to_string()), Some(SessionKind::Snapshot));
    assert_eq!(parse_mode(&"poll".to_string()), Some(SessionKind::Poll));
    assert_eq!(parse_mode(&"feed".to_string()), Some(SessionKind::Feed));
    assert_eq!(parse_mode(&"health-check".to_string()), Some(SessionKind::HealthCheck));
    assert_eq!(parse_mode(&"Poll".to_string()), None);
    assert_eq!(parse_mode(&"".to_string()), None);
    assert_eq!(parse_mode(&"healthcheck".to_string()), None);
}

#[test]
fn filter_names() {
    assert_eq!(parse_filter(&"insert".to_string()), Some(ChangeEventType::Insert));
    assert_eq!(parse_filter(&"update".to_string()), Some(ChangeEventType::Update));
    assert_eq!(parse_filter(&"all".to_string()), Some(ChangeEventType::All));
    assert_eq!(parse_filter(&"delete".to_string()), None);
    assert_eq!(parse_filter(&" all".to_string()), None);
}

#[test]
fn filter_defaults_to_all() {
    for (word, session) in [
        ("snapshot", SessionKind::Snapshot),
        ("poll", SessionKind::Poll),
        ("feed", SessionKind::Feed),
        ("health-check", SessionKind::HealthCheck),
    ] {
        let expected = Command { session, filter: ChangeEventType::All };
        assert_eq!(parse_command(&args(&[word])), Ok(expected));
    }
}

#[test]
fn poll_and_feed_take_a_filter() {
    let expected = Command { session: SessionKind::Feed, filter: ChangeEventType::Insert };
    assert_eq!(parse_command(&args(&["feed", "insert"])), Ok(expected));
    let expected = Command { session: SessionKind::Poll, filter: ChangeEventType::Update };
    assert_eq!(parse_command(&args(&["poll", "update"])), Ok(expected));
    let expected = Command { session: SessionKind::Feed, filter: ChangeEventType::All };
    assert_eq!(parse_command(&args(&["feed", "all"])), Ok(expected));
}

#[test]
fn refused_command_lines() {
    assert_eq!(parse_command(&args(&[])), Err(UsageError::MissingMode));
    assert_eq!(parse_command(&args(&["watch"])), Err(UsageError::UnknownMode));
    assert_eq!(parse_command(&args(&["watch", "all"])), Err(UsageError::UnknownMode));
    assert_eq!(parse_command(&args(&["feed", "delete"])), Err(UsageError::UnknownFilter));
    assert_eq!(parse_command(&args(&["snapshot", "all"])), Err(UsageError::TooManyArguments));
    assert_eq!(parse_command(&args(&["health-check", "x"])), Err(UsageError::TooManyArguments));
    assert_eq!(parse_command(&args(&["poll", "all", "x"])), Err(UsageError::TooManyArguments));
    assert_eq!(parse_command(&args(&["poll", "x", "y"])), Err(UsageError::TooManyArguments));
}

#[test]
fn blank_record_has_no_attribute() {
    let record = Record::blank();
    assert_eq!(record, Record::default());
    assert_eq!(record.id, None);
    assert_eq!(record.chain_id, None);
    assert_eq!(record.user_op, None);
    assert_eq!(record.created_at, None);
    assert_eq!(record.updated_at, None);
    assert_eq!(UserOp::blank(), UserOp::default());
    assert_eq!(UserOp::blank().sender, None);
    assert_eq!(UserOp::blank().max_priority_fee_per_gas, None);
}

#[test]
fn record_ordering_predicates() {
    let at = |t: i64| Record { created_at: Some(t), ..Record::blank() };
    assert!(at(5).is_newer_than(4));
    assert!(!at(5).is_newer_than(5));
    assert!(!at(5).is_newer_than(6));
    assert!(!Record::blank().is_newer_than(i64::MIN));
    assert!(at(5).ranks_above(&at(4)));
    assert!(!at(5).ranks_above(&at(5)));
    assert!(!at(4).ranks_above(&at(5)));
    assert!(at(i64::MIN).ranks_above(&Record::blank()));
    assert!(!Record::blank().ranks_above(&at(i64::MIN)));
    assert!(!Record::blank().ranks_above(&Record::blank()));
}
