use dface::fuzzy_watch::{LogAction, Logging, Monitor, MonitorWrite, Page};

fn source(n: usize) -> String {
    let mut s = String::new();
    for i in 0..n {
        s.push_str(&format!("<li>item {} with some text {}</li>\n", i, i % 11));
    }
    s
}

#[test]
fn check_alerts_below_threshold() {
    let log = Logging::new(5, "u".to_string(), 40);
    assert!(Logging::check(&log, 50) == Some(LogAction::Alert));
    assert!(Logging::check(&Logging::new(5, "u".to_string(), 60), 70) == Some(LogAction::Alert));
}

#[test]
fn check_logs_uncertain_band() {
    assert!(Logging::check(&Logging::new(5, "u".to_string(), 60), 50) == Some(LogAction::Log));
    assert!(Logging::check(&Logging::new(5, "u".to_string(), 51), 0) == Some(LogAction::Log));
    assert!(Logging::check(&Logging::new(5, "u".to_string(), 69), 10) == Some(LogAction::Log));
}

#[test]
fn check_ignores_other_readings() {
    assert!(Logging::check(&Logging::new(5, "u".to_string(), 80), 50).is_none());
    assert!(Logging::check(&Logging::new(5, "u".to_string(), 50), 50).is_none());
    assert!(Logging::check(&Logging::new(5, "u".to_string(), 70), 50).is_none());
    assert!(Logging::check(&Logging::new(5, "u".to_string(), 100), 100).is_none());
}

#[test]
fn action_labels() {
    assert_eq!(LogAction::Alert.label(), "ALERT");
    assert_eq!(LogAction::Log.label(), "Log");
}

#[test]
fn new_monitor_is_unsaved() {
    let m = Monitor::new("http://a.test", 60, 40);
    assert_eq!(m.id, None);
    assert_eq!(m.uri, "http://a.test");
    assert_eq!((m.frequency, m.threshold), (60, 40));
    let w = Monitor::newwithid(9, "http://b.test", 30, 20);
    assert_eq!(w.id, Some(9));
}

#[test]
fn save_inserts_then_updates() {
    let mut m = Monitor::new("http://a.test", 60, 40);
    match m.save_write() {
        MonitorWrite::Insert { uri, frequency } => {
            assert_eq!(uri, "http://a.test");
            assert_eq!(frequency, 60);
        }
        MonitorWrite::Update { .. } => panic!("expected an insert"),
    }
    m.record_insert(12);
    assert_eq!(m.id, Some(12));
    match m.save_write() {
        MonitorWrite::Update { uri, frequency, id } => {
            assert_eq!((uri.as_str(), frequency, id), ("http://a.test", 60, 12));
        }
        MonitorWrite::Insert { .. } => panic!("expected an update"),
    }
}

#[test]
fn repr_lists_uris_in_order() {
    let ms = vec![Monitor::new("a", 1, 1), Monitor::newwithid(2, "b", 1, 1), Monitor::new("c", 1, 1)];
    assert_eq!(Monitor::repr(ms), vec!["a".to_string(), "b".to_string(), "c".to_string()]);
    assert!(Monitor::repr(vec![]).is_empty());
}

#[test]
fn describe_matches_display_format() {
    let mut m = Monitor::new("http://a.test/\"x\"", -5, 40);
    assert_eq!(m.describe(), format!("id:{:?}, uri:{:?}, frequency:{:?}", None::<i64>, m.uri, -5i64));
    m.record_insert(i64::MIN);
    assert_eq!(m.describe(), format!("id:{:?}, uri:{:?}, frequency:{:?}", Some(i64::MIN), m.uri, -5i64));
    let w = Monitor::newwithid(31, "http://b.test", 3600, 1);
    assert_eq!(w.describe(), "id:Some(31), uri:\"http://b.test\", frequency:3600");
}

#[test]
fn page_hashes_its_source() {
    let body = source(300);
    let p = Page::new("http://a.test", body.clone(), 1234);
    assert_eq!(p.uri, Some("http://a.test".to_string()));
    assert_eq!(p.timestamp, 1234);
    assert_eq!(p.sshash, ssdeep::hash_buf(body.as_bytes()).unwrap().to_string());
    assert_eq!(Page::hashvalues(&body), p.sshash);
}

#[test]
fn unchanged_page_reads_full_similarity() {
    let m = Monitor::newwithid(1, "http://a.test", 60, 80);
    let stored = Page::new("http://a.test", source(300), 10);
    let fresh = Page::new("http://a.test", source(300), 20);
    let (log, action) = Page::compare(&m, &stored, &fresh).unwrap();
    assert_eq!(log.similarity, 100);
    assert_eq!(log.timestamp, 20);
    assert_eq!(log.uri, "http://a.test");
    assert!(action.is_none());
}

#[test]
fn changed_page_reads_ssdeep_score() {
    let m = Monitor::newwithid(1, "http://a.test", 60, 80);
    let stored = Page::new("http://a.test", source(300), 10);
    let fresh = Page::new("http://a.test", source(90), 20);
    let (log, action) = Page::compare(&m, &stored, &fresh).unwrap();
    let score = ssdeep::compare(&stored.sshash, &fresh.sshash).unwrap();
    assert_eq!(log.similarity, score);
    assert!(action == Logging::check(&log, 80));
}

#[test]
fn compare_picks_log_row_by_threshold() {
    let stored = Page::new("http://a.test", source(300), 10);
    let fresh = Page::new("http://a.test", source(300), 20);
    let strict = Monitor::newwithid(1, "http://a.test", 60, 101);
    let (_, action) = Page::compare(&strict, &stored, &fresh).unwrap();
    assert!(action == Some(LogAction::Alert));
    let mut other = Page::new("http://a.test", source(300), 30);
    other.sshash = "6:3ll7QzDkmQjmMoDHglHOxPWT0lT0lT0lB:VqDk+n".to_string();
    let mut base = Page::new("http://a.test", source(300), 5);
    base.sshash = "6:3ll7QzDkmJmMHkQoO/llSZEnEuLszmbMAWn:VqDk5QtLbW".to_string();
    let lax = Monitor::newwithid(1, "http://a.test", 60, 10);
    let (log, action) = Page::compare(&lax, &base, &other).unwrap();
    assert_eq!(log.similarity, 46);
    assert!(action.is_none());
    let mid = Monitor::newwithid(1, "http://a.test", 60, 40);
    let (_, action) = Page::compare(&mid, &base, &other).unwrap();
    assert!(action.is_none());
    let alerting = Monitor::newwithid(1, "http://a.test", 60, 47);
    let (_, action) = Page::compare(&alerting, &base, &other).unwrap();
    assert!(action == Some(LogAction::Alert));
}

#[test]
fn unreadable_hash_gives_no_reading() {
    let m = Monitor::new("u", 60, 80);
    let stored = Page { uri: None, html: String::new(), timestamp: 1, sshash: "nonsense".to_string() };
    let fresh = Page::new("u", source(10), 2);
    assert!(Page::compare(&m, &stored, &fresh).is_none());
}

#[test]
fn oldest_sample_subtracts_frequency() {
    assert_eq!(Page::oldest_sample(1000, 600), 400);
    assert_eq!(Page::oldest_sample(-5, 10), -15);
}

#[test]
fn sample_key_needs_uri() {
    let p = Page::new("http://a.test", source(5), 77);
    assert_eq!(p.sample_key(), Some((77, "http://a.test".to_string())));
    let q = Page { uri: None, html: String::new(), timestamp: 1, sshash: String::new() };
    assert_eq!(q.sample_key(), None);
}

#[test]
fn retention_is_one_month() {
    assert_eq!(Page::retention_cutoff(3_000_000), 3_000_000 - 2_629_743);
    assert_eq!(dface::fuzzy_watch::SAMPLE_RETENTION, 2_629_743);
}
