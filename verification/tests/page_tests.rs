use geopage::config::Configuration;
use geopage::context::build_context;
use geopage::context::RenderContext;
use geopage::page::index_page;
use geopage::page::outcome_for;
use geopage::page::PageOutcome;
use geopage::page::STATUS_INTERNAL_ERROR;
use geopage::page::STATUS_OK;
use geopage::snapshot::FileTime;
use geopage::snapshot::Snapshot;
use geopage::snapshot::SnapshotError;

fn san_francisco() -> Configuration {
    Configuration::new(
        37.7749f64.to_string(),
        (-122.4194f64).to_string(),
        "./reading.txt".to_string(),
    )
}

fn context_of_page(out: PageOutcome) -> RenderContext {
    match out {
        PageOutcome::Render { template, context } => {
            assert_eq!(template, "index");
            context
        }
        PageOutcome::Failure { status, cause } => {
            panic!("no page: status {} ({:?})", status, cause)
        }
    }
}

fn failure_of_page(out: PageOutcome) -> (u16, SnapshotError) {
    match out {
        PageOutcome::Render { .. } => panic!("a page where a failure was due"),
        PageOutcome::Failure { status, cause } => (status, cause),
    }
}

#[test]
fn configuration_keeps_what_it_was_given() {
    let cfg = san_francisco();
    assert_eq!(cfg.latitude, "37.7749");
    assert_eq!(cfg.longitude, "-122.4194");
    assert_eq!(cfg.data_path, "./reading.txt");
}

#[test]
fn reading_of_the_first_of_march() {
    let cfg = san_francisco();
    let modified = FileTime { before_epoch: false, secs: 1_709_294_400, nanos: 120_000_000 };
    let out = index_page(&cfg, Some(b"42.0".to_vec()), Some(modified));
    assert_eq!(out.status(), 200);
    let ctx = context_of_page(out);
    assert_eq!(ctx.latitude, "37.7749");
    assert_eq!(ctx.longitude, "-122.4194");
    assert_eq!(ctx.data, "42.0");
    assert_eq!(ctx.time, "2024-03-01");
}

#[test]
fn context_has_four_entries_in_order() {
    let ctx = RenderContext {
        latitude: "1.5".to_string(),
        longitude: "-2".to_string(),
        data: "wet".to_string(),
        time: "1999-12-31".to_string(),
    };
    let pairs = ctx.entries();
    assert_eq!(
        pairs,
        vec![
            ("latitude", "1.5".to_string()),
            ("longitude", "-2".to_string()),
            ("data", "wet".to_string()),
            ("time", "1999-12-31".to_string()),
        ]
    );
}

#[test]
fn context_names_are_all_different() {
    let ctx = RenderContext {
        latitude: String::new(),
        longitude: String::new(),
        data: String::new(),
        time: String::new(),
    };
    let pairs = ctx.entries();
    assert_eq!(pairs.len(), 4);
    for i in 0..pairs.len() {
        for j in 0..i {
            assert_ne!(pairs[i].0, pairs[j].0);
        }
    }
}

#[test]
fn build_context_changes_nothing() {
    let cfg = Configuration::new("-0".to_string(), "NaN".to_string(), "d".to_string());
    let snap = Snapshot {
        contents: "<script>alert(1)</script> & \"more\"\n".to_string(),
        modified: "2001-07-08".to_string(),
    };
    let ctx = build_context(&cfg, snap);
    assert_eq!(ctx.latitude, "-0");
    assert_eq!(ctx.longitude, "NaN");
    assert_eq!(ctx.data, "<script>alert(1)</script> & \"more\"\n");
    assert_eq!(ctx.time, "2001-07-08");
}

#[test]
fn build_context_leaves_the_configuration_as_it_was() {
    let cfg = san_francisco();
    let snap = Snapshot { contents: "a".to_string(), modified: "2024-03-01".to_string() };
    let _ = build_context(&cfg, snap);
    assert_eq!(cfg.latitude, "37.7749");
    assert_eq!(cfg.longitude, "-122.4194");
}

#[test]
fn whole_numbers_show_without_a_fraction() {
    let cfg = Configuration::new(52f64.to_string(), (-0.5f64).to_string(), "f".to_string());
    let ctx = context_of_page(index_page(&cfg, Some(Vec::new()), Some(FileTime::after_epoch(0))));
    assert_eq!(ctx.latitude, "52");
    assert_eq!(ctx.longitude, "-0.5");
    assert_eq!(ctx.data, "");
    assert_eq!(ctx.time, "1970-01-01");
}

#[test]
fn outcome_for_a_snapshot_is_the_index_page() {
    let cfg = san_francisco();
    let snap = Snapshot { contents: "7".to_string(), modified: "2020-01-05".to_string() };
    let out = outcome_for(&cfg, Ok(snap));
    assert_eq!(out.status(), STATUS_OK);
    let ctx = context_of_page(out);
    assert_eq!(ctx.data, "7");
    assert_eq!(ctx.time, "2020-01-05");
}

#[test]
fn outcome_for_each_failure_is_status_500() {
    let cfg = san_francisco();
    for cause in [SnapshotError::Unreadable, SnapshotError::NotText, SnapshotError::TimeOutOfRange] {
        let out = outcome_for(&cfg, Err(cause));
        assert_eq!(out.status(), 500);
        assert_eq!(failure_of_page(out), (STATUS_INTERNAL_ERROR, cause));
    }
}

#[test]
fn missing_file_is_answered_with_status_500() {
    let cfg = san_francisco();
    let out = index_page(&cfg, None, None);
    assert_eq!(failure_of_page(out), (500, SnapshotError::Unreadable));
}

#[test]
fn file_that_is_not_text_is_answered_with_status_500() {
    let cfg = san_francisco();
    let out = index_page(&cfg, Some(vec![0x34, 0xFF]), Some(FileTime::after_epoch(1_709_251_200)));
    assert_eq!(failure_of_page(out), (500, SnapshotError::NotText));
}

#[test]
fn time_beyond_the_calendar_is_answered_with_status_500() {
    let cfg = san_francisco();
    let far = FileTime { before_epoch: false, secs: u64::MAX, nanos: 0 };
    let out = index_page(&cfg, Some(b"42.0".to_vec()), Some(far));
    assert_eq!(failure_of_page(out), (500, SnapshotError::TimeOutOfRange));
}

#[test]
fn failure_does_not_outlast_its_request() {
    let cfg = san_francisco();
    let modified = Some(FileTime::after_epoch(1_709_251_200));
    let before = context_of_page(index_page(&cfg, Some(b"42.0".to_vec()), modified));
    assert_eq!(before.data, "42.0");
    let gone = index_page(&cfg, None, None);
    assert_eq!(failure_of_page(gone), (500, SnapshotError::Unreadable));
    let back = context_of_page(index_page(&cfg, Some(b"42.0".to_vec()), modified));
    assert_eq!(back.entries(), before.entries());
}

#[test]
fn same_file_same_answer() {
    let cfg = san_francisco();
    let modified = Some(FileTime::after_epoch(1_709_251_200));
    let a = context_of_page(index_page(&cfg, Some(b"42.0\n".to_vec()), modified));
    let b = context_of_page(index_page(&cfg, Some(b"42.0\n".to_vec()), modified));
    assert_eq!(a.entries(), b.entries());
    assert_eq!(a.data, "42.0\n");
}

#[test]
fn changed_file_shows_on_the_next_request() {
    let cfg = san_francisco();
    let a = context_of_page(index_page(
        &cfg,
        Some(b"42.0".to_vec()),
        Some(FileTime::after_epoch(1_709_251_200)),
    ));
    let b = context_of_page(index_page(
        &cfg,
        Some(b"43.5".to_vec()),
        Some(FileTime::after_epoch(1_709_337_600)),
    ));
    assert_eq!(a.data, "42.0");
    assert_eq!(a.time, "2024-03-01");
    assert_eq!(b.data, "43.5");
    assert_eq!(b.time, "2024-03-02");
}
