use codlinux::updater::{
    check, check_update, decide_update, fetch_failure, format_changelog, is_newer,
    process_inline_code, progress_label, Asset, CheckError, DownloadProgress, FetchFailure,
    Instant, UpdateRelease, FULL,
};

const BUILT: &str = "2025-03-01T12:00:00Z";

#[test]
fn parse_reads_seconds_and_nanoseconds() {
    assert_eq!(Instant::parse("1970-01-01T00:00:00Z"), Some(Instant { secs: 0, nanos: 0 }));
    assert_eq!(
        Instant::parse("2001-09-09T01:46:40.5Z"),
        Some(Instant { secs: 1_000_000_000, nanos: 500_000_000 })
    );
    assert_eq!(
        Instant::parse("1970-01-01T01:00:00+01:00"),
        Some(Instant { secs: 0, nanos: 0 })
    );
    assert_eq!(
        Instant::parse("1969-12-31T23:59:59.25Z"),
        Some(Instant { secs: -1, nanos: 250_000_000 })
    );
}

#[test]
fn parse_refuses_what_is_no_date() {
    assert_eq!(Instant::parse(""), None);
    assert_eq!(Instant::parse("yesterday"), None);
    assert_eq!(Instant::parse("2025-03-01"), None);
    assert_eq!(Instant::parse("2025-13-01T00:00:00Z"), None);
}

#[test]
fn release_at_or_before_build_time_is_no_update() {
    assert_eq!(check_update(BUILT, BUILT), Ok(false));
    assert_eq!(check_update("2025-03-01T11:59:59Z", BUILT), Ok(false));
    assert_eq!(check_update("2020-01-01T00:00:00Z", BUILT), Ok(false));
}

#[test]
fn release_within_the_threshold_is_no_update() {
    assert_eq!(check_update("2025-03-01T12:00:01Z", BUILT), Ok(false));
    assert_eq!(check_update("2025-03-01T12:04:59Z", BUILT), Ok(false));
    assert_eq!(check_update("2025-03-01T12:04:59.999999999Z", BUILT), Ok(false));
}

#[test]
fn release_exactly_at_the_threshold_is_no_update() {
    assert_eq!(check_update("2025-03-01T12:05:00Z", BUILT), Ok(false));
    assert_eq!(check_update("2025-03-01T13:05:00+01:00", BUILT), Ok(false));
}

#[test]
fn release_past_the_threshold_is_an_update() {
    assert_eq!(check_update("2025-03-01T12:05:00.000000001Z", BUILT), Ok(true));
    assert_eq!(check_update("2025-03-01T12:05:01Z", BUILT), Ok(true));
    assert_eq!(check_update("2026-01-01T00:00:00Z", BUILT), Ok(true));
}

#[test]
fn is_newer_at_the_edges_of_the_threshold() {
    let built = Instant { secs: 100, nanos: 999_999_999 };
    assert!(!is_newer(Instant { secs: 400, nanos: 999_999_999 }, built));
    assert!(!is_newer(Instant { secs: 400, nanos: 999_999_998 }, built));
    assert!(is_newer(Instant { secs: 401, nanos: 0 }, built));
    assert!(!is_newer(built, Instant { secs: 401, nanos: 0 }));
    let far = Instant { secs: i64::MAX, nanos: u32::MAX };
    let near = Instant { secs: i64::MIN, nanos: 0 };
    assert!(is_newer(far, near));
    assert!(!is_newer(near, far));
}

#[test]
fn a_bad_time_is_an_error_of_its_own() {
    assert_eq!(check_update("soon", BUILT), Err(CheckError::BadReleaseTime));
    assert_eq!(check_update(BUILT, "then"), Err(CheckError::BadBuildTime));
    assert_eq!(check_update("soon", "then"), Err(CheckError::BadReleaseTime));
    assert_eq!(decide_update(None, None), Err(CheckError::BadReleaseTime));
    assert_eq!(decide_update(Some(Instant { secs: 0, nanos: 0 }), None), Err(CheckError::BadBuildTime));
}

#[test]
fn inline_code_is_set_in_monospace() {
    assert_eq!(process_inline_code("run ``make`` now"), "run <tt>make</tt> now");
    assert_eq!(process_inline_code("plain"), "plain");
    assert_eq!(process_inline_code(""), "");
    assert_eq!(process_inline_code("``a`` and ``b``"), "<tt>a</tt> and <tt>b</tt>");
    assert_eq!(process_inline_code("open ``never closed"), "open <tt>never closed</tt>");
    assert_eq!(process_inline_code("````"), "<tt></tt>");
    assert_eq!(process_inline_code("a`b"), "a`b");
    assert_eq!(process_inline_code("```x"), "<tt>`x</tt>");
}

#[test]
fn changelog_drops_the_title_and_marks_up_the_rest() {
    let body = "Release 1.2\r\n## Fixed\r\n- crash in ``launch``\r\n\r\nThanks to all   \r\n";
    assert_eq!(
        format_changelog(body),
        "<b>Fixed</b>\n\n\u{2022} crash in <tt>launch</tt>\n\nThanks to all\n"
    );
}

#[test]
fn changelog_of_little() {
    assert_eq!(format_changelog(""), "");
    assert_eq!(format_changelog("only a title"), "");
    assert_eq!(format_changelog("title\n"), "");
    assert_eq!(format_changelog("title\n\n"), "\n");
    assert_eq!(format_changelog("t\n##no blank"), "##no blank\n");
    assert_eq!(format_changelog("t\n-x\n- "), "-x\n-\n");
    assert_eq!(format_changelog("t\n## "), "##\n");
    assert_eq!(format_changelog("t\n## a ``b``"), "<b>a ``b``</b>\n\n");
    assert_eq!(format_changelog("t\n  - indented"), "  - indented\n");
}

#[test]
fn check_gives_the_decision_and_the_changelog() {
    let release = UpdateRelease {
        published_at: "2025-03-02T00:00:00Z".to_string(),
        notes: "v2\n- new".to_string(),
        asset: Some(Asset { url: "https://example.invalid/a".to_string(), size: 10 }),
    };
    assert_eq!(check(&release, BUILT), Ok((true, "\u{2022} new\n".to_string())));
    assert_eq!(check(&release, "2025-03-02T00:00:00Z"), Ok((false, "\u{2022} new\n".to_string())));
    assert_eq!(check(&release, "?"), Err(CheckError::BadBuildTime));
}

#[test]
fn progress_starts_at_zero_and_never_goes_down() {
    let mut p = DownloadProgress::start(1000);
    assert_eq!((p.downloaded, p.total, p.ppm()), (0, 1000, 0));
    let mut last = p.ppm();
    for chunk in [1u64, 0, 499, 250, 249, 1] {
        p.advance(chunk);
        assert!(p.ppm() >= last);
        last = p.ppm();
    }
    assert_eq!(p.downloaded, 1000);
    assert_eq!(p.ppm(), FULL);
    assert!(p.is_complete());
}

#[test]
fn fraction_is_one_only_when_all_is_written() {
    let mut p = DownloadProgress::start(3);
    p.advance(2);
    assert_eq!(p.ppm(), 666_666);
    assert!(!p.is_complete());
    p.advance(1);
    assert_eq!(p.ppm(), 1_000_000);
    let mut q = DownloadProgress::start(u64::MAX);
    q.advance(u64::MAX - 1);
    assert_eq!(q.ppm(), 999_999);
    q.advance(1);
    assert_eq!(q.ppm(), 1_000_000);
}

#[test]
fn fraction_of_an_unknown_size_is_zero() {
    let mut p = DownloadProgress::start(0);
    p.advance(500);
    assert_eq!(p.ppm(), 0);
}

#[test]
fn progress_saturates() {
    let mut p = DownloadProgress::start(1);
    p.advance(u64::MAX);
    p.advance(u64::MAX);
    assert_eq!(p.downloaded, u64::MAX);
    assert_eq!(p.ppm(), u64::MAX);
}

#[test]
fn label_shows_both_sizes_in_mebibytes() {
    let p = DownloadProgress { downloaded: 1_572_864, total: 10_485_760 };
    assert_eq!(progress_label(&p), "1.50/10.00 MB");
    let p = DownloadProgress { downloaded: 0, total: 0 };
    assert_eq!(progress_label(&p), "0.00/0.00 MB");
    let p = DownloadProgress { downloaded: 5242, total: 5243 };
    assert_eq!(progress_label(&p), "0.00/0.01 MB");
    let p = DownloadProgress { downloaded: 1_048_576 * 123 + 52_429, total: u64::MAX };
    assert_eq!(progress_label(&p), "123.05/17592186044416.00 MB");
}

#[test]
fn each_kind_of_network_failure_has_its_own_words() {
    assert_eq!(fetch_failure(FetchFailure::Timeout, "deadline"), "request timed out: deadline");
    assert_eq!(fetch_failure(FetchFailure::Status, "404 Not Found"), "the server refused: 404 Not Found");
    assert_eq!(fetch_failure(FetchFailure::Other, "dns"), "request failed: dns");
    assert_eq!(fetch_failure(FetchFailure::Other, ""), "request failed: ");
}
