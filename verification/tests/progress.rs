use youwee::progress::parse_progress;

#[test]
fn progress_line_with_speed_and_eta() {
    let update = parse_progress("[download]  45.3% of 10.00MiB at 1.50MiB/s ETA 00:05").expect("progress");
    assert_eq!(update.percent, "45.3");
    assert_eq!(update.speed, "1.50MiB/s");
    assert_eq!(update.eta, "00:05");
    assert_eq!(update.playlist_index, None);
    assert_eq!(update.downloaded_size, None);
}

#[test]
fn progress_line_with_percent_only() {
    let update = parse_progress("[download]  12% of ~ 3.00MiB").expect("progress");
    assert_eq!(update.percent, "12");
    assert_eq!(update.speed, "");
    assert_eq!(update.eta, "");
}

#[test]
fn live_fragment_progress_has_size_and_elapsed_time() {
    let update = parse_progress("[download]    2.87MiB at  506.63KiB/s (00:00:07) (frag 91/2097)")
        .expect("live progress");
    assert_eq!(update.percent, "0");
    assert_eq!(update.speed, "506.63KiB/s");
    assert_eq!(update.eta, "");
    assert_eq!(update.downloaded_size.as_deref(), Some("2.87MiB"));
    assert_eq!(update.elapsed_time.as_deref(), Some("00:00:07"));
}

#[test]
fn playlist_position_comes_with_the_progress_of_the_same_line() {
    let update = parse_progress("[download] Downloading item 3 of 10 5.0% at 1MiB/s").expect("progress");
    assert_eq!(update.playlist_index, Some(3));
    assert_eq!(update.playlist_count, Some(10));
    assert_eq!(update.percent, "5.0");
}

#[test]
fn lines_without_progress_tell_nothing() {
    assert!(parse_progress("[download] Downloading item 3 of 10").is_none());
    assert!(parse_progress("[info] Writing video metadata").is_none());
    assert!(parse_progress("50% done").is_none());
}

#[test]
fn percentages_in_other_scripts_digits_are_not_read() {
    assert!(parse_progress("[download]  ٤٥% of 10.00MiB at 1.50MiB/s").is_none());
    assert!(parse_progress("[download]  ٤٥%").is_none());
}
