use ticket_scanner::records::{InsertOutcome, ScanRecord};
use ticket_scanner::scanner::{BannerKind, ScannerState, Status, SubmitRequest};

fn fresh(now: u64) -> ScannerState {
    ScannerState::new(Some(5), Some(Vec::new()), Some(2), now)
}

fn entered(s: &mut ScannerState, text: &str, now: u64) -> SubmitRequest {
    s.type_text(text);
    s.begin_submit(now)
}

#[test]
fn start_up_defaults() {
    let s = ScannerState::new(None, None, None, 7);
    assert_eq!(s.total, 0);
    assert!(s.recent.is_empty());
    assert_eq!(s.recent_count, 0);
    assert!(matches!(s.status, Status::Idle));
    assert_eq!(s.last_stats_refresh, 7);
    assert_eq!(s.input, "");
    let rec = vec![ScanRecord { ticket_number: 1001, scanned_at: "x".into() }];
    let s = ScannerState::new(Some(3), Some(rec), Some(1), 0);
    assert_eq!((s.total, s.recent.len(), s.recent_count), (3, 1, 1));
}

#[test]
fn submit_reads_digits_of_trimmed_entry() {
    let mut s = fresh(0);
    match entered(&mut s, "  QR-1234 \n", 100) {
        SubmitRequest::Store { ticket, force, raw } => {
            assert_eq!(ticket, 1234);
            assert!(!force);
            assert_eq!(raw, "QR-1234");
        }
        other => panic!("{other:?}"),
    }
    assert_eq!(s.input, "");
    assert!(matches!(s.status, Status::Idle));
}

#[test]
fn blank_entry_does_nothing() {
    let mut s = fresh(0);
    assert!(matches!(entered(&mut s, "  \t", 5), SubmitRequest::Empty));
    assert_eq!(s.input, "");
    assert!(s.status_at.is_none());
}

#[test]
fn entry_without_number_is_refused() {
    let mut s = fresh(0);
    match entered(&mut s, " abc ", 50) {
        SubmitRequest::NotANumber { raw } => assert_eq!(raw, "abc"),
        other => panic!("{other:?}"),
    }
    match &s.status {
        Status::Error(m) => assert_eq!(m, "Not a valid number: abc"),
        other => panic!("{other:?}"),
    }
    assert_eq!(s.status_at, Some(50));
    let b = s.banner();
    assert_eq!(b.kind, BannerKind::Warning);
    assert_eq!(b.text, "\u{26A0}\u{FE0F}  Not a valid number: abc");
}

#[test]
fn too_large_number_is_refused() {
    let mut s = fresh(0);
    assert!(matches!(entered(&mut s, "99999999999999999999", 1), SubmitRequest::NotANumber { .. }));
}

#[test]
fn numbers_below_1000_are_refused() {
    let mut s = fresh(0);
    match entered(&mut s, "999", 9) {
        SubmitRequest::BelowMinimum { ticket, raw } => {
            assert_eq!(ticket, 999);
            assert_eq!(raw, "999");
        }
        other => panic!("{other:?}"),
    }
    assert_eq!(s.banner().text, "\u{26A0}\u{FE0F}  Ticket #999 rejected: tickets start at 1000");
    assert!(matches!(entered(&mut s, "1000", 10), SubmitRequest::Store { ticket: 1000, .. }));
}

#[test]
fn accepted_scan_banner_and_refresh() {
    let mut s = fresh(0);
    assert!(s.finish_submit(1234, Ok(InsertOutcome::New), 1000));
    assert!(matches!(s.status, Status::Success(1234)));
    assert_eq!(s.status_at, Some(1000));
    let b = s.banner();
    assert_eq!(b.kind, BannerKind::Accepted);
    assert_eq!(b.text, "\u{2705}  ACCEPTED \u{2014} Ticket #1234");
    assert!(s.finish_submit(1234, Ok(InsertOutcome::DuplicateForced), 1001));
    assert!(matches!(s.status, Status::Success(1234)));
}

#[test]
fn duplicate_banner() {
    let mut s = fresh(0);
    assert!(!s.finish_submit(1234, Ok(InsertOutcome::Duplicate), 1000));
    let b = s.banner();
    assert_eq!(b.kind, BannerKind::Duplicate);
    assert_eq!(b.text, "\u{26A0}\u{FE0F}  DUPLICATE! Ticket #1234 has already been scanned!");
}

#[test]
fn store_error_banner() {
    let mut s = fresh(0);
    assert!(!s.finish_submit(1234, Err("disk I/O error".to_string()), 3));
    assert_eq!(s.banner().text, "\u{26A0}\u{FE0F}  DB error: disk I/O error");
}

#[test]
fn ready_banner() {
    let s = fresh(0);
    let b = s.banner();
    assert_eq!(b.kind, BannerKind::Ready);
    assert_eq!(b.text, "Ready \u{2014} scan a ticket or enter a number below");
}

#[test]
fn duplicate_banner_holds_eight_seconds() {
    let mut s = fresh(0);
    s.finish_submit(1234, Ok(InsertOutcome::Duplicate), 10_000);
    s.tick(18_000);
    assert!(matches!(s.status, Status::Duplicate(1234)));
    s.tick(18_001);
    assert!(matches!(s.status, Status::Idle));
    assert!(s.status_at.is_none());
}

#[test]
fn other_banners_hold_four_seconds() {
    let mut s = fresh(0);
    s.finish_submit(1234, Ok(InsertOutcome::New), 10_000);
    s.tick(14_000);
    assert!(matches!(s.status, Status::Success(1234)));
    s.tick(14_001);
    assert!(matches!(s.status, Status::Idle));
}

#[test]
fn override_window_lasts_five_minutes() {
    let mut s = fresh(0);
    assert!(!s.dup_override_active(0));
    assert_eq!(s.override_label(0), "ALLOW DUPLICATES (5 min)");
    s.enable_dup_override(1_000);
    assert!(s.dup_override_active(1_000));
    assert_eq!(s.dup_override_remaining(1_000), Some(300_000));
    assert_eq!(s.override_label(1_000), "ALLOWING DUPLICATES  05:00");
    assert_eq!(s.override_label(62_500), "ALLOWING DUPLICATES  03:58");
    assert!(s.dup_override_active(300_999));
    assert!(!s.dup_override_active(301_000));
    assert_eq!(s.dup_override_remaining(301_000), None);
    let t = s.tick(300_999);
    assert!(!t.override_expired);
    let t = s.tick(301_000);
    assert!(t.override_expired);
    assert!(s.allow_dup_until.is_none());
}

#[test]
fn override_forces_duplicates() {
    let mut s = fresh(0);
    s.enable_dup_override(0);
    assert!(matches!(entered(&mut s, "1234", 10), SubmitRequest::Store { force: true, .. }));
    assert!(matches!(entered(&mut s, "1234", 300_000), SubmitRequest::Store { force: false, .. }));
}

#[test]
fn stats_refresh_every_thirty_seconds() {
    let mut s = fresh(1_000);
    assert!(!s.tick(31_000).refresh_due);
    assert!(s.tick(31_001).refresh_due);
    s.refresh_stats(None, None, None, 31_001);
    assert_eq!(s.total, 5);
    assert!(s.recent.is_empty());
    assert_eq!(s.recent_count, 0);
    assert!(!s.tick(40_000).refresh_due);
    let rec = vec![ScanRecord { ticket_number: 2000, scanned_at: "t".into() }];
    s.refresh_stats(Some(9), Some(rec), Some(4), 50_000);
    assert_eq!((s.total, s.recent.len(), s.recent_count, s.last_stats_refresh), (9, 1, 4, 50_000));
}

#[test]
fn editing_the_entry() {
    let mut s = fresh(0);
    assert_eq!(s.input_display(), "_ _ _ _");
    s.type_text("12");
    s.type_text("3");
    assert_eq!(s.input_display(), "123");
    s.delete_last();
    assert_eq!(s.input, "12");
    s.clear_input();
    assert_eq!(s.input, "");
    s.delete_last();
    assert_eq!(s.input, "");
}

#[test]
fn keys_of_a_frame() {
    let mut s = fresh(0);
    assert!(matches!(s.handle_keys("12", false, false, 0), SubmitRequest::Empty));
    assert_eq!(s.input, "12");
    assert!(matches!(s.handle_keys("34", true, false, 0), SubmitRequest::Empty));
    assert_eq!(s.input, "");
    match s.handle_keys("4321", false, true, 5) {
        SubmitRequest::Store { ticket, .. } => assert_eq!(ticket, 4321),
        other => panic!("{other:?}"),
    }
    assert_eq!(s.input, "");
}

#[test]
fn shown_numbers_read_back() {
    for n in [1000i64, 4242, 987654321, i64::MAX] {
        let mut s = fresh(0);
        let shown = ticket_scanner::text::i64_text(n);
        match entered(&mut s, &shown, 1) {
            SubmitRequest::Store { ticket, .. } => assert_eq!(ticket, n),
            other => panic!("{other:?}"),
        }
    }
}
