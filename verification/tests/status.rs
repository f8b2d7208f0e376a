use walrus_cli::status::{
    verified_status, BlobCertificationStatus, BlobStatus, EventId, StatusReport,
};

fn event(seq: u64) -> EventId {
    EventId { tx_digest: "8xQ".to_string(), event_seq: seq }
}

fn existent(status: BlobCertificationStatus, end_epoch: u64) -> BlobStatus {
    BlobStatus::Existent { end_epoch, status, status_event: event(end_epoch) }
}

fn report(status: BlobStatus, anchored: bool) -> StatusReport {
    StatusReport { status, anchored }
}

#[test]
fn event_is_written_with_digest_and_place() {
    assert_eq!(event(7).format(), "(tx: 8xQ, seq: 7)");
}

#[test]
fn stages_are_ordered_by_progress() {
    let registered = existent(BlobCertificationStatus::Registered, 9);
    let certified = existent(BlobCertificationStatus::Certified, 5);
    let invalid = existent(BlobCertificationStatus::Invalid, 1);
    assert!(registered.at_least(&BlobStatus::Nonexistent));
    assert!(certified.at_least(&registered));
    assert!(invalid.at_least(&certified));
    assert!(!registered.at_least(&certified));
    assert!(existent(BlobCertificationStatus::Certified, 6).at_least(&certified));
    assert!(!certified.at_least(&existent(BlobCertificationStatus::Certified, 6)));
    assert!(certified.at_least(&certified));
}

#[test]
fn no_report_gives_no_status() {
    assert_eq!(verified_status(&vec![]), None);
}

#[test]
fn reports_without_anchor_give_no_status() {
    let reports = vec![
        report(existent(BlobCertificationStatus::Certified, 5), false),
        report(existent(BlobCertificationStatus::Invalid, 5), false),
    ];
    assert_eq!(verified_status(&reports), None);
}

#[test]
fn unknown_blob_needs_no_anchor() {
    let reports = vec![report(BlobStatus::Nonexistent, false)];
    assert_eq!(verified_status(&reports), Some(0));
}

#[test]
fn most_advanced_anchored_status_is_taken() {
    let reports = vec![
        report(BlobStatus::Nonexistent, false),
        report(existent(BlobCertificationStatus::Registered, 5), true),
        report(existent(BlobCertificationStatus::Certified, 5), true),
        report(existent(BlobCertificationStatus::Registered, 9), true),
    ];
    assert_eq!(verified_status(&reports), Some(2));
}

#[test]
fn transient_invalid_state_is_passed_over() {
    let reports = vec![
        report(existent(BlobCertificationStatus::Invalid, 5), false),
        report(existent(BlobCertificationStatus::Certified, 5), true),
        report(existent(BlobCertificationStatus::Invalid, 5), false),
        report(existent(BlobCertificationStatus::Registered, 5), true),
    ];
    let choice = verified_status(&reports).unwrap();
    assert_eq!(choice, 1);
    assert_eq!(reports[choice].status, existent(BlobCertificationStatus::Certified, 5));
}

#[test]
fn anchored_invalid_state_is_taken() {
    let reports = vec![
        report(existent(BlobCertificationStatus::Certified, 5), true),
        report(existent(BlobCertificationStatus::Invalid, 5), true),
    ];
    assert_eq!(verified_status(&reports), Some(1));
}

#[test]
fn first_of_equally_advanced_reports_is_taken() {
    let reports = vec![
        report(existent(BlobCertificationStatus::Certified, 5), true),
        report(existent(BlobCertificationStatus::Certified, 5), true),
        report(existent(BlobCertificationStatus::Certified, 4), true),
    ];
    assert_eq!(verified_status(&reports), Some(0));
}

#[test]
fn later_end_epoch_wins_within_a_stage() {
    let reports = vec![
        report(existent(BlobCertificationStatus::Certified, 5), true),
        report(existent(BlobCertificationStatus::Certified, 8), true),
    ];
    assert_eq!(verified_status(&reports), Some(1));
}
