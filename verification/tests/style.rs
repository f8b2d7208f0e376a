use walrus_cli::blob_id::BlobId;
use walrus_cli::output::{output_string, BlobIdOutput, BlobStatusOutput};
use walrus_cli::status::{BlobCertificationStatus, BlobStatus, EventId};
use walrus_cli::style::{bold, error, report_failure, success};

#[test]
fn painting_follows_the_colour_switch() {
    colored::control::set_override(true);
    assert_eq!(success(), "\u{1b}[1;32mSuccess:\u{1b}[0m");
    assert_eq!(error(), "\u{1b}[1;31mError:\u{1b}[0m");
    assert_eq!(bold("Certified"), "\u{1b}[1mCertified\u{1b}[0m");
    let id = BlobId { bytes: [0u8; 32] };
    assert_eq!(
        output_string(&BlobIdOutput::new("a.bin", id, 5), false),
        "\u{1b}[1;32mSuccess:\u{1b}[0m Blob encoded successfully: a.bin.\nUnencoded size: 5\nBlob ID: AAAAAAAAAAAAAAAAAAAAAAAAAAAAAAAAAAAAAAAAAAA"
    );
    let status = BlobStatusOutput {
        blob_id: id,
        file: None,
        status: BlobStatus::Existent {
            end_epoch: 2,
            status: BlobCertificationStatus::Invalid,
            status_event: EventId { tx_digest: "d".to_string(), event_seq: 0 },
        },
    };
    assert_eq!(
        output_string(&status, false),
        "Status for blob ID AAAAAAAAAAAAAAAAAAAAAAAAAAAAAAAAAAAAAAAAAAA: \u{1b}[1mInvalid\u{1b}[0m\nEnd epoch: 2\nRelated event: (tx: d, seq: 0)"
    );

    assert_eq!(report_failure("no such file"), "\u{1b}[1;31mError:\u{1b}[0m no such file");

    colored::control::set_override(false);
    assert_eq!(report_failure("no such file"), "Error: no such file");
    assert_eq!(success(), "Success:");
    assert_eq!(error(), "Error:");
    assert_eq!(bold("Certified"), "Certified");
    assert_eq!(
        output_string(&BlobIdOutput::new("a.bin", id, 5), false),
        "Success: Blob encoded successfully: a.bin.\nUnencoded size: 5\nBlob ID: AAAAAAAAAAAAAAAAAAAAAAAAAAAAAAAAAAAAAAAAAAA"
    );
    colored::control::unset_override();
}
