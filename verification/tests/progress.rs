use tabby_download::error::{DownloadError, ErrorKind, Failure};
use tabby_download::progress::{advance, downloaded_message, downloading_message};
use tabby_download::style::progress_style;

#[test]
fn advance_adds_the_length_of_a_chunk() {
    assert_eq!(advance(100, 0, 0), 0);
    assert_eq!(advance(100, 10, 20), 30);
    assert_eq!(advance(100, 99, 1), 100);
}

#[test]
fn advance_stops_at_the_announced_size() {
    assert_eq!(advance(100, 90, 20), 100);
    assert_eq!(advance(100, 100, 1), 100);
    assert_eq!(advance(0, 0, 7), 0);
    assert_eq!(advance(5, 9, 0), 5);
}

#[test]
fn advance_does_not_overflow() {
    assert_eq!(advance(u64::MAX, u64::MAX - 1, usize::MAX), u64::MAX);
    assert_eq!(advance(u64::MAX, u64::MAX - 3, 2), u64::MAX - 1);
}

#[test]
fn messages_name_the_file() {
    assert_eq!(downloading_message("acme/tiny-model/metadata.json"), "Downloading acme/tiny-model/metadata.json");
    assert_eq!(downloaded_message("acme/tiny-model/metadata.json"), "Downloaded acme/tiny-model/metadata.json");
}

#[test]
fn the_progress_style_can_be_built() {
    assert!(progress_style().is_ok());
}

#[test]
fn each_failure_has_its_kind() {
    assert_eq!(Failure::CreateDirectory.kind(), ErrorKind::Io);
    assert_eq!(Failure::Request.kind(), ErrorKind::Transport);
    assert_eq!(Failure::ContentLength.kind(), ErrorKind::MissingSize);
    assert_eq!(Failure::Template.kind(), ErrorKind::Config);
    assert_eq!(Failure::CreateFile.kind(), ErrorKind::Io);
    assert_eq!(Failure::ReadChunk.kind(), ErrorKind::Transport);
    assert_eq!(Failure::WriteChunk.kind(), ErrorKind::Io);
}

#[test]
fn each_failure_has_its_message() {
    let message = |failure: Failure| DownloadError::new(failure, "U", "P", "D").message();
    assert_eq!(message(Failure::CreateDirectory), "Failed to create directory 'D'");
    assert_eq!(message(Failure::Request), "Failed to GET from 'U'");
    assert_eq!(message(Failure::ContentLength), "Failed to get content length from 'U'");
    assert_eq!(message(Failure::Template), "Failed to set up the progress bar");
    assert_eq!(message(Failure::CreateFile), "Failed to create file 'P'");
    assert_eq!(message(Failure::ReadChunk), "Error while downloading file");
    assert_eq!(message(Failure::WriteChunk), "Error while writing to file");
}

#[test]
fn an_error_knows_its_failure_and_kind() {
    let error = DownloadError::new(Failure::ContentLength, "https://h/x", "/p", "/d");
    assert_eq!(error.failure(), Failure::ContentLength);
    assert_eq!(error.kind(), ErrorKind::MissingSize);
    assert_eq!(error.message(), "Failed to get content length from 'https://h/x'");
}

#[test]
fn the_template_shows_message_bar_and_bytes() {
    let template = tabby_download::style::template();
    assert_eq!(
        template,
        "{msg}\n{spinner:.green} [{elapsed_precise}] [{wide_bar:.cyan/blue}] {bytes}/{total_bytes} ({bytes_per_sec}, {eta})"
    );
    assert!(!template.chars().any(|c| c.is_ascii_digit()));
    assert_eq!(tabby_download::style::characters(), "#>-");
}
