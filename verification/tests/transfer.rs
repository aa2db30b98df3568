use tabby_download::error::{ErrorKind, Failure};
use tabby_download::progress::Report;
use tabby_download::resource::Resource;
use tabby_download::style::progress_style;
use tabby_download::transfer::{Action, Event, Phase, Step, Transfer};

fn tokenizer() -> (Transfer, Action) {
    Transfer::begin(Resource::Tokenizer.request("/home/u", "acme/tiny-model"))
}

/// A transfer that has created its directory, got an answer of `total`
/// bytes and created its file: it is about to read.
fn reading(total: u64) -> Transfer {
    let (mut transfer, _) = tokenizer();
    transfer.step(Event::DirectoryCreated);
    transfer.step(Event::Responded { content_length: Some(total) });
    transfer.step(Event::FileCreated);
    assert_eq!(transfer.phase(), Phase::Reading { total, position: 0 });
    transfer
}

fn aborted(step: &Step) -> (Failure, ErrorKind, String) {
    assert!(step.report.is_none());
    match &step.action {
        Action::Abort { error } => (error.failure(), error.kind(), error.message()),
        other => panic!("not aborted: {:?}", other),
    }
}

#[test]
fn a_transfer_begins_with_its_directory() {
    let (transfer, action) = tokenizer();
    assert_eq!(
        action,
        Action::CreateDirectory { path: "/home/u/.tabby/models/acme/tiny-model".to_string() }
    );
    assert_eq!(transfer.phase(), Phase::CreatingDirectory);
    assert_eq!(transfer.request().name(), "acme/tiny-model/tokenizer.json");
}

#[test]
fn a_transfer_asks_the_host_once_the_directory_is_there() {
    let (mut transfer, _) = tokenizer();
    let step = transfer.step(Event::DirectoryCreated);
    assert!(step.report.is_none());
    assert_eq!(
        step.action,
        Action::Request {
            url: "https://huggingface.co/acme/tiny-model/resolve/main/tokenizer.json".to_string()
        }
    );
    assert_eq!(transfer.phase(), Phase::Requesting);
}

#[test]
fn the_bar_appears_when_the_size_is_known() {
    let (mut transfer, _) = tokenizer();
    transfer.step(Event::DirectoryCreated);
    let step = transfer.step(Event::Responded { content_length: Some(1000) });
    match step.report {
        Some(Report::Begin { total, message, .. }) => {
            assert_eq!(total, 1000);
            assert_eq!(message, "Downloading acme/tiny-model/tokenizer.json");
        },
        _ => panic!("the bar did not appear"),
    }
    assert_eq!(
        step.action,
        Action::CreateFile {
            path: "/home/u/.tabby/models/acme/tiny-model/tokenizer.json".to_string()
        }
    );
    assert_eq!(transfer.phase(), Phase::CreatingFile { total: 1000 });
}

#[test]
fn chunks_are_written_and_counted() {
    let mut transfer = reading(10);
    let step = transfer.step(Event::Chunk { bytes: vec![1, 2, 3] });
    assert!(step.report.is_none());
    assert_eq!(step.action, Action::Write { bytes: vec![1, 2, 3] });
    assert_eq!(transfer.phase(), Phase::Writing { total: 10, position: 0, length: 3 });
    let step = transfer.step(Event::Written);
    assert!(matches!(step.report, Some(Report::Position { position: 3 })));
    assert_eq!(step.action, Action::ReadChunk);
    assert_eq!(transfer.phase(), Phase::Reading { total: 10, position: 3 });
}

#[test]
fn the_end_of_the_body_completes_the_transfer() {
    let mut transfer = reading(0);
    let step = transfer.step(Event::EndOfStream);
    match step.report {
        Some(Report::Finish { message }) => {
            assert_eq!(message, "Downloaded acme/tiny-model/tokenizer.json")
        },
        _ => panic!("the bar was not finished"),
    }
    assert_eq!(step.action, Action::Complete);
    assert_eq!(transfer.phase(), Phase::Complete);
}

#[test]
fn chunks_of_any_sizes_fill_file_and_bar() {
    let body: Vec<u8> = (0..=255u8).cycle().take(1000).collect();
    for cut in [vec![1000], vec![1, 999], vec![0, 500, 0, 500], vec![333, 333, 334], vec![1; 1000]] {
        let mut transfer = reading(1000);
        let mut written: Vec<u8> = Vec::new();
        let mut position = 0;
        let mut from = 0;
        for length in cut {
            let chunk = body[from..from + length].to_vec();
            from += length;
            match transfer.step(Event::Chunk { bytes: chunk }).action {
                Action::Write { bytes } => written.extend(bytes),
                other => panic!("not written: {:?}", other),
            }
            match transfer.step(Event::Written).report {
                Some(Report::Position { position: told }) => position = told,
                _ => panic!("the bar was not moved"),
            }
            assert_eq!(position, from as u64);
        }
        assert_eq!(transfer.step(Event::EndOfStream).action, Action::Complete);
        assert_eq!(written, body);
        assert_eq!(position, 1000);
    }
}

#[test]
fn the_position_never_passes_the_announced_size() {
    let mut transfer = reading(5);
    transfer.step(Event::Chunk { bytes: vec![0; 4] });
    assert!(matches!(transfer.step(Event::Written).report, Some(Report::Position { position: 4 })));
    let step = transfer.step(Event::Chunk { bytes: vec![0; 4] });
    assert_eq!(step.action, Action::Write { bytes: vec![0; 4] });
    assert!(matches!(transfer.step(Event::Written).report, Some(Report::Position { position: 5 })));
    transfer.step(Event::Chunk { bytes: vec![0; 4] });
    assert!(matches!(transfer.step(Event::Written).report, Some(Report::Position { position: 5 })));
    assert_eq!(transfer.phase(), Phase::Reading { total: 5, position: 5 });
}

#[test]
fn a_directory_that_cannot_be_created_fails_the_transfer() {
    let (mut transfer, _) = tokenizer();
    let step = transfer.step(Event::Failed);
    assert_eq!(
        aborted(&step),
        (
            Failure::CreateDirectory,
            ErrorKind::Io,
            "Failed to create directory '/home/u/.tabby/models/acme/tiny-model'".to_string()
        )
    );
    assert_eq!(transfer.phase(), Phase::Failed { failure: Failure::CreateDirectory });
}

#[test]
fn a_request_that_fails_fails_the_transfer() {
    let (mut transfer, _) = tokenizer();
    transfer.step(Event::DirectoryCreated);
    let step = transfer.step(Event::Failed);
    assert_eq!(
        aborted(&step),
        (
            Failure::Request,
            ErrorKind::Transport,
            "Failed to GET from 'https://huggingface.co/acme/tiny-model/resolve/main/tokenizer.json'"
                .to_string()
        )
    );
}

#[test]
fn a_response_without_a_size_fails_the_transfer() {
    let (mut transfer, _) = tokenizer();
    transfer.step(Event::DirectoryCreated);
    let step = transfer.step(Event::Responded { content_length: None });
    assert_eq!(
        aborted(&step),
        (
            Failure::ContentLength,
            ErrorKind::MissingSize,
            "Failed to get content length from 'https://huggingface.co/acme/tiny-model/resolve/main/tokenizer.json'"
                .to_string()
        )
    );
    assert_eq!(transfer.phase(), Phase::Failed { failure: Failure::ContentLength });
}

#[test]
fn a_missing_style_fails_the_transfer() {
    let (mut transfer, _) = tokenizer();
    transfer.step_with(Event::DirectoryCreated, None);
    let step = transfer.step_with(Event::Responded { content_length: Some(7) }, None);
    assert_eq!(
        aborted(&step),
        (Failure::Template, ErrorKind::Config, "Failed to set up the progress bar".to_string())
    );
}

#[test]
fn a_missing_size_is_found_before_a_missing_style() {
    let (mut transfer, _) = tokenizer();
    transfer.step_with(Event::DirectoryCreated, None);
    let step = transfer.step_with(Event::Responded { content_length: None }, None);
    assert_eq!(aborted(&step).0, Failure::ContentLength);
}

#[test]
fn a_given_style_is_handed_on() {
    let (mut transfer, _) = tokenizer();
    transfer.step_with(Event::DirectoryCreated, None);
    let style = progress_style().ok();
    assert!(style.is_some());
    let step = transfer.step_with(Event::Responded { content_length: Some(7) }, style);
    assert!(matches!(step.report, Some(Report::Begin { total: 7, .. })));
    assert_eq!(transfer.phase(), Phase::CreatingFile { total: 7 });
}

#[test]
fn a_file_that_cannot_be_created_fails_the_transfer() {
    let (mut transfer, _) = tokenizer();
    transfer.step(Event::DirectoryCreated);
    transfer.step(Event::Responded { content_length: Some(1) });
    let step = transfer.step(Event::Failed);
    assert_eq!(
        aborted(&step),
        (
            Failure::CreateFile,
            ErrorKind::Io,
            "Failed to create file '/home/u/.tabby/models/acme/tiny-model/tokenizer.json'"
                .to_string()
        )
    );
}

#[test]
fn a_chunk_that_cannot_be_read_fails_the_transfer() {
    let mut transfer = reading(10);
    let step = transfer.step(Event::Failed);
    assert_eq!(
        aborted(&step),
        (Failure::ReadChunk, ErrorKind::Transport, "Error while downloading file".to_string())
    );
}

#[test]
fn a_chunk_that_cannot_be_written_fails_the_transfer() {
    let mut transfer = reading(10);
    transfer.step(Event::Chunk { bytes: vec![9] });
    let step = transfer.step(Event::Failed);
    assert_eq!(
        aborted(&step),
        (Failure::WriteChunk, ErrorKind::Io, "Error while writing to file".to_string())
    );
}

#[test]
fn an_event_that_answers_another_action_fails_the_pending_one() {
    let (mut transfer, _) = tokenizer();
    assert_eq!(aborted(&transfer.step(Event::FileCreated)).0, Failure::CreateDirectory);

    let (mut transfer, _) = tokenizer();
    transfer.step(Event::DirectoryCreated);
    assert_eq!(aborted(&transfer.step(Event::DirectoryCreated)).0, Failure::Request);

    let mut transfer = reading(3);
    assert_eq!(aborted(&transfer.step(Event::Written)).0, Failure::ReadChunk);

    let mut transfer = reading(3);
    transfer.step(Event::Chunk { bytes: vec![1] });
    assert_eq!(aborted(&transfer.step(Event::EndOfStream)).0, Failure::WriteChunk);
}

#[test]
fn a_failed_transfer_stays_failed() {
    let (mut transfer, _) = tokenizer();
    let first = aborted(&transfer.step(Event::Failed));
    for event in [
        Event::DirectoryCreated,
        Event::Responded { content_length: Some(1) },
        Event::FileCreated,
        Event::Chunk { bytes: vec![1] },
        Event::EndOfStream,
        Event::Written,
        Event::Failed,
    ] {
        assert_eq!(aborted(&transfer.step(event)), first);
        assert_eq!(transfer.phase(), Phase::Failed { failure: Failure::CreateDirectory });
    }
}

#[test]
fn a_complete_transfer_stays_complete() {
    let mut transfer = reading(0);
    transfer.step(Event::EndOfStream);
    for event in [Event::DirectoryCreated, Event::Chunk { bytes: vec![1] }, Event::Failed] {
        let step = transfer.step(event);
        assert!(step.report.is_none());
        assert_eq!(step.action, Action::Complete);
        assert_eq!(transfer.phase(), Phase::Complete);
    }
}
