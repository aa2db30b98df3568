//! The ways in which a fetch fails.

use vstd::prelude::*;

verus! {

/// The closed set of error kinds.
#[derive(Clone, Copy, Debug, PartialEq, Eq, Structural)]
pub enum ErrorKind {
    /// The file system refused an operation.
    Io,
    /// The request or the response body could not be had.
    Transport,
    /// The response did not say how large its body is.
    MissingSize,
    /// The progress display could not be set up.
    Config,
}

/// The step of a transfer that went wrong.
#[derive(Clone, Copy, Debug, PartialEq, Eq, Structural)]
pub enum Failure {
    /// The directory of the file could not be created.
    CreateDirectory,
    /// The host could not be asked, or did not answer.
    Request,
    /// The host did not announce the size of the body.
    ContentLength,
    /// The template of the progress display was not taken.
    Template,
    /// The file could not be created.
    CreateFile,
    /// The body broke off.
    ReadChunk,
    /// A chunk could not be written to the file.
    WriteChunk,
}

impl Failure {
    /// The kind of error that a failed step gives.
    pub open spec fn spec_kind(self) -> ErrorKind {
        match self {
            Failure::CreateDirectory => ErrorKind::Io,
            Failure::Request => ErrorKind::Transport,
            Failure::ContentLength => ErrorKind::MissingSize,
            Failure::Template => ErrorKind::Config,
            Failure::CreateFile => ErrorKind::Io,
            Failure::ReadChunk => ErrorKind::Transport,
            Failure::WriteChunk => ErrorKind::Io,
        }
    }

    #[verifier::when_used_as_spec(spec_kind)]
    pub fn kind(self) -> (kind: ErrorKind)
        ensures
            kind == self.spec_kind(),
    {
        match self {
            Failure::CreateDirectory => ErrorKind::Io,
            Failure::Request => ErrorKind::Transport,
            Failure::ContentLength => ErrorKind::MissingSize,
            Failure::Template => ErrorKind::Config,
            Failure::CreateFile => ErrorKind::Io,
            Failure::ReadChunk => ErrorKind::Transport,
            Failure::WriteChunk => ErrorKind::Io,
        }
    }
}

/// The text that reports a failed step of the transfer from `url` to `path`,
/// a file in `directory`.
pub open spec fn failure_message(
    failure: Failure,
    url: Seq<char>,
    path: Seq<char>,
    directory: Seq<char>,
) -> Seq<char> {
    match failure {
        Failure::CreateDirectory => "Failed to create directory '"@ + directory + "'"@,
        Failure::Request => "Failed to GET from '"@ + url + "'"@,
        Failure::ContentLength => "Failed to get content length from '"@ + url + "'"@,
        Failure::Template => "Failed to set up the progress bar"@,
        Failure::CreateFile => "Failed to create file '"@ + path + "'"@,
        Failure::ReadChunk => "Error while downloading file"@,
        Failure::WriteChunk => "Error while writing to file"@,
    }
}

/// What a failed fetch reports: the step that failed and a text for the user.
#[derive(Clone, Debug, PartialEq, Eq)]
pub struct DownloadError {
    failure: Failure,
    message: String,
}

/// A `DownloadError` as specifications see it.
pub struct DownloadErrorView {
    pub failure: Failure,
    pub message: Seq<char>,
}

impl View for DownloadError {
    type V = DownloadErrorView;

    closed spec fn view(&self) -> DownloadErrorView {
        DownloadErrorView { failure: self.failure, message: self.message@ }
    }
}

/// The error of a failed step of the transfer from `url` to `path`.
pub open spec fn error_of(
    failure: Failure,
    url: Seq<char>,
    path: Seq<char>,
    directory: Seq<char>,
) -> DownloadErrorView {
    DownloadErrorView { failure, message: failure_message(failure, url, path, directory) }
}

impl DownloadError {
    /// Builds the error of a failed step of the transfer from `url` to `path`,
    /// a file in `directory`.
    pub fn new(failure: Failure, url: &str, path: &str, directory: &str) -> (error: DownloadError)
        ensures
            error@ == error_of(failure, url@, path@, directory@),
    {
        let message = match failure {
            Failure::CreateDirectory => quoted("Failed to create directory '", directory),
            Failure::Request => quoted("Failed to GET from '", url),
            Failure::ContentLength => quoted("Failed to get content length from '", url),
            Failure::Template => String::from_str("Failed to set up the progress bar"),
            Failure::CreateFile => quoted("Failed to create file '", path),
            Failure::ReadChunk => String::from_str("Error while downloading file"),
            Failure::WriteChunk => String::from_str("Error while writing to file"),
        };
        DownloadError { failure, message }
    }

    /// The step that failed.
    pub fn failure(&self) -> (failure: Failure)
        ensures
            failure == self@.failure,
    {
        self.failure
    }

    /// The kind of the error.
    pub fn kind(&self) -> (kind: ErrorKind)
        ensures
            kind == self@.failure.spec_kind(),
    {
        self.failure.kind()
    }

    /// The text for the user.
    pub fn message(&self) -> (message: String)
        ensures
            message@ == self@.message,
    {
        self.message.clone()
    }
}

/// `prefix`, then `subject`, then a closing quote.
fn quoted(prefix: &str, subject: &str) -> (text: String)
    ensures
        text@ == prefix@ + subject@ + "'"@,
{
    let mut text = String::from_str(prefix);
    text.append(subject);
    text.append("'");
    text
}

} // verus!
