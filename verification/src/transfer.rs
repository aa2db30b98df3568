//! The transfer of one file, as a machine that is told what came of each
//! action and answers with the next one.

use indicatif::ProgressStyle;
use vstd::prelude::*;

use crate::error::{error_of, DownloadError, DownloadErrorView, Failure};
use crate::progress::{
    advance, advanced, downloaded, downloaded_message, downloading, downloading_message, Report,
    ReportView,
};
use crate::resource::{TransferRequest, TransferRequestView};
use crate::style::{progress_style, template_accepted, template_text};

verus! {

/// What came of the action that the machine asked for last.
#[derive(Clone, Debug, PartialEq, Eq)]
pub enum Event {
    /// The directory exists.
    DirectoryCreated,
    /// The host answered, with whatever status; `content_length` is the
    /// size of the body that it announced, if any.
    Responded { content_length: Option<u64> },
    /// The file exists and is empty.
    FileCreated,
    /// The body gave another chunk.
    Chunk { bytes: Vec<u8> },
    /// The body is at its end.
    EndOfStream,
    /// The chunk stands at the end of the file.
    Written,
    /// The action failed.
    Failed,
}

/// An `Event` as specifications see it.
pub enum EventView {
    DirectoryCreated,
    Responded { content_length: Option<u64> },
    FileCreated,
    Chunk { bytes: Seq<u8> },
    EndOfStream,
    Written,
    Failed,
}

impl View for Event {
    type V = EventView;

    open spec fn view(&self) -> EventView {
        match *self {
            Event::DirectoryCreated => EventView::DirectoryCreated,
            Event::Responded { content_length } => EventView::Responded { content_length },
            Event::FileCreated => EventView::FileCreated,
            Event::Chunk { bytes } => EventView::Chunk { bytes: bytes@ },
            Event::EndOfStream => EventView::EndOfStream,
            Event::Written => EventView::Written,
            Event::Failed => EventView::Failed,
        }
    }
}

/// What the caller is to do next.
#[derive(Clone, Debug, PartialEq, Eq)]
pub enum Action {
    /// Create the directory `path` and those above it.
    CreateDirectory { path: String },
    /// Ask the host for `url`.
    Request { url: String },
    /// Create the file `path`, or empty it.
    CreateFile { path: String },
    /// Read the next chunk of the body.
    ReadChunk,
    /// Write `bytes` at the end of the file.
    Write { bytes: Vec<u8> },
    /// Nothing: the work is complete.
    Complete,
    /// Nothing: the work has failed with `error`.
    Abort { error: DownloadError },
}

/// An `Action` as specifications see it.
pub enum ActionView {
    CreateDirectory { path: Seq<char> },
    Request { url: Seq<char> },
    CreateFile { path: Seq<char> },
    ReadChunk,
    Write { bytes: Seq<u8> },
    Complete,
    Abort { error: DownloadErrorView },
}

impl View for Action {
    type V = ActionView;

    open spec fn view(&self) -> ActionView {
        match *self {
            Action::CreateDirectory { path } => ActionView::CreateDirectory { path: path@ },
            Action::Request { url } => ActionView::Request { url: url@ },
            Action::CreateFile { path } => ActionView::CreateFile { path: path@ },
            Action::ReadChunk => ActionView::ReadChunk,
            Action::Write { bytes } => ActionView::Write { bytes: bytes@ },
            Action::Complete => ActionView::Complete,
            Action::Abort { error } => ActionView::Abort { error: error@ },
        }
    }
}

/// The machine's answer to an event: what the progress display is told, if
/// anything, and what the caller is to do next.
pub struct Step {
    pub report: Option<Report>,
    pub action: Action,
}

/// A `Step` as specifications see it.
pub struct StepView {
    pub report: Option<ReportView>,
    pub action: ActionView,
}

impl View for Step {
    type V = StepView;

    open spec fn view(&self) -> StepView {
        StepView {
            report: match self.report {
                Some(report) => Some(report@),
                None => None,
            },
            action: self.action@,
        }
    }
}

/// Where a transfer stands: the action whose outcome it waits for, or how it
/// ended.
#[derive(Clone, Copy, Debug, PartialEq, Eq, Structural)]
pub enum Phase {
    /// The directory of the file is being created.
    CreatingDirectory,
    /// The host has been asked for the file.
    Requesting,
    /// The host has announced `total` bytes, the bar is shown, and the file
    /// is being created.
    CreatingFile { total: u64 },
    /// The bar stands at `position`, and the next chunk is being read.
    Reading { total: u64, position: u64 },
    /// The bar stands at `position`, and a chunk of `length` bytes is being
    /// written.
    Writing { total: u64, position: u64, length: usize },
    /// The body has ended and the file is complete.
    Complete,
    /// An action has failed, and the transfer with it.
    Failed { failure: Failure },
}

/// The phase that follows `phase` on `event`. Each phase waits for one
/// action, and an event that does not report that action's success fails the
/// transfer at that action. `styled` says whether the progress display has a
/// style to appear in.
pub open spec fn next_phase(phase: Phase, event: EventView, styled: bool) -> Phase {
    match phase {
        Phase::CreatingDirectory => match event {
            EventView::DirectoryCreated => Phase::Requesting,
            _ => Phase::Failed { failure: Failure::CreateDirectory },
        },
        Phase::Requesting => match event {
            EventView::Responded { content_length: Some(total) } => if styled {
                Phase::CreatingFile { total }
            } else {
                Phase::Failed { failure: Failure::Template }
            },
            EventView::Responded { content_length: None } => Phase::Failed {
                failure: Failure::ContentLength,
            },
            _ => Phase::Failed { failure: Failure::Request },
        },
        Phase::CreatingFile { total } => match event {
            EventView::FileCreated => Phase::Reading { total, position: 0 },
            _ => Phase::Failed { failure: Failure::CreateFile },
        },
        Phase::Reading { total, position } => match event {
            EventView::Chunk { bytes } => Phase::Writing {
                total,
                position,
                length: bytes.len() as usize,
            },
            EventView::EndOfStream => Phase::Complete,
            _ => Phase::Failed { failure: Failure::ReadChunk },
        },
        Phase::Writing { total, position, length } => match event {
            EventView::Written => Phase::Reading {
                total,
                position: advanced(total, position, length as nat),
            },
            _ => Phase::Failed { failure: Failure::WriteChunk },
        },
        Phase::Complete => Phase::Complete,
        Phase::Failed { failure } => Phase::Failed { failure },
    }
}

/// What the progress display is told when a transfer of `request` passes
/// from `phase` to `next`: the bar appears when the size is known, moves
/// when a chunk is written, and is finished when the body ends.
pub open spec fn report_of(request: TransferRequestView, phase: Phase, next: Phase) -> Option<
    ReportView,
> {
    match (phase, next) {
        (Phase::Requesting, Phase::CreatingFile { total }) => Some(
            ReportView::Begin { total, message: downloading(request.name) },
        ),
        (Phase::Writing { .. }, Phase::Reading { position, .. }) => Some(
            ReportView::Position { position },
        ),
        (Phase::Reading { .. }, Phase::Complete) => Some(
            ReportView::Finish { message: downloaded(request.name) },
        ),
        _ => None,
    }
}

/// The action that a transfer of `request` asks for when `event` has brought
/// it to the phase `next`.
pub open spec fn action_of(request: TransferRequestView, next: Phase, event: EventView)
    -> ActionView {
    match next {
        Phase::CreatingDirectory => ActionView::CreateDirectory { path: request.directory },
        Phase::Requesting => ActionView::Request { url: request.url },
        Phase::CreatingFile { .. } => ActionView::CreateFile { path: request.path },
        Phase::Reading { .. } => ActionView::ReadChunk,
        Phase::Writing { .. } => match event {
            EventView::Chunk { bytes } => ActionView::Write { bytes },
            _ => ActionView::Write { bytes: Seq::empty() },
        },
        Phase::Complete => ActionView::Complete,
        Phase::Failed { failure } => ActionView::Abort {
            error: error_of(failure, request.url, request.path, request.directory),
        },
    }
}

/// The machine's answer when `event` takes a transfer of `request` from
/// `phase` to `next`.
pub open spec fn step_of(request: TransferRequestView, phase: Phase, next: Phase, event: EventView)
    -> StepView {
    StepView { report: report_of(request, phase, next), action: action_of(request, next, event) }
}

/// The transfer of one file.
pub struct Transfer {
    request: TransferRequest,
    phase: Phase,
}

/// A `Transfer` as specifications see it.
pub struct TransferView {
    pub request: TransferRequestView,
    pub phase: Phase,
}

impl View for Transfer {
    type V = TransferView;

    closed spec fn view(&self) -> TransferView {
        TransferView { request: self.request@, phase: self.phase }
    }
}

impl Transfer {
    /// Starts the transfer of `request`: the first action creates the
    /// directory that will hold the file.
    pub fn begin(request: TransferRequest) -> (started: (Transfer, Action))
        ensures
            started.0@ == (TransferView { request: request@, phase: Phase::CreatingDirectory }),
            started.1@ == (ActionView::CreateDirectory { path: request@.directory }),
    {
        let action = Action::CreateDirectory { path: String::from_str(request.directory()) };
        (Transfer { request, phase: Phase::CreatingDirectory }, action)
    }

    /// What is transferred.
    pub fn request(&self) -> (request: &TransferRequest)
        ensures
            request@ == self@.request,
    {
        &self.request
    }

    /// Where the transfer stands.
    pub fn phase(&self) -> (phase: Phase)
        ensures
            phase == self@.phase,
    {
        self.phase
    }

    /// Ends the transfer at a failed step.
    fn fail(&mut self, failure: Failure) -> (step: Step)
        ensures
            final(self)@.request == old(self)@.request,
            final(self)@.phase == (Phase::Failed { failure }),
            step@.report is None,
            step@.action == action_of(old(self)@.request, Phase::Failed { failure }, EventView::Failed),
    {
        self.phase = Phase::Failed { failure };
        let error = DownloadError::new(
            failure,
            self.request.url(),
            self.request.path(),
            self.request.directory(),
        );
        Step { report: None, action: Action::Abort { error } }
    }

    /// Takes the outcome of the last action and answers with the next one,
    /// given the style for the progress display, or `None` where there is
    /// none to be had.
    pub fn step_with(&mut self, event: Event, style: Option<ProgressStyle>) -> (step: Step)
        ensures
            final(self)@.request == old(self)@.request,
            final(self)@.phase == next_phase(old(self)@.phase, event@, style is Some),
            step@ == step_of(old(self)@.request, old(self)@.phase, final(self)@.phase, event@),
            step.report matches Some(Report::Begin { style: shown, .. }) ==> style == Some(shown),
    {
        match self.phase {
            Phase::CreatingDirectory => match event {
                Event::DirectoryCreated => {
                    self.phase = Phase::Requesting;
                    Step {
                        report: None,
                        action: Action::Request { url: String::from_str(self.request.url()) },
                    }
                },
                _ => self.fail(Failure::CreateDirectory),
            },
            Phase::Requesting => match event {
                Event::Responded { content_length: Some(total) } => match style {
                    Some(style) => {
                        self.phase = Phase::CreatingFile { total };
                        Step {
                            report: Some(
                                Report::Begin {
                                    total,
                                    style,
                                    message: downloading_message(self.request.name()),
                                },
                            ),
                            action: Action::CreateFile {
                                path: String::from_str(self.request.path()),
                            },
                        }
                    },
                    None => self.fail(Failure::Template),
                },
                Event::Responded { content_length: None } => self.fail(Failure::ContentLength),
                _ => self.fail(Failure::Request),
            },
            Phase::CreatingFile { total } => match event {
                Event::FileCreated => {
                    self.phase = Phase::Reading { total, position: 0 };
                    Step { report: None, action: Action::ReadChunk }
                },
                _ => self.fail(Failure::CreateFile),
            },
            Phase::Reading { total, position } => match event {
                Event::Chunk { bytes } => {
                    self.phase = Phase::Writing { total, position, length: bytes.len() };
                    Step { report: None, action: Action::Write { bytes } }
                },
                Event::EndOfStream => {
                    self.phase = Phase::Complete;
                    Step {
                        report: Some(
                            Report::Finish { message: downloaded_message(self.request.name()) },
                        ),
                        action: Action::Complete,
                    }
                },
                _ => self.fail(Failure::ReadChunk),
            },
            Phase::Writing { total, position, length } => match event {
                Event::Written => {
                    let position: u64 = advance(total, position, length);
                    self.phase = Phase::Reading { total, position };
                    Step { report: Some(Report::Position { position }), action: Action::ReadChunk }
                },
                _ => self.fail(Failure::WriteChunk),
            },
            Phase::Complete => Step { report: None, action: Action::Complete },
            Phase::Failed { failure } => self.fail(failure),
        }
    }

    /// Takes the outcome of the last action and answers with the next one.
    /// When the host has announced a size, the style for the progress
    /// display is built; it is there where `indicatif` takes the template.
    pub fn step(&mut self, event: Event) -> (step: Step)
        ensures
            final(self)@.request == old(self)@.request,
            final(self)@.phase == next_phase(
                old(self)@.phase,
                event@,
                template_accepted(template_text()),
            ),
            step@ == step_of(old(self)@.request, old(self)@.phase, final(self)@.phase, event@),
    {
        let style = match (self.phase, &event) {
            (Phase::Requesting, Event::Responded { content_length: Some(_) }) => {
                match progress_style() {
                    Ok(style) => Some(style),
                    Err(_) => None,
                }
            },
            _ => None,
        };
        self.step_with(event, style)
    }
}

} // verus!
