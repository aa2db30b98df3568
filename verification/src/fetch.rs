//! The fetch of a model: its files, one transfer after the other, until all
//! are complete or one fails.

use indicatif::ProgressStyle;
use vstd::prelude::*;

use crate::progress::Report;
use crate::resource::{Resource, RESOURCE_COUNT};
use crate::style::{progress_style, template_accepted, template_text};
use crate::transfer::{
    action_of, next_phase, report_of, Action, ActionView, Event, EventView, Phase, Step, StepView,
    Transfer, TransferView,
};

verus! {

/// What the command is given.
#[derive(Clone, Debug, PartialEq, Eq)]
pub struct DownloadArgs {
    /// model id to fetch.
    model: String,
}

impl DownloadArgs {
    /// The model that the arguments name.
    pub closed spec fn model_id(&self) -> Seq<char> {
        self.model@
    }

    /// Arguments that name `model`.
    pub fn new(model: String) -> (args: DownloadArgs)
        ensures
            args.model_id() == model@,
    {
        DownloadArgs { model }
    }

    /// The model that the arguments name.
    pub fn model(&self) -> (model: &str)
        ensures
            model@ == self.model_id(),
    {
        self.model.as_str()
    }

    /// Starts the fetch of the model that the arguments name, into its
    /// directory below `home`.
    pub fn fetch(&self, home: &str) -> (started: (ModelFetch, Action))
        ensures
            started.0@ == initial(home@, self.model_id()),
            started.1@ == first_action(home@, self.model_id()),
    {
        ModelFetch::begin(home, self.model.as_str())
    }
}

/// The fetch of a model.
pub struct ModelFetch {
    home: String,
    model_id: String,
    index: usize,
    transfer: Transfer,
}

/// A `ModelFetch` as specifications see it: the model and where it goes, the
/// place of the current file in the fixed order, and that file's transfer.
pub struct ModelFetchView {
    pub home: Seq<char>,
    pub model_id: Seq<char>,
    pub index: nat,
    pub transfer: TransferView,
}

impl View for ModelFetch {
    type V = ModelFetchView;

    closed spec fn view(&self) -> ModelFetchView {
        ModelFetchView {
            home: self.home@,
            model_id: self.model_id@,
            index: self.index as nat,
            transfer: self.transfer@,
        }
    }
}

/// The fetch of `model_id` before anything has happened: the first file's
/// transfer is about to create its directory.
pub open spec fn initial(home: Seq<char>, model_id: Seq<char>) -> ModelFetchView {
    ModelFetchView {
        home,
        model_id,
        index: 0,
        transfer: TransferView {
            request: Resource::Metadata.spec_request(home, model_id),
            phase: Phase::CreatingDirectory,
        },
    }
}

/// The action that a fetch of `model_id` starts with.
pub open spec fn first_action(home: Seq<char>, model_id: Seq<char>) -> ActionView {
    ActionView::CreateDirectory { path: Resource::Metadata.spec_directory(home, model_id) }
}

impl ModelFetchView {
    /// The file that follows the current one, where `event` completes the
    /// current one and it is not the last.
    pub open spec fn successor(self, event: EventView, styled: bool) -> Option<Resource> {
        if self.transfer.phase != Phase::Complete && next_phase(self.transfer.phase, event, styled)
            == Phase::Complete {
            Resource::spec_at(self.index + 1 as int)
        } else {
            None
        }
    }

    /// The fetch after `event`. The current transfer takes the event; where
    /// that completes it and another file follows, that file's transfer
    /// begins.
    pub open spec fn next(self, event: EventView, styled: bool) -> ModelFetchView {
        match self.successor(event, styled) {
            Some(resource) => ModelFetchView {
                index: self.index + 1 as nat,
                transfer: TransferView {
                    request: resource.spec_request(self.home, self.model_id),
                    phase: Phase::CreatingDirectory,
                },
                ..self
            },
            None => ModelFetchView {
                transfer: TransferView {
                    phase: next_phase(self.transfer.phase, event, styled),
                    ..self.transfer
                },
                ..self
            },
        }
    }

    /// The answer to `event`. It is the current transfer's answer, but where
    /// another file follows the action is that file's first one.
    pub open spec fn answer(self, event: EventView, styled: bool) -> StepView {
        let phase = next_phase(self.transfer.phase, event, styled);
        StepView {
            report: report_of(self.transfer.request, self.transfer.phase, phase),
            action: match self.successor(event, styled) {
                Some(resource) => ActionView::CreateDirectory {
                    path: resource.spec_directory(self.home, self.model_id),
                },
                None => action_of(self.transfer.request, phase, event),
            },
        }
    }

    /// Every file is complete.
    pub open spec fn done(self) -> bool {
        self.transfer.phase == Phase::Complete
    }

    /// A transfer has failed, and the fetch with it.
    pub open spec fn failed(self) -> bool {
        self.transfer.phase is Failed
    }
}

impl ModelFetch {
    /// Starts the fetch of `model_id` into its directory below `home`.
    pub fn begin(home: &str, model_id: &str) -> (started: (ModelFetch, Action))
        ensures
            started.0@ == initial(home@, model_id@),
            started.1@ == first_action(home@, model_id@),
    {
        let (transfer, action) = Transfer::begin(Resource::Metadata.request(home, model_id));
        let fetch = ModelFetch {
            home: String::from_str(home),
            model_id: String::from_str(model_id),
            index: 0,
            transfer,
        };
        (fetch, action)
    }

    /// The place of the current file in the fixed order.
    pub fn index(&self) -> (index: usize)
        ensures
            index == self@.index,
    {
        self.index
    }

    /// The transfer of the current file.
    pub fn transfer(&self) -> (transfer: &Transfer)
        ensures
            transfer@ == self@.transfer,
    {
        &self.transfer
    }

    /// Whether every file is complete.
    pub fn is_done(&self) -> (done: bool)
        ensures
            done == self@.done(),
    {
        match self.transfer.phase() {
            Phase::Complete => true,
            _ => false,
        }
    }

    /// Whether a transfer has failed, and the fetch with it.
    pub fn has_failed(&self) -> (failed: bool)
        ensures
            failed == self@.failed(),
    {
        match self.transfer.phase() {
            Phase::Failed { .. } => true,
            _ => false,
        }
    }

    /// Takes the outcome of the last action and answers with the next one,
    /// given the style for the progress display, or `None` where there is
    /// none to be had.
    pub fn step_with(&mut self, event: Event, style: Option<ProgressStyle>) -> (step: Step)
        ensures
            final(self)@ == old(self)@.next(event@, style is Some),
            step@ == old(self)@.answer(event@, style is Some),
            step.report matches Some(Report::Begin { style: shown, .. }) ==> style == Some(shown),
    {
        let before = self.transfer.phase();
        let step = self.transfer.step_with(event, style);
        let completed = match (before, self.transfer.phase()) {
            (Phase::Complete, _) => false,
            (_, Phase::Complete) => true,
            _ => false,
        };
        if completed && self.index < RESOURCE_COUNT - 1 {
            match Resource::at(self.index + 1) {
                Some(resource) => {
                    let request = resource.request(self.home.as_str(), self.model_id.as_str());
                    let (transfer, action) = Transfer::begin(request);
                    self.index = self.index + 1;
                    self.transfer = transfer;
                    Step { report: step.report, action }
                },
                None => step,
            }
        } else {
            step
        }
    }

    /// Takes the outcome of the last action and answers with the next one.
    /// When the host has announced a size, the style for the progress
    /// display is built; it is there where `indicatif` takes the template.
    pub fn step(&mut self, event: Event) -> (step: Step)
        ensures
            final(self)@ == old(self)@.next(event@, template_accepted(template_text())),
            step@ == old(self)@.answer(event@, template_accepted(template_text())),
    {
        let style = match (self.transfer.phase(), &event) {
            (Phase::Requesting, Event::Responded { content_length: Some(_) }) => {
                match progress_style() {
                    Ok(style) => Some(style),
                    Err(_) => None,
                }
            },
            _ => None,
        };
        self.step_with(event, style)
    }
}

} // verus!
