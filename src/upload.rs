use crate::path::{join_path, joined_path};
use crate::saver::{
    error_of, next_save_step, step_after, step_error, step_view, SaveError, SaveStep,
    SaveStepModel,
};
use vstd::prelude::*;

verus! {

/// Where uploads go and what is applied to each saved file. Built once at
/// startup and only read afterwards.
#[derive(Clone, Debug)]
pub struct UploadConfig {
    pub save_dir: String,
    pub mode: Option<u32>,
    pub owner: Option<String>,
}

pub struct ConfigModel {
    pub save_dir: Seq<char>,
    pub mode: Option<u32>,
    pub owner: Option<Seq<char>>,
}

impl View for UploadConfig {
    type V = ConfigModel;

    open spec fn view(&self) -> ConfigModel {
        ConfigModel { save_dir: self.save_dir@, mode: self.mode, owner: self.owner.deep_view() }
    }
}

impl UploadConfig {
    pub fn new(save_dir: String, mode: Option<u32>, owner: Option<String>) -> (r: UploadConfig)
        ensures
            r@ == (ConfigModel { save_dir: save_dir@, mode: mode, owner: owner.deep_view() }),
    {
        UploadConfig { save_dir, mode, owner }
    }
}

/// The status a request is answered with.
#[derive(Clone, Copy, Debug, PartialEq, Eq, Structural)]
pub enum Status {
    Success,
    BadRequest,
    InternalServerError,
}

impl Status {
    pub open spec fn spec_code(self) -> u16 {
        match self {
            Status::Success => 200,
            Status::BadRequest => 400,
            Status::InternalServerError => 500,
        }
    }

    /// The HTTP status code.
    pub fn code(&self) -> (r: u16)
        ensures
            r == self.spec_code(),
    {
        match self {
            Status::Success => 200,
            Status::BadRequest => 400,
            Status::InternalServerError => 500,
        }
    }
}

/// Where the handling of one request stands.
#[derive(Clone, Debug, PartialEq, Eq)]
pub enum Phase {
    /// Waiting for the next field of the multipart body.
    AwaitField,
    /// Waiting for the payload of a file field bound for `path`.
    AwaitBytes { path: String },
    /// Waiting for the outcome of one save step on `path`.
    Saving { path: String, step: SaveStep },
    /// A save step failed with `error`; waiting for `path` to be removed.
    RollingBack { path: String, error: SaveError },
    /// The body turned out malformed; the files saved so far are being
    /// removed, the last saved first.
    Discarding,
    /// Done: the request is answered with `status`.
    Finished { status: Status },
}

pub enum PhaseModel {
    AwaitField,
    AwaitBytes { path: Seq<char> },
    Saving { path: Seq<char>, step: SaveStepModel },
    RollingBack { path: Seq<char>, error: SaveError },
    Discarding,
    Finished { status: Status },
}

impl View for Phase {
    type V = PhaseModel;

    open spec fn view(&self) -> PhaseModel {
        match self {
            Phase::AwaitField => PhaseModel::AwaitField,
            Phase::AwaitBytes { path } => PhaseModel::AwaitBytes { path: path@ },
            Phase::Saving { path, step } => PhaseModel::Saving { path: path@, step: step@ },
            Phase::RollingBack { path, error } => PhaseModel::RollingBack {
                path: path@,
                error: *error,
            },
            Phase::Discarding => PhaseModel::Discarding,
            Phase::Finished { status } => PhaseModel::Finished { status: *status },
        }
    }
}

impl Phase {
    /// A copy of this phase.
    pub fn duplicate(&self) -> (r: Phase)
        ensures
            r@ == self@,
    {
        match self {
            Phase::AwaitField => Phase::AwaitField,
            Phase::AwaitBytes { path } => Phase::AwaitBytes { path: path.clone() },
            Phase::Saving { path, step } => Phase::Saving {
                path: path.clone(),
                step: step.duplicate(),
            },
            Phase::RollingBack { path, error } => Phase::RollingBack {
                path: path.clone(),
                error: *error,
            },
            Phase::Discarding => Phase::Discarding,
            Phase::Finished { status } => Phase::Finished { status: *status },
        }
    }
}

/// The characters of each path in a list.
pub open spec fn paths_view(v: Seq<String>) -> Seq<Seq<char>> {
    v.map_values(|p: String| p@)
}

/// A copy of a list of paths.
fn copy_paths(v: &Vec<String>) -> (r: Vec<String>)
    ensures
        paths_view(r@) == paths_view(v@),
{
    let mut r: Vec<String> = Vec::new();
    let mut i: usize = 0;
    while i < v.len()
        invariant
            i <= v.len(),
            r@.len() == i,
            paths_view(r@) == paths_view(v@).subrange(0, i as int),
        decreases v.len() - i,
    {
        let p = v[i].clone();
        assert(p@ == v@[i as int]@);
        r.push(p);
        assert(r@[i as int]@ == v@[i as int]@);
        i = i + 1;
        assert(paths_view(r@) =~= paths_view(v@).subrange(0, i as int));
    }
    assert(paths_view(v@).subrange(0, i as int) =~= paths_view(v@));
    r
}

/// What happened when the last action was carried out.
#[derive(Clone, Debug)]
pub enum Event {
    /// The decoder produced a field, with its file name if it has one.
    Field { filename: Option<String> },
    /// The decoder has no more fields.
    FieldsExhausted,
    /// The body could not be decoded.
    DecodeFailed,
    /// The payload of the current file field was read whole.
    BytesRetrieved,
    /// The payload of the current file field could not be read.
    BytesFailed,
    /// The save step asked for succeeded.
    StepSucceeded,
    /// The save step asked for failed.
    StepFailed,
    /// Removing the file asked for was attempted, whatever its outcome.
    RollbackAttempted,
}

pub enum EventModel {
    Field { filename: Option<Seq<char>> },
    FieldsExhausted,
    DecodeFailed,
    BytesRetrieved,
    BytesFailed,
    StepSucceeded,
    StepFailed,
    RollbackAttempted,
}

impl View for Event {
    type V = EventModel;

    open spec fn view(&self) -> EventModel {
        match self {
            Event::Field { filename } => EventModel::Field { filename: filename.deep_view() },
            Event::FieldsExhausted => EventModel::FieldsExhausted,
            Event::DecodeFailed => EventModel::DecodeFailed,
            Event::BytesRetrieved => EventModel::BytesRetrieved,
            Event::BytesFailed => EventModel::BytesFailed,
            Event::StepSucceeded => EventModel::StepSucceeded,
            Event::StepFailed => EventModel::StepFailed,
            Event::RollbackAttempted => EventModel::RollbackAttempted,
        }
    }
}

/// What the caller is to do next.
#[derive(Clone, Debug, PartialEq, Eq)]
pub enum Action {
    /// Pull the next field from the decoder.
    PullField,
    /// Read the whole payload of the current file field.
    FetchBytes,
    /// Carry out `step` on the file at `path`.
    Save { path: String, step: SaveStep },
    /// Remove the file at `path` if it is there; `error` says what failed.
    RemoveFile { path: String, error: SaveError },
    /// Remove the saved file at `path`: the body it came with is malformed.
    DiscardFile { path: String },
    /// Answer the request with `status`, listing `saved_files`.
    Respond { status: Status, saved_files: Vec<String> },
}

pub enum ActionModel {
    PullField,
    FetchBytes,
    Save { path: Seq<char>, step: SaveStepModel },
    RemoveFile { path: Seq<char>, error: SaveError },
    DiscardFile { path: Seq<char> },
    Respond { status: Status, saved_files: Seq<Seq<char>> },
}

impl View for Action {
    type V = ActionModel;

    open spec fn view(&self) -> ActionModel {
        match self {
            Action::PullField => ActionModel::PullField,
            Action::FetchBytes => ActionModel::FetchBytes,
            Action::Save { path, step } => ActionModel::Save { path: path@, step: step@ },
            Action::RemoveFile { path, error } => ActionModel::RemoveFile {
                path: path@,
                error: *error,
            },
            Action::DiscardFile { path } => ActionModel::DiscardFile { path: path@ },
            Action::Respond { status, saved_files } => ActionModel::Respond {
                status: *status,
                saved_files: paths_view(saved_files@),
            },
        }
    }
}

pub struct UploadModel {
    pub config: ConfigModel,
    pub saved: Seq<Seq<char>>,
    pub phase: PhaseModel,
}

/// The handling of one upload request: the saved paths so far, in the order
/// their fields were decoded, and where the request stands.
pub struct Upload {
    config: UploadConfig,
    saved: Vec<String>,
    phase: Phase,
}

impl View for Upload {
    type V = UploadModel;

    closed spec fn view(&self) -> UploadModel {
        UploadModel { config: self.config@, saved: paths_view(self.saved@), phase: self.phase@ }
    }
}

/// A request that has just arrived.
pub open spec fn initial(config: ConfigModel) -> UploadModel {
    UploadModel { config, saved: seq![], phase: PhaseModel::AwaitField }
}

/// The state after `event`. An event that does not answer the pending
/// action leaves the state as it is.
pub open spec fn next_state(s: UploadModel, event: EventModel) -> UploadModel {
    match (s.phase, event) {
        (PhaseModel::AwaitField, EventModel::Field { filename }) => match filename {
            Some(name) => UploadModel {
                phase: PhaseModel::AwaitBytes { path: joined_path(s.config.save_dir, name) },
                ..s
            },
            None => s,
        },
        (PhaseModel::AwaitField, EventModel::FieldsExhausted) => UploadModel {
            phase: PhaseModel::Finished {
                status: if s.saved.len() == 0 {
                    Status::BadRequest
                } else {
                    Status::Success
                },
            },
            ..s
        },
        (PhaseModel::AwaitField, EventModel::DecodeFailed) => if s.saved.len() == 0 {
            UploadModel { phase: PhaseModel::Finished { status: Status::BadRequest }, ..s }
        } else {
            UploadModel { phase: PhaseModel::Discarding, ..s }
        },
        (PhaseModel::Discarding, EventModel::RollbackAttempted) => if s.saved.len() <= 1 {
            UploadModel {
                saved: seq![],
                phase: PhaseModel::Finished { status: Status::BadRequest },
                ..s
            }
        } else {
            UploadModel { saved: s.saved.drop_last(), ..s }
        },
        (PhaseModel::AwaitBytes { path }, EventModel::BytesRetrieved) => UploadModel {
            phase: PhaseModel::Saving { path, step: SaveStepModel::Create },
            ..s
        },
        (PhaseModel::AwaitBytes { .. }, EventModel::BytesFailed) => UploadModel {
            phase: PhaseModel::Finished { status: Status::InternalServerError },
            ..s
        },
        (PhaseModel::Saving { path, step }, EventModel::StepSucceeded) => match step_after(
            step,
            s.config.mode,
            s.config.owner,
        ) {
            Some(next) => UploadModel { phase: PhaseModel::Saving { path, step: next }, ..s },
            None => UploadModel { saved: s.saved.push(path), phase: PhaseModel::AwaitField, ..s },
        },
        (PhaseModel::Saving { path, step }, EventModel::StepFailed) => UploadModel {
            phase: PhaseModel::RollingBack { path, error: step_error(step) },
            ..s
        },
        (PhaseModel::RollingBack { .. }, EventModel::RollbackAttempted) => UploadModel {
            phase: PhaseModel::Finished { status: Status::InternalServerError },
            ..s
        },
        _ => s,
    }
}

/// The action that state `s` waits on. A request that is not answered with
/// `Ok` lists no files.
pub open spec fn pending_action(s: UploadModel) -> ActionModel {
    match s.phase {
        PhaseModel::AwaitField => ActionModel::PullField,
        PhaseModel::AwaitBytes { .. } => ActionModel::FetchBytes,
        PhaseModel::Saving { path, step } => ActionModel::Save { path, step },
        PhaseModel::RollingBack { path, error } => ActionModel::RemoveFile { path, error },
        PhaseModel::Discarding => if s.saved.len() > 0 {
            ActionModel::DiscardFile { path: s.saved.last() }
        } else {
            ActionModel::Respond { status: Status::BadRequest, saved_files: seq![] }
        },
        PhaseModel::Finished { status } => ActionModel::Respond {
            status,
            saved_files: if status == Status::Success {
                s.saved
            } else {
                seq![]
            },
        },
    }
}

/// The state after each of `events` in turn.
pub open spec fn run(s: UploadModel, events: Seq<EventModel>) -> UploadModel
    decreases events.len(),
{
    if events.len() == 0 {
        s
    } else {
        run(next_state(s, events[0]), events.subrange(1, events.len() as int))
    }
}

impl Upload {
    /// Starts handling a request under `config`.
    pub fn new(config: UploadConfig) -> (r: Upload)
        ensures
            r@ == initial(config@),
    {
        let r = Upload { config, saved: Vec::new(), phase: Phase::AwaitField };
        assert(paths_view(r.saved@) =~= Seq::<Seq<char>>::empty());
        r
    }

    /// The action this request waits on.
    pub fn pending(&self) -> (r: Action)
        ensures
            r@ == pending_action(self@),
    {
        match &self.phase {
            Phase::AwaitField => Action::PullField,
            Phase::AwaitBytes { .. } => Action::FetchBytes,
            Phase::Saving { path, step } => Action::Save { path: path.clone(), step: step.duplicate() },
            Phase::RollingBack { path, error } => Action::RemoveFile {
                path: path.clone(),
                error: *error,
            },
            Phase::Discarding => {
                if self.saved.len() > 0 {
                    Action::DiscardFile { path: self.saved[self.saved.len() - 1].clone() }
                } else {
                    let empty: Vec<String> = Vec::new();
                    assert(paths_view(empty@) =~= Seq::<Seq<char>>::empty());
                    Action::Respond { status: Status::BadRequest, saved_files: empty }
                }
            },
            Phase::Finished { status } => {
                let saved_files = if *status == Status::Success {
                    copy_paths(&self.saved)
                } else {
                    let empty: Vec<String> = Vec::new();
                    assert(paths_view(empty@) =~= Seq::<Seq<char>>::empty());
                    empty
                };
                Action::Respond { status: *status, saved_files }
            },
        }
    }

    /// Whether the request has been answered.
    pub fn is_finished(&self) -> (r: bool)
        ensures
            r == (self@.phase is Finished),
    {
        matches!(self.phase, Phase::Finished { .. })
    }

    /// Takes in the outcome of the pending action.
    pub fn step(&mut self, event: Event)
        ensures
            final(self)@ == next_state(old(self)@, event@),
    {
        let phase = self.phase.duplicate();
        match (phase, event) {
            (Phase::AwaitField, Event::Field { filename }) => {
                if let Some(name) = filename {
                    let path = join_path(self.config.save_dir.as_str(), name.as_str());
                    self.phase = Phase::AwaitBytes { path };
                }
            },
            (Phase::AwaitField, Event::FieldsExhausted) => {
                let status = if self.saved.len() == 0 {
                    Status::BadRequest
                } else {
                    Status::Success
                };
                self.phase = Phase::Finished { status };
            },
            (Phase::AwaitField, Event::DecodeFailed) => {
                if self.saved.len() == 0 {
                    self.phase = Phase::Finished { status: Status::BadRequest };
                } else {
                    self.phase = Phase::Discarding;
                }
            },
            (Phase::Discarding, Event::RollbackAttempted) => {
                if self.saved.len() <= 1 {
                    self.saved = Vec::new();
                    assert(paths_view(self.saved@) =~= Seq::<Seq<char>>::empty());
                    self.phase = Phase::Finished { status: Status::BadRequest };
                } else {
                    let ghost before = self.saved@;
                    self.saved.pop();
                    assert(paths_view(self.saved@) =~= paths_view(before).drop_last());
                }
            },
            (Phase::AwaitBytes { path }, Event::BytesRetrieved) => {
                self.phase = Phase::Saving { path, step: SaveStep::Create };
            },
            (Phase::AwaitBytes { .. }, Event::BytesFailed) => {
                self.phase = Phase::Finished { status: Status::InternalServerError };
            },
            (Phase::Saving { path, step }, Event::StepSucceeded) => {
                match next_save_step(&step, self.config.mode, &self.config.owner) {
                    Some(next) => {
                        self.phase = Phase::Saving { path, step: next };
                    },
                    None => {
                        let ghost before = self.saved@;
                        self.saved.push(path);
                        assert(paths_view(self.saved@) =~= paths_view(before).push(path@));
                        self.phase = Phase::AwaitField;
                    },
                }
            },
            (Phase::Saving { path, step }, Event::StepFailed) => {
                let error = error_of(&step);
                self.phase = Phase::RollingBack { path, error };
            },
            (Phase::RollingBack { .. }, Event::RollbackAttempted) => {
                self.phase = Phase::Finished { status: Status::InternalServerError };
            },
            _ => {},
        }
    }
}

} // verus!
