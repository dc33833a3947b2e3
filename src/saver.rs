use vstd::prelude::*;

verus! {

/// One step of saving an uploaded file; each must succeed before the next.
#[derive(Clone, Debug, PartialEq, Eq)]
pub enum SaveStep {
    /// Create the file, truncating one that is already there.
    Create,
    /// Write the whole payload into it.
    Write,
    /// Set its permission bits to exactly `mode`.
    SetMode { mode: u32 },
    /// Hand it to the user `owner`.
    SetOwner { owner: String },
}

pub enum SaveStepModel {
    Create,
    Write,
    SetMode { mode: u32 },
    SetOwner { owner: Seq<char> },
}

impl View for SaveStep {
    type V = SaveStepModel;

    open spec fn view(&self) -> SaveStepModel {
        match self {
            SaveStep::Create => SaveStepModel::Create,
            SaveStep::Write => SaveStepModel::Write,
            SaveStep::SetMode { mode } => SaveStepModel::SetMode { mode: *mode },
            SaveStep::SetOwner { owner } => SaveStepModel::SetOwner { owner: owner@ },
        }
    }
}

impl SaveStep {
    /// A copy of this step.
    pub fn duplicate(&self) -> (r: SaveStep)
        ensures
            r@ == self@,
    {
        match self {
            SaveStep::Create => SaveStep::Create,
            SaveStep::Write => SaveStep::Write,
            SaveStep::SetMode { mode } => SaveStep::SetMode { mode: *mode },
            SaveStep::SetOwner { owner } => SaveStep::SetOwner { owner: owner.clone() },
        }
    }
}

pub open spec fn step_view(o: Option<SaveStep>) -> Option<SaveStepModel> {
    match o {
        Some(s) => Some(s@),
        None => None,
    }
}

/// Which step of a save failed.
#[derive(Clone, Copy, Debug, PartialEq, Eq, Structural)]
pub enum SaveError {
    Create,
    Write,
    Permissions,
    Owner,
}

/// The error that a failure of `step` reports.
pub open spec fn step_error(step: SaveStepModel) -> SaveError {
    match step {
        SaveStepModel::Create => SaveError::Create,
        SaveStepModel::Write => SaveError::Write,
        SaveStepModel::SetMode { .. } => SaveError::Permissions,
        SaveStepModel::SetOwner { .. } => SaveError::Owner,
    }
}

/// The steps that saving one file takes: create and write, then the mode if
/// one is configured, then the owner if one is configured.
pub open spec fn save_plan(mode: Option<u32>, owner: Option<Seq<char>>) -> Seq<SaveStepModel> {
    let base = seq![SaveStepModel::Create, SaveStepModel::Write];
    let with_mode = match mode {
        Some(m) => base.push(SaveStepModel::SetMode { mode: m }),
        None => base,
    };
    match owner {
        Some(o) => with_mode.push(SaveStepModel::SetOwner { owner: o }),
        None => with_mode,
    }
}

/// The step that follows `step` once it has succeeded, or `None` when the
/// file is saved.
pub open spec fn step_after(step: SaveStepModel, mode: Option<u32>, owner: Option<Seq<char>>) -> Option<
    SaveStepModel,
> {
    let owner_step = match owner {
        Some(o) => Some(SaveStepModel::SetOwner { owner: o }),
        None => None,
    };
    match step {
        SaveStepModel::Create => Some(SaveStepModel::Write),
        SaveStepModel::Write => match mode {
            Some(m) => Some(SaveStepModel::SetMode { mode: m }),
            None => owner_step,
        },
        SaveStepModel::SetMode { .. } => owner_step,
        SaveStepModel::SetOwner { .. } => None,
    }
}

/// Following `step_after` from `Create` walks `save_plan` in order and stops
/// after its last step: a file counts as saved only once every configured step
/// has succeeded.
pub proof fn lemma_steps_follow_plan(mode: Option<u32>, owner: Option<Seq<char>>)
    ensures
        save_plan(mode, owner).len() >= 2,
        save_plan(mode, owner)[0] == SaveStepModel::Create,
        forall|i: int|
            0 <= i < save_plan(mode, owner).len() - 1 ==> step_after(
                #[trigger] save_plan(mode, owner)[i],
                mode,
                owner,
            ) == Some(save_plan(mode, owner)[i + 1]),
        step_after(save_plan(mode, owner).last(), mode, owner) is None,
{
    let plan = save_plan(mode, owner);
    assert(plan[0] == SaveStepModel::Create);
    assert(plan[1] == SaveStepModel::Write);
}

/// The step after `step`, for a save configured with `mode` and `owner`.
pub fn next_save_step(step: &SaveStep, mode: Option<u32>, owner: &Option<String>) -> (r: Option<
    SaveStep,
>)
    ensures
        step_view(r) == step_after(step@, mode, owner.deep_view()),
{
    let owner_step = match owner {
        Some(o) => Some(SaveStep::SetOwner { owner: o.clone() }),
        None => None,
    };
    proof {
        if owner is Some {
            assert(owner.deep_view() == Some(owner->0@));
        }
    }
    match step {
        SaveStep::Create => Some(SaveStep::Write),
        SaveStep::Write => match mode {
            Some(m) => Some(SaveStep::SetMode { mode: m }),
            None => owner_step,
        },
        SaveStep::SetMode { .. } => owner_step,
        SaveStep::SetOwner { .. } => None,
    }
}

/// The error that a failure of `step` reports.
pub fn error_of(step: &SaveStep) -> (r: SaveError)
    ensures
        r == step_error(step@),
{
    match step {
        SaveStep::Create => SaveError::Create,
        SaveStep::Write => SaveError::Write,
        SaveStep::SetMode { .. } => SaveError::Permissions,
        SaveStep::SetOwner { .. } => SaveError::Owner,
    }
}

} // verus!
