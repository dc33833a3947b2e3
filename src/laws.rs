use crate::path::joined_path;
use crate::saver::{lemma_steps_follow_plan, save_plan, step_after, SaveError, SaveStepModel};
use crate::upload::{
    initial, next_state, pending_action, run, ActionModel, ConfigModel, EventModel, PhaseModel,
    Status, UploadModel,
};
use vstd::prelude::*;

verus! {

/// A state whose save in progress, if any, is at one of the configured steps.
pub open spec fn steps_in_plan(s: UploadModel) -> bool {
    s.phase matches PhaseModel::Saving { step, .. } ==> save_plan(
        s.config.mode,
        s.config.owner,
    ).contains(step)
}

/// A request starts with no save in progress, and every event keeps a save in
/// progress at one of the configured steps.
pub proof fn lemma_steps_stay_in_plan(s: UploadModel, e: EventModel)
    ensures
        steps_in_plan(initial(s.config)),
        steps_in_plan(s) ==> steps_in_plan(next_state(s, e)),
{
    let plan = save_plan(s.config.mode, s.config.owner);
    lemma_steps_follow_plan(s.config.mode, s.config.owner);
    if steps_in_plan(s) {
        match (s.phase, e) {
            (PhaseModel::AwaitBytes { .. }, EventModel::BytesRetrieved) => {
                assert(plan[0] == SaveStepModel::Create);
            },
            (PhaseModel::Saving { path, step }, EventModel::StepSucceeded) => {
                let i = choose|i: int| 0 <= i < plan.len() && plan[i] == step;
                if i < plan.len() - 1 {
                    assert(step_after(plan[i], s.config.mode, s.config.owner) == Some(plan[i + 1]));
                } else {
                    assert(plan[i] == plan.last());
                }
            },
            _ => {},
        }
    }
}

/// Every state that a request reaches from its start keeps a save in
/// progress at one of the configured steps.
pub proof fn lemma_run_keeps_steps_in_plan(s: UploadModel, events: Seq<EventModel>)
    requires
        steps_in_plan(s),
    ensures
        steps_in_plan(run(s, events)),
    decreases events.len(),
{
    if events.len() > 0 {
        lemma_steps_stay_in_plan(s, events[0]);
        lemma_run_keeps_steps_in_plan(
            next_state(s, events[0]),
            events.subrange(1, events.len() as int),
        );
    }
}

/// A path joins the saved list only when the last configured save step on it
/// succeeds (writing, then the mode if one is set, then the owner if one is
/// set). Otherwise the list keeps its entries in order, and loses some from
/// its end only while a malformed request's files are being discarded.
pub proof fn lemma_saved_only_when_fully_applied(s: UploadModel, e: EventModel)
    requires
        steps_in_plan(s),
    ensures
        next_state(s, e).saved.len() <= s.saved.len() ==> next_state(s, e).saved
            == s.saved.subrange(0, next_state(s, e).saved.len() as int),
        next_state(s, e).saved.len() < s.saved.len() ==> (s.phase is Discarding
            && e is RollbackAttempted),
        next_state(s, e).saved.len() > s.saved.len() ==> {
            &&& e is StepSucceeded
            &&& s.phase matches PhaseModel::Saving { path, step }
            &&& step == save_plan(s.config.mode, s.config.owner).last()
            &&& next_state(s, e).saved == s.saved.push(path)
        },
{
    let plan = save_plan(s.config.mode, s.config.owner);
    lemma_steps_follow_plan(s.config.mode, s.config.owner);
    let n = next_state(s, e);
    assert(s.saved.subrange(0, s.saved.len() as int) =~= s.saved);
    if n.saved.len() < s.saved.len() {
        assert(n.saved =~= s.saved.subrange(0, n.saved.len() as int));
    }
    if n.saved.len() > s.saved.len() {
        if let PhaseModel::Saving { path, step } = s.phase {
            let i = choose|i: int| 0 <= i < plan.len() && plan[i] == step;
            if i < plan.len() - 1 {
                assert(step_after(plan[i], s.config.mode, s.config.owner) == Some(plan[i + 1]));
            }
        }
    }
}

/// In every state that a request reaches, whatever events led there, the next
/// event adds a path to the saved list only by completing the last configured
/// save step on it.
pub proof fn lemma_listed_files_fully_saved(
    config: ConfigModel,
    events: Seq<EventModel>,
    e: EventModel,
)
    ensures
        ({
            let s = run(initial(config), events);
            next_state(s, e).saved.len() > s.saved.len() ==> {
                &&& e is StepSucceeded
                &&& s.phase matches PhaseModel::Saving { path, step }
                &&& step == save_plan(config.mode, config.owner).last()
                &&& next_state(s, e).saved == s.saved.push(path)
            }
        }),
{
    let s0 = initial(config);
    lemma_steps_stay_in_plan(s0, e);
    lemma_run_keeps_steps_in_plan(s0, events);
    lemma_run_keeps_config(s0, events);
    lemma_saved_only_when_fully_applied(run(s0, events), e);
}

proof fn lemma_run_keeps_config(s: UploadModel, events: Seq<EventModel>)
    ensures
        run(s, events).config == s.config,
    decreases events.len(),
{
    if events.len() > 0 {
        lemma_run_keeps_config(next_state(s, events[0]), events.subrange(1, events.len() as int));
    }
}

/// Whether an event is a decoded field that carries a file name.
pub open spec fn is_file_field(e: EventModel) -> bool {
    e matches EventModel::Field { filename: Some(_) }
}

/// A request none of whose fields carries a file name, an empty one included,
/// never starts a save, and if answered is answered `400` with no files.
pub proof fn lemma_no_file_fields_bad_request(config: ConfigModel, events: Seq<EventModel>)
    requires
        forall|i: int| 0 <= i < events.len() ==> !is_file_field(#[trigger] events[i]),
    ensures
        run(initial(config), events).saved.len() == 0,
        run(initial(config), events).phase is AwaitField || run(initial(config), events).phase
            == (PhaseModel::Finished { status: Status::BadRequest }),
        !(pending_action(run(initial(config), events)) is Save),
{
    lemma_no_file_fields_from(initial(config), events);
}

proof fn lemma_no_file_fields_from(s: UploadModel, events: Seq<EventModel>)
    requires
        forall|i: int| 0 <= i < events.len() ==> !is_file_field(#[trigger] events[i]),
        s.saved.len() == 0,
        s.phase is AwaitField || s.phase == (PhaseModel::Finished { status: Status::BadRequest }),
    ensures
        run(s, events).saved.len() == 0,
        run(s, events).phase is AwaitField || run(s, events).phase == (PhaseModel::Finished {
            status: Status::BadRequest,
        }),
    decreases events.len(),
{
    if events.len() > 0 {
        let rest = events.subrange(1, events.len() as int);
        assert(!is_file_field(events[0]));
        assert forall|i: int| 0 <= i < rest.len() implies !is_file_field(#[trigger] rest[i]) by {
            assert(rest[i] == events[i + 1]);
        }
        lemma_no_file_fields_from(next_state(s, events[0]), rest);
    }
}

/// `n` removal attempts in a row.
pub open spec fn removals(n: nat) -> Seq<EventModel> {
    Seq::new(n, |i: int| EventModel::RollbackAttempted)
}

proof fn lemma_discard_run(t: UploadModel, i: nat)
    requires
        t.phase is Discarding,
        t.saved.len() > 0,
        i <= t.saved.len(),
    ensures
        i < t.saved.len() ==> run(t, removals(i)) == (UploadModel {
            saved: t.saved.subrange(0, t.saved.len() - i),
            ..t
        }),
        i == t.saved.len() ==> run(t, removals(i)) == (UploadModel {
            saved: seq![],
            phase: PhaseModel::Finished { status: Status::BadRequest },
            ..t
        }),
    decreases i,
{
    if i == 0 {
        assert(t.saved.subrange(0, t.saved.len() as int) =~= t.saved);
    } else {
        let n = next_state(t, EventModel::RollbackAttempted);
        lemma_run_front(t, EventModel::RollbackAttempted, removals((i - 1) as nat));
        assert(removals(i) =~= seq![EventModel::RollbackAttempted] + removals((i - 1) as nat));
        if t.saved.len() == 1 {
            assert(removals(0) =~= Seq::<EventModel>::empty());
        } else {
            lemma_discard_run(n, (i - 1) as nat);
            assert(t.saved.drop_last().subrange(0, t.saved.len() - 1 - (i - 1)) =~= t.saved.subrange(
                0,
                t.saved.len() - i,
            ));
        }
    }
}

/// A body that cannot be decoded while a field is awaited leaves no file of
/// the request behind: each saved path, the last saved first, is handed to a
/// removal, and only then is the request answered `400`, listing no files.
pub proof fn lemma_decode_failure_discards_saved(s: UploadModel, i: nat)
    requires
        s.phase is AwaitField,
        i <= s.saved.len(),
    ensures
        i < s.saved.len() ==> pending_action(
            run(s, seq![EventModel::DecodeFailed] + removals(i)),
        ) == (ActionModel::DiscardFile { path: s.saved[s.saved.len() - 1 - i] }),
        i == s.saved.len() ==> pending_action(
            run(s, seq![EventModel::DecodeFailed] + removals(i)),
        ) == (ActionModel::Respond { status: Status::BadRequest, saved_files: seq![] }),
{
    let t = next_state(s, EventModel::DecodeFailed);
    lemma_run_front(s, EventModel::DecodeFailed, removals(i));
    if s.saved.len() == 0 {
        assert(removals(0) =~= Seq::<EventModel>::empty());
    } else {
        lemma_discard_run(t, i);
    }
}

/// When writing a created file fails, the file is removed before anything
/// else happens, it is not listed, and the request is answered `500`.
pub proof fn lemma_write_failure_rolls_back(s: UploadModel, path: Seq<char>)
    requires
        s.phase == (PhaseModel::Saving { path, step: SaveStepModel::Write }),
    ensures
        pending_action(next_state(s, EventModel::StepFailed)) == (ActionModel::RemoveFile {
            path,
            error: SaveError::Write,
        }),
        next_state(s, EventModel::StepFailed).saved == s.saved,
        next_state(next_state(s, EventModel::StepFailed), EventModel::RollbackAttempted).phase == (
        PhaseModel::Finished { status: Status::InternalServerError }),
        pending_action(
            next_state(next_state(s, EventModel::StepFailed), EventModel::RollbackAttempted),
        ) == (ActionModel::Respond { status: Status::InternalServerError, saved_files: seq![] }),
{
}

/// The events of a request with one file field `name` whose every step succeeds.
pub open spec fn single_file_events(config: ConfigModel, name: Seq<char>) -> Seq<EventModel> {
    seq![EventModel::Field { filename: Some(name) }, EventModel::BytesRetrieved] + Seq::new(
        save_plan(config.mode, config.owner).len(),
        |i: int| EventModel::StepSucceeded,
    ) + seq![EventModel::FieldsExhausted]
}

proof fn lemma_run_front(s: UploadModel, e: EventModel, rest: Seq<EventModel>)
    ensures
        run(s, seq![e] + rest) == run(next_state(s, e), rest),
{
    let all = seq![e] + rest;
    assert(all[0] == e);
    assert(all.subrange(1, all.len() as int) =~= rest);
}

proof fn lemma_run_steps(s: UploadModel, path: Seq<char>, i: int, rest: Seq<EventModel>)
    requires
        0 <= i < save_plan(s.config.mode, s.config.owner).len(),
        s.phase == (PhaseModel::Saving {
            path,
            step: save_plan(s.config.mode, s.config.owner)[i],
        }),
    ensures
        run(
            s,
            Seq::new(
                (save_plan(s.config.mode, s.config.owner).len() - i) as nat,
                |k: int| EventModel::StepSucceeded,
            ) + rest,
        ) == run(UploadModel { saved: s.saved.push(path), phase: PhaseModel::AwaitField, ..s }, rest),
    decreases save_plan(s.config.mode, s.config.owner).len() - i,
{
    let plan = save_plan(s.config.mode, s.config.owner);
    lemma_steps_follow_plan(s.config.mode, s.config.owner);
    let evs = Seq::new((plan.len() - i) as nat, |k: int| EventModel::StepSucceeded);
    let tail = Seq::new((plan.len() - i - 1) as nat, |k: int| EventModel::StepSucceeded);
    assert(evs + rest =~= seq![EventModel::StepSucceeded] + (tail + rest));
    lemma_run_front(s, EventModel::StepSucceeded, tail + rest);
    let n = next_state(s, EventModel::StepSucceeded);
    if i < plan.len() - 1 {
        assert(step_after(plan[i], s.config.mode, s.config.owner) == Some(plan[i + 1]));
        lemma_run_steps(n, path, i + 1, rest);
        assert(UploadModel { saved: n.saved.push(path), phase: PhaseModel::AwaitField, ..n }
            == UploadModel { saved: s.saved.push(path), phase: PhaseModel::AwaitField, ..s });
    } else {
        assert(plan[i] == plan.last());
        assert(tail + rest =~= rest);
    }
}

/// A request with one file field, every step of whose save succeeds, is
/// answered `200` listing exactly the name joined onto the save directory.
/// The path depends on the configuration and the name alone, so the same
/// upload made twice succeeds twice and lists the same path both times.
pub proof fn lemma_single_file_upload(config: ConfigModel, name: Seq<char>)
    ensures
        pending_action(run(initial(config), single_file_events(config, name))) == (
        ActionModel::Respond {
            status: Status::Success,
            saved_files: seq![joined_path(config.save_dir, name)],
        }),
{
    let s0 = initial(config);
    let path = joined_path(config.save_dir, name);
    let plan = save_plan(config.mode, config.owner);
    lemma_steps_follow_plan(config.mode, config.owner);
    let steps = Seq::new(plan.len(), |i: int| EventModel::StepSucceeded);
    let last = seq![EventModel::FieldsExhausted];
    let evs = single_file_events(config, name);
    let after_field = seq![EventModel::BytesRetrieved] + (steps + last);
    assert(evs =~= seq![EventModel::Field { filename: Some(name) }] + after_field);
    lemma_run_front(s0, EventModel::Field { filename: Some(name) }, after_field);
    let s1 = next_state(s0, EventModel::Field { filename: Some(name) });
    lemma_run_front(s1, EventModel::BytesRetrieved, steps + last);
    let s2 = next_state(s1, EventModel::BytesRetrieved);
    assert(s2.phase == PhaseModel::Saving { path, step: plan[0] });
    assert(steps =~= Seq::new((plan.len() - 0) as nat, |k: int| EventModel::StepSucceeded));
    lemma_run_steps(s2, path, 0, last);
    let s3 = UploadModel { saved: s2.saved.push(path), phase: PhaseModel::AwaitField, ..s2 };
    lemma_run_front(s3, EventModel::FieldsExhausted, seq![]);
    assert(last =~= seq![EventModel::FieldsExhausted] + Seq::<EventModel>::empty());
    assert(s3.saved =~= seq![path]);
}

} // verus!
