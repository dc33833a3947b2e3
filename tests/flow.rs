use upload_receiver::body::saved_files_body;
use upload_receiver::mode::parse_mode;
use upload_receiver::saver::{SaveError, SaveStep};
use upload_receiver::upload::{Action, Event, Status, Upload, UploadConfig};

fn config(dir: &str, mode: Option<u32>, owner: Option<&str>) -> UploadConfig {
    UploadConfig::new(dir.to_string(), mode, owner.map(|o| o.to_string()))
}

fn file_field(name: &str) -> Event {
    Event::Field { filename: Some(name.to_string()) }
}

fn save(path: &str, step: SaveStep) -> Action {
    Action::Save { path: path.to_string(), step }
}

fn respond(status: Status, files: &[&str]) -> Action {
    Action::Respond { status, saved_files: files.iter().map(|f| f.to_string()).collect() }
}

/// Feeds each event and records the action pending after it.
fn drive(up: &mut Upload, events: Vec<Event>) -> Vec<Action> {
    let mut actions = vec![up.pending()];
    for e in events {
        up.step(e);
        actions.push(up.pending());
    }
    actions
}

#[test]
fn one_file_with_mode() {
    let mode = parse_mode("640").unwrap();
    let mut up = Upload::new(config("/tmp/up", Some(mode), None));
    let actions = drive(
        &mut up,
        vec![
            file_field("a.txt"),
            Event::BytesRetrieved,
            Event::StepSucceeded,
            Event::StepSucceeded,
            Event::StepSucceeded,
            Event::FieldsExhausted,
        ],
    );
    assert_eq!(
        actions,
        vec![
            Action::PullField,
            Action::FetchBytes,
            save("/tmp/up/a.txt", SaveStep::Create),
            save("/tmp/up/a.txt", SaveStep::Write),
            save("/tmp/up/a.txt", SaveStep::SetMode { mode: 0o640 }),
            Action::PullField,
            respond(Status::Success, &["/tmp/up/a.txt"]),
        ]
    );
    assert!(up.is_finished());
    assert_eq!(Status::Success.code(), 200);
    let files = vec!["/tmp/up/a.txt".to_string()];
    assert_eq!(saved_files_body(&files), "{\"saved_files\":[\"/tmp/up/a.txt\"]}");
}

#[test]
fn only_plain_field_is_bad_request() {
    let mut up = Upload::new(config("/tmp/up", None, None));
    let actions = drive(
        &mut up,
        vec![Event::Field { filename: None }, Event::FieldsExhausted],
    );
    assert_eq!(
        actions,
        vec![Action::PullField, Action::PullField, respond(Status::BadRequest, &[])]
    );
    assert_eq!(Status::BadRequest.code(), 400);
}

#[test]
fn empty_body_is_bad_request() {
    let mut up = Upload::new(config("/tmp/up", Some(0o644), Some("nobody")));
    let actions = drive(&mut up, vec![Event::FieldsExhausted]);
    assert_eq!(actions, vec![Action::PullField, respond(Status::BadRequest, &[])]);
}

#[test]
fn malformed_body_is_bad_request() {
    let mut up = Upload::new(config("/tmp/up", None, None));
    let actions = drive(&mut up, vec![Event::DecodeFailed]);
    assert_eq!(actions, vec![Action::PullField, respond(Status::BadRequest, &[])]);
}

#[test]
fn decode_failure_discards_saved_files() {
    let mut up = Upload::new(config("d", None, None));
    let actions = drive(
        &mut up,
        vec![
            file_field("a"),
            Event::BytesRetrieved,
            Event::StepSucceeded,
            Event::StepSucceeded,
            file_field("b"),
            Event::BytesRetrieved,
            Event::StepSucceeded,
            Event::StepSucceeded,
            Event::DecodeFailed,
            Event::RollbackAttempted,
            Event::RollbackAttempted,
        ],
    );
    assert_eq!(
        actions[9..].to_vec(),
        vec![
            Action::DiscardFile { path: "d/b".to_string() },
            Action::DiscardFile { path: "d/a".to_string() },
            respond(Status::BadRequest, &[]),
        ]
    );
}

#[test]
fn discarding_ignores_other_events() {
    let mut up = Upload::new(config("d", None, None));
    let actions = drive(
        &mut up,
        vec![
            file_field("a"),
            Event::BytesRetrieved,
            Event::StepSucceeded,
            Event::StepSucceeded,
            Event::DecodeFailed,
            Event::FieldsExhausted,
            Event::RollbackAttempted,
        ],
    );
    assert_eq!(actions[5], Action::DiscardFile { path: "d/a".to_string() });
    assert_eq!(actions[6], Action::DiscardFile { path: "d/a".to_string() });
    assert_eq!(actions[7], respond(Status::BadRequest, &[]));
}

#[test]
fn write_failure_rolls_back() {
    let mut up = Upload::new(config("/srv", Some(0o600), None));
    let actions = drive(
        &mut up,
        vec![
            file_field("f.bin"),
            Event::BytesRetrieved,
            Event::StepSucceeded,
            Event::StepFailed,
            Event::RollbackAttempted,
        ],
    );
    assert_eq!(
        actions[4],
        Action::RemoveFile { path: "/srv/f.bin".to_string(), error: SaveError::Write }
    );
    assert_eq!(actions[5], respond(Status::InternalServerError, &[]));
    assert_eq!(Status::InternalServerError.code(), 500);
}

#[test]
fn each_step_failure_names_its_step() {
    let cases = [
        (0usize, SaveError::Create),
        (1, SaveError::Write),
        (2, SaveError::Permissions),
        (3, SaveError::Owner),
    ];
    for (successes, error) in cases {
        let mut up = Upload::new(config("d", Some(0o644), Some("alice")));
        let mut events = vec![file_field("x"), Event::BytesRetrieved];
        for _ in 0..successes {
            events.push(Event::StepSucceeded);
        }
        events.push(Event::StepFailed);
        let actions = drive(&mut up, events);
        assert_eq!(
            actions.last().unwrap(),
            &Action::RemoveFile { path: "d/x".to_string(), error }
        );
    }
}

#[test]
fn owner_step_after_mode() {
    let mut up = Upload::new(config("d", Some(0o644), Some("alice")));
    let actions = drive(
        &mut up,
        vec![
            file_field("x"),
            Event::BytesRetrieved,
            Event::StepSucceeded,
            Event::StepSucceeded,
            Event::StepSucceeded,
            Event::StepSucceeded,
            Event::FieldsExhausted,
        ],
    );
    assert_eq!(actions[5], save("d/x", SaveStep::SetOwner { owner: "alice".to_string() }));
    assert_eq!(actions[6], Action::PullField);
    assert_eq!(actions[7], respond(Status::Success, &["d/x"]));
}

#[test]
fn owner_without_mode() {
    let mut up = Upload::new(config("d", None, Some("1000")));
    let actions = drive(
        &mut up,
        vec![file_field("x"), Event::BytesRetrieved, Event::StepSucceeded, Event::StepSucceeded],
    );
    assert_eq!(actions[4], save("d/x", SaveStep::SetOwner { owner: "1000".to_string() }));
}

#[test]
fn no_mode_no_owner_saves_after_write() {
    let mut up = Upload::new(config("d", None, None));
    let actions = drive(
        &mut up,
        vec![file_field("x"), Event::BytesRetrieved, Event::StepSucceeded, Event::StepSucceeded],
    );
    assert_eq!(actions[4], Action::PullField);
}

#[test]
fn byte_retrieval_failure_is_internal_error() {
    let mut up = Upload::new(config("d", None, None));
    let actions = drive(&mut up, vec![file_field("x"), Event::BytesFailed]);
    assert_eq!(actions[2], respond(Status::InternalServerError, &[]));
}

#[test]
fn same_name_twice_both_succeed_on_same_path() {
    let mut paths = Vec::new();
    for _ in 0..2 {
        let mut up = Upload::new(config("/tmp/up", None, None));
        let actions = drive(
            &mut up,
            vec![
                file_field("a.txt"),
                Event::BytesRetrieved,
                Event::StepSucceeded,
                Event::StepSucceeded,
                Event::FieldsExhausted,
            ],
        );
        assert_eq!(actions[2], save("/tmp/up/a.txt", SaveStep::Create));
        assert_eq!(actions[5], respond(Status::Success, &["/tmp/up/a.txt"]));
        paths.push(actions[2].clone());
    }
    assert_eq!(paths[0], paths[1]);
}

#[test]
fn files_listed_in_decoding_order_and_plain_fields_skipped() {
    let mut up = Upload::new(config("d", None, None));
    let actions = drive(
        &mut up,
        vec![
            file_field("z"),
            Event::BytesRetrieved,
            Event::StepSucceeded,
            Event::StepSucceeded,
            Event::Field { filename: None },
            file_field("a"),
            Event::BytesRetrieved,
            Event::StepSucceeded,
            Event::StepSucceeded,
            Event::FieldsExhausted,
        ],
    );
    assert_eq!(actions.last().unwrap(), &respond(Status::Success, &["d/z", "d/a"]));
}

#[test]
fn earlier_files_stay_when_a_later_one_fails() {
    let mut up = Upload::new(config("d", None, None));
    let actions = drive(
        &mut up,
        vec![
            file_field("a"),
            Event::BytesRetrieved,
            Event::StepSucceeded,
            Event::StepSucceeded,
            file_field("b"),
            Event::BytesRetrieved,
            Event::StepFailed,
        ],
    );
    assert_eq!(
        actions.last().unwrap(),
        &Action::RemoveFile { path: "d/b".to_string(), error: SaveError::Create }
    );
}

#[test]
fn unexpected_events_change_nothing() {
    let mut up = Upload::new(config("d", None, None));
    let actions = drive(
        &mut up,
        vec![Event::StepSucceeded, Event::BytesRetrieved, Event::RollbackAttempted],
    );
    assert_eq!(actions, vec![Action::PullField; 4]);
}

#[test]
fn finished_request_stays_finished() {
    let mut up = Upload::new(config("d", None, None));
    let actions = drive(&mut up, vec![Event::DecodeFailed, file_field("a"), Event::FieldsExhausted]);
    assert_eq!(actions[3], respond(Status::BadRequest, &[]));
}
