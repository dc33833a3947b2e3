use upload_receiver::body::{frame_saved_files, saved_files_body};

#[test]
fn body_single_path() {
    let paths = vec!["/tmp/up/a.txt".to_string()];
    assert_eq!(
        saved_files_body(&paths),
        "{\"saved_files\":[\"/tmp/up/a.txt\"]}"
    );
}

#[test]
fn body_keeps_order() {
    let paths = vec!["d/b".to_string(), "d/a".to_string(), "d/c".to_string()];
    assert_eq!(
        saved_files_body(&paths),
        "{\"saved_files\":[\"d/b\",\"d/a\",\"d/c\"]}"
    );
}

#[test]
fn body_escapes_paths() {
    let paths = vec!["d/a\"b\\c".to_string()];
    assert_eq!(
        saved_files_body(&paths),
        "{\"saved_files\":[\"d/a\\\"b\\\\c\"]}"
    );
}

#[test]
fn body_parses_as_json() {
    let paths = vec!["x/é.txt".to_string(), "x/2".to_string()];
    let text = saved_files_body(&paths);
    let v: serde_json::Value = serde_json::from_str(&text).unwrap();
    assert_eq!(v["saved_files"][0], "x/é.txt");
    assert_eq!(v["saved_files"][1], "x/2");
}

#[test]
fn frame_empty_list() {
    assert_eq!(frame_saved_files(&vec![]), "{\"saved_files\":[]}");
}

#[test]
fn frame_takes_encoded_values_verbatim() {
    let encoded = vec!["1".to_string(), "\"a\"".to_string()];
    assert_eq!(frame_saved_files(&encoded), "{\"saved_files\":[1,\"a\"]}");
}

#[test]
fn body_escapes_control_characters() {
    let paths = vec!["a\u{8}\t\n\u{c}\r\u{1}\u{1f}\u{7f} /é".to_string()];
    assert_eq!(
        saved_files_body(&paths),
        "{\"saved_files\":[\"a\\b\\t\\n\\f\\r\\u0001\\u001f\u{7f} /é\"]}"
    );
}

#[test]
fn body_matches_serde_json_for_every_ascii_character() {
    let all: String = (0u8..128).map(|b| b as char).collect();
    let paths = vec![all.clone()];
    let expected = format!("{{\"saved_files\":[{}]}}", serde_json::to_string(&all).unwrap());
    assert_eq!(saved_files_body(&paths), expected);
}
