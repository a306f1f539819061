use mnemnk_obsidian_notes::json::Json;
use mnemnk_obsidian_notes::validate::{validate_append, validate_get, AgentError};

fn chars(s: &str) -> Vec<char> {
    s.chars().collect()
}

fn append_data(path: &str, content: &str) -> Json {
    Json::Obj(vec![(
        chars("value"),
        Json::Obj(vec![
            (chars("path"), Json::Str(chars(path))),
            (chars("content"), Json::Str(chars(content))),
        ]),
    )])
}

#[test]
fn valid_append_extracts_path_and_content() {
    let data = append_data("notes/a.md", "hello");
    assert_eq!(validate_append(&data), Ok((chars("notes/a.md"), chars("hello"))));
}

#[test]
fn append_data_must_be_an_object() {
    assert_eq!(validate_append(&Json::Null), Err(AgentError::InvalidInput));
}

#[test]
fn append_value_must_be_present() {
    let data = Json::Obj(vec![]);
    assert_eq!(validate_append(&data), Err(AgentError::MissingField));
}

#[test]
fn append_value_must_be_an_object() {
    let data = Json::Obj(vec![(chars("value"), Json::Str(chars("notes/a.md")))]);
    assert_eq!(validate_append(&data), Err(AgentError::InvalidInput));
}

#[test]
fn append_path_must_be_present() {
    let data = Json::Obj(vec![(
        chars("value"),
        Json::Obj(vec![(chars("content"), Json::Str(chars("hello")))]),
    )]);
    assert_eq!(validate_append(&data), Err(AgentError::MissingField));
}

#[test]
fn append_path_must_be_a_string() {
    let data = Json::Obj(vec![(
        chars("value"),
        Json::Obj(vec![
            (chars("path"), Json::Num(chars("1"))),
            (chars("content"), Json::Str(chars("hello"))),
        ]),
    )]);
    assert_eq!(validate_append(&data), Err(AgentError::MissingField));
}

#[test]
fn append_content_must_be_present() {
    let data = Json::Obj(vec![(
        chars("value"),
        Json::Obj(vec![(chars("path"), Json::Str(chars("notes/a.md")))]),
    )]);
    assert_eq!(validate_append(&data), Err(AgentError::MissingField));
}

#[test]
fn append_empty_path_is_invalid() {
    let data = append_data("", "hello");
    assert_eq!(validate_append(&data), Err(AgentError::InvalidPath));
}

#[test]
fn append_separator_terminated_path_is_invalid() {
    let data = append_data("notes/", "hello");
    assert_eq!(validate_append(&data), Err(AgentError::InvalidPath));
}

#[test]
fn get_accepts_a_string_value() {
    let data = Json::Obj(vec![(chars("value"), Json::Str(chars("notes/a.md")))]);
    assert_eq!(validate_get(&data), Ok(chars("notes/a.md")));
}

#[test]
fn get_accepts_an_object_value_with_a_path() {
    let data = Json::Obj(vec![(
        chars("value"),
        Json::Obj(vec![(chars("path"), Json::Str(chars("notes/b.md")))]),
    )]);
    assert_eq!(validate_get(&data), Ok(chars("notes/b.md")));
}

#[test]
fn get_refuses_other_value_shapes() {
    let data = Json::Obj(vec![(chars("value"), Json::Num(chars("3")))]);
    assert_eq!(validate_get(&data), Err(AgentError::InvalidInput));
}

#[test]
fn get_value_must_be_present() {
    assert_eq!(validate_get(&Json::Obj(vec![])), Err(AgentError::MissingField));
}

#[test]
fn get_object_value_needs_a_path() {
    let data = Json::Obj(vec![(chars("value"), Json::Obj(vec![]))]);
    assert_eq!(validate_get(&data), Err(AgentError::MissingField));
}

#[test]
fn get_empty_path_is_invalid() {
    let data = Json::Obj(vec![(chars("value"), Json::Str(chars("")))]);
    assert_eq!(validate_get(&data), Err(AgentError::InvalidPath));
}

#[test]
fn get_separator_terminated_path_is_invalid() {
    let data = Json::Obj(vec![(chars("value"), Json::Str(chars("folder/")))]);
    assert_eq!(validate_get(&data), Err(AgentError::InvalidPath));
}
