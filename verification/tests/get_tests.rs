use mnemnk_obsidian_notes::config::AgentConfig;
use mnemnk_obsidian_notes::get_agent::{GetDirective, ObsidianGetNoteAgent};
use mnemnk_obsidian_notes::json::Json;
use mnemnk_obsidian_notes::request::FetchOutcome;
use mnemnk_obsidian_notes::validate::AgentError;

fn chars(s: &str) -> Vec<char> {
    s.chars().collect()
}

fn agent() -> ObsidianGetNoteAgent {
    ObsidianGetNoteAgent::new(AgentConfig::default())
}

// The decoder keeps an object's fields in the order its map hands them
// out, which is sorted by name.
fn fetched_note() -> Json {
    Json::Obj(vec![
        (chars("content"), Json::Str(chars("hello"))),
        (chars("path"), Json::Str(chars("notes/a.md"))),
    ])
}

#[test]
fn get_by_string_value_emits_the_note() {
    let a = agent();
    let line = chars(".IN {\"ctx\":{},\"data\":{\"value\":\"notes/a.md\"}}");
    let req = match a.process_line(&line) {
        GetDirective::Request(req) => req,
        other => panic!("expected a request, got {:?}", other),
    };
    assert_eq!(req.path, chars("notes/a.md"));
    assert_eq!(req.ctx, Json::Obj(vec![]));
    let body = chars("{\"path\":\"notes/a.md\",\"content\":\"hello\"}");
    let out = a.conclude(req, FetchOutcome::Response(200, body)).unwrap();
    let expected = Json::Obj(vec![
        (chars("ctx"), Json::Obj(vec![])),
        (chars("ch"), Json::Str(chars("note"))),
        (
            chars("data"),
            Json::Obj(vec![
                (chars("kind"), Json::Str(chars("object"))),
                (chars("value"), fetched_note()),
            ]),
        ),
    ]);
    assert_eq!(out, expected);
}

#[test]
fn get_by_object_value_extracts_the_path() {
    let a = agent();
    let line = chars(".IN {\"ctx\":{\"id\":2},\"data\":{\"value\":{\"path\":\"notes/b.md\"}}}");
    let req = match a.process_line(&line) {
        GetDirective::Request(req) => req,
        other => panic!("expected a request, got {:?}", other),
    };
    assert_eq!(req.path, chars("notes/b.md"));
    assert_eq!(req.ctx, Json::Obj(vec![(chars("id"), Json::Num(chars("2")))]));
}

#[test]
fn get_invalid_path_is_rejected() {
    let a = agent();
    let line = chars(".IN {\"ctx\":{},\"data\":{\"value\":\"folder/\"}}");
    assert_eq!(a.process_line(&line), GetDirective::Reject(AgentError::InvalidPath));
}

#[test]
fn get_remote_failure_yields_no_output() {
    let a = agent();
    let line = chars(".IN {\"ctx\":{},\"data\":{\"value\":\"notes/a.md\"}}");
    let req = match a.process_line(&line) {
        GetDirective::Request(req) => req,
        other => panic!("expected a request, got {:?}", other),
    };
    assert_eq!(
        a.conclude(req, FetchOutcome::Response(404, chars(""))),
        Err(AgentError::RemoteFailure)
    );
}

#[test]
fn get_malformed_body_yields_no_output() {
    let a = agent();
    let line = chars(".IN {\"ctx\":{},\"data\":{\"value\":\"notes/a.md\"}}");
    let req = match a.process_line(&line) {
        GetDirective::Request(req) => req,
        other => panic!("expected a request, got {:?}", other),
    };
    assert_eq!(
        a.conclude(req, FetchOutcome::Response(200, chars("not json"))),
        Err(AgentError::RemoteFailure)
    );
}

#[test]
fn get_transport_failure_yields_no_output() {
    let a = agent();
    let line = chars(".IN {\"ctx\":{},\"data\":{\"value\":\"notes/a.md\"}}");
    let req = match a.process_line(&line) {
        GetDirective::Request(req) => req,
        other => panic!("expected a request, got {:?}", other),
    };
    assert_eq!(a.conclude(req, FetchOutcome::TransportFailed), Err(AgentError::RemoteFailure));
}

#[test]
fn get_quit_directs_the_loop_to_exit() {
    let a = agent();
    assert_eq!(a.process_line(&chars(" .QUIT ")), GetDirective::Quit);
}

#[test]
fn get_decision_is_repeatable() {
    let a = agent();
    let line = chars(".IN {\"ctx\":{},\"data\":{\"value\":\"notes/a.md\"}}");
    assert_eq!(a.process_line(&line), a.process_line(&line));
}
