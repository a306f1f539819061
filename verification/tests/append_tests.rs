use mnemnk_obsidian_notes::append_agent::{AppendDirective, ObsidianAppendNoteAgent};
use mnemnk_obsidian_notes::config::AgentConfig;
use mnemnk_obsidian_notes::json::Json;
use mnemnk_obsidian_notes::request::HttpOutcome;
use mnemnk_obsidian_notes::validate::AgentError;

fn chars(s: &str) -> Vec<char> {
    s.chars().collect()
}

fn agent() -> ObsidianAppendNoteAgent {
    ObsidianAppendNoteAgent::new(AgentConfig::default())
}

fn scenario_line() -> Vec<char> {
    chars(".IN {\"ctx\":{\"id\":1},\"data\":{\"value\":{\"path\":\"notes/a.md\",\"content\":\"hello\"}}}")
}

fn scenario_ctx() -> Json {
    Json::Obj(vec![(chars("id"), Json::Num(chars("1")))])
}

// The decoder keeps an object's fields in the order its map hands them
// out, which is sorted by name.
fn scenario_data() -> Json {
    Json::Obj(vec![(
        chars("value"),
        Json::Obj(vec![
            (chars("content"), Json::Str(chars("hello"))),
            (chars("path"), Json::Str(chars("notes/a.md"))),
        ]),
    )])
}

#[test]
fn append_success_emits_one_echoed_output() {
    let a = agent();
    let line = scenario_line();
    let req = match a.process_line(&line) {
        AppendDirective::Request(req) => req,
        other => panic!("expected a request, got {:?}", other),
    };
    assert_eq!(req.path, chars("notes/a.md"));
    assert_eq!(req.content, chars("hello"));
    assert_eq!(req.ctx, scenario_ctx());
    assert_eq!(req.data, scenario_data());
    let out = a.conclude(req, HttpOutcome::Status(200)).unwrap();
    let expected = Json::Obj(vec![
        (chars("ctx"), scenario_ctx()),
        (chars("ch"), Json::Str(chars("data"))),
        (chars("data"), scenario_data()),
    ]);
    assert_eq!(out, expected);
}

#[test]
fn append_remote_failure_yields_no_output() {
    let a = agent();
    let line = scenario_line();
    let req = match a.process_line(&line) {
        AppendDirective::Request(req) => req,
        other => panic!("expected a request, got {:?}", other),
    };
    assert_eq!(a.conclude(req, HttpOutcome::Status(404)), Err(AgentError::RemoteFailure));
}

#[test]
fn append_transport_failure_yields_no_output() {
    let a = agent();
    let line = scenario_line();
    let req = match a.process_line(&line) {
        AppendDirective::Request(req) => req,
        other => panic!("expected a request, got {:?}", other),
    };
    assert_eq!(a.conclude(req, HttpOutcome::TransportFailed), Err(AgentError::RemoteFailure));
}

#[test]
fn quit_directs_the_loop_to_exit() {
    let a = agent();
    let line = chars(".QUIT");
    assert_eq!(a.process_line(&line), AppendDirective::Quit);
}

#[test]
fn malformed_json_is_rejected() {
    let a = agent();
    let line = chars(".IN {oops");
    assert_eq!(a.process_line(&line), AppendDirective::Reject(AgentError::MalformedCommand));
}

#[test]
fn bare_in_is_rejected() {
    let a = agent();
    let line = chars(".IN");
    assert_eq!(a.process_line(&line), AppendDirective::Reject(AgentError::MalformedCommand));
}

#[test]
fn envelope_without_ctx_is_rejected() {
    let a = agent();
    let line = chars(".IN {\"data\":{\"value\":{\"path\":\"a\",\"content\":\"b\"}}}");
    assert_eq!(a.process_line(&line), AppendDirective::Reject(AgentError::MalformedCommand));
}

#[test]
fn append_invalid_path_is_rejected() {
    let a = agent();
    let line = chars(".IN {\"ctx\":{},\"data\":{\"value\":{\"path\":\"notes/\",\"content\":\"x\"}}}");
    assert_eq!(a.process_line(&line), AppendDirective::Reject(AgentError::InvalidPath));
}

#[test]
fn append_decision_is_repeatable() {
    let a = agent();
    let line = scenario_line();
    assert_eq!(a.process_line(&line), a.process_line(&line));
    let bad = chars(".IN {\"ctx\":{},\"data\":{\"value\":{\"path\":\"\",\"content\":\"x\"}}}");
    assert_eq!(a.process_line(&bad), a.process_line(&bad));
}

#[test]
fn empty_and_config_lines_are_ignored() {
    let a = agent();
    assert_eq!(a.process_line(&chars("   ")), AppendDirective::Ignore);
    assert_eq!(a.process_line(&chars(".CONFIG {}")), AppendDirective::Ignore);
    assert_eq!(a.process_line(&chars(".WHAT now")), AppendDirective::Ignore);
}
