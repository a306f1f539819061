//! The get agent: for each input line it decides what the loop must do,
//! and after the HTTP call it decodes the fetched note and builds the
//! output envelope or the error.

use vstd::prelude::*;
use crate::config::AgentConfig;
use crate::json::Json;
use crate::outside::{parse_json, json_of_text};
use crate::protocol::{Command, dispatch, envelope_of, split_envelope, head_token, tail_arg};
use crate::request::{FetchOutcome, http_success, status_is_success};
use crate::text::{trimmed, lit_ctx, lit_ch, lit_data, lit_note, lit_kind, lit_object, lit_value};
use crate::validate::{AgentError, validate_get, validate_get_spec};

verus! {

/// The validated parameters of one fetch, with the `ctx` that the output
/// envelope echoes back.
#[derive(Debug, PartialEq)]
pub struct GetRequest {
    pub path: Vec<char>,
    pub ctx: Json,
}

/// What one input line obliges the get agent's loop to do.
#[derive(Debug, PartialEq)]
pub enum GetDirective {
    /// Nothing: an empty line, a configuration, or an unknown command.
    Ignore,
    /// Terminate the process with success.
    Quit,
    /// Log the error and go on; no output line is produced.
    Reject(AgentError),
    /// Perform the fetch, then conclude with its outcome.
    Request(GetRequest),
}

/// The get agent's whole decision for one line, short of the HTTP call
/// itself.
pub open spec fn get_step_spec(line: Seq<char>, d: GetDirective) -> bool {
    let t = trimmed(line);
    let cmd = head_token(t);
    let arg = tail_arg(t);
    if t.len() == 0 {
        d is Ignore
    } else if cmd == ".CONFIG"@ {
        d is Ignore
    } else if cmd == ".IN"@ {
        match json_of_text(arg) {
            Option::None => d == GetDirective::Reject(AgentError::MalformedCommand),
            Option::Some(j) => match envelope_of(j) {
                Option::None => d == GetDirective::Reject(AgentError::MalformedCommand),
                Option::Some(e) => match validate_get_spec(e.1) {
                    Result::Err(err) => d == GetDirective::Reject(err),
                    Result::Ok(p) => d matches GetDirective::Request(req) && req.path@ == p
                        && req.ctx == e.0,
                },
            },
        }
    } else if cmd == ".QUIT"@ {
        d is Quit
    } else {
        d is Ignore
    }
}

/// The output envelope of a completed fetch: the echoed `ctx`, the fixed
/// channel tag, and the note wrapped as a tagged object payload.
pub open spec fn get_out_spec(ctx: Json, note: Json, env: Json) -> bool {
    &&& env matches Json::Obj(fs)
    &&& fs@.len() == 3
    &&& fs@[0].0@ == "ctx"@ && fs@[0].1 == ctx
    &&& fs@[1].0@ == "ch"@
    &&& fs@[1].1 matches Json::Str(c) && c@ == "note"@
    &&& fs@[2].0@ == "data"@
    &&& fs@[2].1 matches Json::Obj(ds)
    &&& ds@.len() == 2
    &&& ds@[0].0@ == "kind"@
    &&& ds@[0].1 matches Json::Str(k) && k@ == "object"@
    &&& ds@[1].0@ == "value"@ && ds@[1].1 == note
}

/// How the outcome of the fetch maps to the command's result: only a
/// success status whose body decodes as JSON yields the one output
/// envelope; anything else is the remote failure, and no output.
pub open spec fn get_conclude_spec(
    req: GetRequest,
    outcome: FetchOutcome,
    r: Result<Json, AgentError>,
) -> bool {
    match outcome {
        FetchOutcome::Response(s, b) => {
            if http_success(s) {
                match json_of_text(b@) {
                    Option::Some(note) => r matches Ok(env) && get_out_spec(req.ctx, note, env),
                    Option::None => r == Err::<Json, AgentError>(AgentError::RemoteFailure),
                }
            } else {
                r == Err::<Json, AgentError>(AgentError::RemoteFailure)
            }
        },
        FetchOutcome::TransportFailed => r == Err::<Json, AgentError>(AgentError::RemoteFailure),
    }
}

/// The agent that fetches a note.
pub struct ObsidianGetNoteAgent {
    pub config: AgentConfig,
}

impl ObsidianGetNoteAgent {
    /// A fresh agent holding its static configuration.
    pub fn new(config: AgentConfig) -> (r: Self)
        ensures
            r.config == config,
    {
        ObsidianGetNoteAgent { config }
    }

    /// Decides one input line: dispatches the command, decodes and
    /// validates an input envelope, and hands the loop its directive.
    pub fn process_line(&self, line: &[char]) -> (d: GetDirective)
        ensures
            get_step_spec(line@, d),
    {
        match dispatch(line) {
            Command::Empty => GetDirective::Ignore,
            Command::Config => GetDirective::Ignore,
            Command::Quit => GetDirective::Quit,
            Command::Unknown => GetDirective::Ignore,
            Command::In(arg) => match parse_json(arg) {
                None => GetDirective::Reject(AgentError::MalformedCommand),
                Some(j) => match split_envelope(j) {
                    None => GetDirective::Reject(AgentError::MalformedCommand),
                    Some((ctx, data)) => self.process_input(ctx, data),
                },
            },
        }
    }

    /// Validates the envelope's `data` and either forms the fetch request
    /// or rejects the command.
    pub fn process_input(&self, ctx: Json, data: Json) -> (d: GetDirective)
        ensures
            match validate_get_spec(data) {
                Result::Err(e) => d == GetDirective::Reject(e),
                Result::Ok(p) => d matches GetDirective::Request(req) && req.path@ == p && req.ctx
                    == ctx,
            },
    {
        match validate_get(&data) {
            Err(e) => GetDirective::Reject(e),
            Ok(path) => GetDirective::Request(GetRequest { path, ctx }),
        }
    }

    /// Reads the call's outcome: on a success status whose body decodes as
    /// JSON, the one output envelope around the fetched note; on anything
    /// else the remote failure, and no output.
    pub fn conclude(&self, req: GetRequest, outcome: FetchOutcome) -> (r: Result<Json, AgentError>)
        ensures
            get_conclude_spec(req, outcome, r),
    {
        match outcome {
            FetchOutcome::Response(s, body) => {
                if status_is_success(s) {
                    match parse_json(body.as_slice()) {
                        None => Err(AgentError::RemoteFailure),
                        Some(note) => {
                            let mut ds: Vec<(Vec<char>, Json)> = Vec::new();
                            ds.push((lit_kind(), Json::Str(lit_object())));
                            ds.push((lit_value(), note));
                            let mut fs: Vec<(Vec<char>, Json)> = Vec::new();
                            fs.push((lit_ctx(), req.ctx));
                            fs.push((lit_ch(), Json::Str(lit_note())));
                            fs.push((lit_data(), Json::Obj(ds)));
                            Ok(Json::Obj(fs))
                        },
                    }
                } else {
                    Err(AgentError::RemoteFailure)
                }
            },
            FetchOutcome::TransportFailed => Err(AgentError::RemoteFailure),
        }
    }
}

} // verus!
