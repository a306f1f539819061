//! The append agent: for each input line it decides what the loop must do,
//! and after the HTTP call it builds the output envelope or the error.

use vstd::prelude::*;
use crate::config::AgentConfig;
use crate::json::Json;
use crate::outside::{parse_json, json_of_text};
use crate::protocol::{Command, dispatch, envelope_of, split_envelope, head_token, tail_arg};
use crate::request::{HttpOutcome, http_success, status_is_success};
use crate::text::{trimmed, lit_ctx, lit_ch, lit_data};
use crate::validate::{AgentError, validate_append, validate_append_spec};

verus! {

/// The validated parameters of one append action, together with the two
/// values that the output envelope echoes back.
#[derive(Debug, PartialEq)]
pub struct AppendRequest {
    pub path: Vec<char>,
    pub content: Vec<char>,
    pub ctx: Json,
    pub data: Json,
}

/// What one input line obliges the append agent's loop to do.
#[derive(Debug, PartialEq)]
pub enum AppendDirective {
    /// Nothing: an empty line, a configuration, or an unknown command.
    Ignore,
    /// Terminate the process with success.
    Quit,
    /// Log the error and go on; no output line is produced.
    Reject(AgentError),
    /// Perform the append call, then conclude with its outcome.
    Request(AppendRequest),
}

/// The append agent's whole decision for one line, short of the HTTP call
/// itself.
pub open spec fn append_step_spec(line: Seq<char>, d: AppendDirective) -> bool {
    let t = trimmed(line);
    let cmd = head_token(t);
    let arg = tail_arg(t);
    if t.len() == 0 {
        d is Ignore
    } else if cmd == ".CONFIG"@ {
        d is Ignore
    } else if cmd == ".IN"@ {
        match json_of_text(arg) {
            Option::None => d == AppendDirective::Reject(AgentError::MalformedCommand),
            Option::Some(j) => match envelope_of(j) {
                Option::None => d == AppendDirective::Reject(AgentError::MalformedCommand),
                Option::Some(e) => match validate_append_spec(e.1) {
                    Result::Err(err) => d == AppendDirective::Reject(err),
                    Result::Ok(pc) => d matches AppendDirective::Request(req) && req.path@ == pc.0
                        && req.content@ == pc.1 && req.ctx == e.0 && req.data == e.1,
                },
            },
        }
    } else if cmd == ".QUIT"@ {
        d is Quit
    } else {
        d is Ignore
    }
}

/// The output envelope of a completed append: the echoed `ctx`, the fixed
/// channel tag, and the echoed `data`.
pub open spec fn append_out_spec(ctx: Json, data: Json, env: Json) -> bool {
    &&& env matches Json::Obj(fs)
    &&& fs@.len() == 3
    &&& fs@[0].0@ == "ctx"@ && fs@[0].1 == ctx
    &&& fs@[1].0@ == "ch"@
    &&& fs@[1].1 matches Json::Str(c) && c@ == "data"@
    &&& fs@[2].0@ == "data"@ && fs@[2].1 == data
}

/// How the outcome of the append call maps to the command's result: only a
/// success status yields the one output envelope; anything else is the
/// remote failure, and no output.
pub open spec fn append_conclude_spec(
    req: AppendRequest,
    outcome: HttpOutcome,
    r: Result<Json, AgentError>,
) -> bool {
    match outcome {
        HttpOutcome::Status(s) => if http_success(s) {
            r matches Ok(env) && append_out_spec(req.ctx, req.data, env)
        } else {
            r == Err::<Json, AgentError>(AgentError::RemoteFailure)
        },
        HttpOutcome::TransportFailed => r == Err::<Json, AgentError>(AgentError::RemoteFailure),
    }
}

/// The agent that appends content to a note.
pub struct ObsidianAppendNoteAgent {
    pub config: AgentConfig,
}

impl ObsidianAppendNoteAgent {
    /// A fresh agent holding its static configuration.
    pub fn new(config: AgentConfig) -> (r: Self)
        ensures
            r.config == config,
    {
        ObsidianAppendNoteAgent { config }
    }

    /// Decides one input line: dispatches the command, decodes and
    /// validates an input envelope, and hands the loop its directive.
    pub fn process_line(&self, line: &[char]) -> (d: AppendDirective)
        ensures
            append_step_spec(line@, d),
    {
        match dispatch(line) {
            Command::Empty => AppendDirective::Ignore,
            Command::Config => AppendDirective::Ignore,
            Command::Quit => AppendDirective::Quit,
            Command::Unknown => AppendDirective::Ignore,
            Command::In(arg) => match parse_json(arg) {
                None => AppendDirective::Reject(AgentError::MalformedCommand),
                Some(j) => match split_envelope(j) {
                    None => AppendDirective::Reject(AgentError::MalformedCommand),
                    Some((ctx, data)) => self.process_input(ctx, data),
                },
            },
        }
    }

    /// Validates the envelope's `data` and either forms the append request
    /// or rejects the command.
    pub fn process_input(&self, ctx: Json, data: Json) -> (d: AppendDirective)
        ensures
            match validate_append_spec(data) {
                Result::Err(e) => d == AppendDirective::Reject(e),
                Result::Ok(pc) => d matches AppendDirective::Request(req) && req.path@ == pc.0
                    && req.content@ == pc.1 && req.ctx == ctx && req.data == data,
            },
    {
        match validate_append(&data) {
            Err(e) => AppendDirective::Reject(e),
            Ok((path, content)) => AppendDirective::Request(
                AppendRequest { path, content, ctx, data },
            ),
        }
    }

    /// Reads the call's outcome: on a success status the one output
    /// envelope, echoing the request's `ctx` and `data`; on anything else
    /// the remote failure, and no output.
    pub fn conclude(&self, req: AppendRequest, outcome: HttpOutcome) -> (r: Result<
        Json,
        AgentError,
    >)
        ensures
            append_conclude_spec(req, outcome, r),
    {
        match outcome {
            HttpOutcome::Status(s) => {
                if status_is_success(s) {
                    let mut fs: Vec<(Vec<char>, Json)> = Vec::new();
                    fs.push((lit_ctx(), req.ctx));
                    fs.push((lit_ch(), Json::Str(lit_data())));
                    fs.push((lit_data(), req.data));
                    Ok(Json::Obj(fs))
                } else {
                    Err(AgentError::RemoteFailure)
                }
            },
            HttpOutcome::TransportFailed => Err(AgentError::RemoteFailure),
        }
    }
}

} // verus!
