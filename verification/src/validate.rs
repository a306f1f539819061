//! Validation of an input envelope's `data` field: the error taxonomy, the
//! path rule, and the two actions' extraction of a validated path (and, for
//! append, content).

use vstd::prelude::*;
use crate::json::{Json, obj_lookup, obj_get};
use crate::text::{copy_chars, lit_value, lit_path, lit_content};

verus! {

/// Why processing of one command stopped. Every variant is caught at the
/// loop boundary, logged, and never stops the loop itself.
#[derive(Debug, Clone, Copy, PartialEq, Eq, Structural)]
pub enum AgentError {
    /// The argument of an input command was not JSON, or no envelope.
    MalformedCommand,
    /// The `data` or `value` field has the wrong JSON shape.
    InvalidInput,
    /// A required field is absent.
    MissingField,
    /// The path is empty or ends with the path separator.
    InvalidPath,
    /// The note store answered with a non-success status, or not at all.
    RemoteFailure,
    /// The outgoing response could not be serialized.
    EncodingFailure,
}

/// A target path must name a note: non-empty, and not ending with the
/// path separator.
pub open spec fn path_ok(p: Seq<char>) -> bool {
    p.len() > 0 && p[p.len() - 1] != '/'
}

fn path_ok_exec(p: &[char]) -> (r: bool)
    ensures
        r == path_ok(p@),
{
    p.len() > 0 && p[p.len() - 1] != '/'
}

/// What the append action makes of a `data` field: the `(path, content)`
/// pair under its `value` object, or the error that stops the command.
pub open spec fn validate_append_spec(data: Json) -> Result<(Seq<char>, Seq<char>), AgentError> {
    match data {
        Json::Obj(fields) => match obj_lookup(fields@, "value"@) {
            Option::None => Err(AgentError::MissingField),
            Option::Some(value) => match value {
                Json::Obj(vf) => match obj_lookup(vf@, "path"@) {
                    Option::Some(Json::Str(p)) => match obj_lookup(vf@, "content"@) {
                        Option::Some(Json::Str(c)) => if path_ok(p@) {
                            Ok((p@, c@))
                        } else {
                            Err(AgentError::InvalidPath)
                        },
                        _ => Err(AgentError::MissingField),
                    },
                    _ => Err(AgentError::MissingField),
                },
                _ => Err(AgentError::InvalidInput),
            },
        },
        _ => Err(AgentError::InvalidInput),
    }
}

/// What the get action makes of a `data` field: the path under its `value`,
/// which may be the string itself or an object's `path` field.
pub open spec fn validate_get_spec(data: Json) -> Result<Seq<char>, AgentError> {
    match data {
        Json::Obj(fields) => match obj_lookup(fields@, "value"@) {
            Option::None => Err(AgentError::MissingField),
            Option::Some(value) => match value {
                Json::Str(s) => if path_ok(s@) {
                    Ok(s@)
                } else {
                    Err(AgentError::InvalidPath)
                },
                Json::Obj(vf) => match obj_lookup(vf@, "path"@) {
                    Option::Some(Json::Str(p)) => if path_ok(p@) {
                        Ok(p@)
                    } else {
                        Err(AgentError::InvalidPath)
                    },
                    _ => Err(AgentError::MissingField),
                },
                _ => Err(AgentError::InvalidInput),
            },
        },
        _ => Err(AgentError::InvalidInput),
    }
}

/// Checks an append `data` field and hands back owned copies of the path
/// and content, leaving `data` itself untouched for the echo.
pub fn validate_append(data: &Json) -> (r: Result<(Vec<char>, Vec<char>), AgentError>)
    ensures
        match r {
            Ok(pc) => validate_append_spec(*data) == Ok::<(Seq<char>, Seq<char>), AgentError>(
                (pc.0@, pc.1@),
            ),
            Err(e) => validate_append_spec(*data) == Err::<(Seq<char>, Seq<char>), AgentError>(e),
        },
{
    match data {
        Json::Obj(fields) => match obj_get(fields, lit_value().as_slice()) {
            Option::None => Err(AgentError::MissingField),
            Option::Some(value) => match value {
                Json::Obj(vf) => match obj_get(vf, lit_path().as_slice()) {
                    Option::Some(Json::Str(p)) => match obj_get(vf, lit_content().as_slice()) {
                        Option::Some(Json::Str(c)) => if path_ok_exec(p.as_slice()) {
                            Ok((copy_chars(p.as_slice()), copy_chars(c.as_slice())))
                        } else {
                            Err(AgentError::InvalidPath)
                        },
                        _ => Err(AgentError::MissingField),
                    },
                    _ => Err(AgentError::MissingField),
                },
                _ => Err(AgentError::InvalidInput),
            },
        },
        _ => Err(AgentError::InvalidInput),
    }
}

/// Checks a get `data` field and hands back an owned copy of the path.
pub fn validate_get(data: &Json) -> (r: Result<Vec<char>, AgentError>)
    ensures
        match r {
            Ok(p) => validate_get_spec(*data) == Ok::<Seq<char>, AgentError>(p@),
            Err(e) => validate_get_spec(*data) == Err::<Seq<char>, AgentError>(e),
        },
{
    match data {
        Json::Obj(fields) => match obj_get(fields, lit_value().as_slice()) {
            Option::None => Err(AgentError::MissingField),
            Option::Some(value) => match value {
                Json::Str(s) => if path_ok_exec(s.as_slice()) {
                    Ok(copy_chars(s.as_slice()))
                } else {
                    Err(AgentError::InvalidPath)
                },
                Json::Obj(vf) => match obj_get(vf, lit_path().as_slice()) {
                    Option::Some(Json::Str(p)) => if path_ok_exec(p.as_slice()) {
                        Ok(copy_chars(p.as_slice()))
                    } else {
                        Err(AgentError::InvalidPath)
                    },
                    _ => Err(AgentError::MissingField),
                },
                _ => Err(AgentError::InvalidInput),
            },
        },
        _ => Err(AgentError::InvalidInput),
    }
}

} // verus!
