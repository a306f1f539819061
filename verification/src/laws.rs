//! What the library guarantees across its functions, stated and proved
//! once: the echo of `ctx` on success, the rejection of invalid paths, the
//! determinism of validation, and the primacy of the quit command.

use vstd::prelude::*;
use crate::append_agent::{
    AppendDirective,
    AppendRequest,
    append_step_spec,
    append_conclude_spec,
    append_out_spec,
};
use crate::get_agent::{GetDirective, GetRequest, get_step_spec, get_conclude_spec, get_out_spec};
use crate::json::Json;
use crate::outside::json_of_text;
use crate::protocol::envelope_of;
use crate::protocol::head_token;
use crate::protocol::tail_arg;
use crate::request::{HttpOutcome, FetchOutcome, http_success};
use crate::text::trimmed;
use crate::validate::{AgentError, validate_append_spec, validate_get_spec, path_ok};

verus! {

/// Every well-formed input command whose envelope validates and whose
/// append call succeeds produces exactly one output envelope, and that
/// envelope's `ctx` and `data` are the input envelope's own, unchanged.
pub proof fn lemma_append_success_echoes_ctx(
    line: Seq<char>,
    req: AppendRequest,
    outcome: HttpOutcome,
    r: Result<Json, AgentError>,
)
    requires
        append_step_spec(line, AppendDirective::Request(req)),
        append_conclude_spec(req, outcome, r),
        outcome matches HttpOutcome::Status(s) && http_success(s),
    ensures
        r is Ok,
        json_of_text(tail_arg(trimmed(line))) is Some,
        envelope_of(json_of_text(tail_arg(trimmed(line)))->Some_0) is Some,
        append_out_spec(
            envelope_of(json_of_text(tail_arg(trimmed(line)))->Some_0)->Some_0.0,
            envelope_of(json_of_text(tail_arg(trimmed(line)))->Some_0)->Some_0.1,
            r->Ok_0,
        ),
{
}

/// The same guarantee for the get agent: a fetched note travels out in one
/// output envelope whose `ctx` is the input envelope's own, unchanged.
pub proof fn lemma_get_success_echoes_ctx(
    line: Seq<char>,
    req: GetRequest,
    status: u16,
    body: Vec<char>,
    r: Result<Json, AgentError>,
)
    requires
        get_step_spec(line, GetDirective::Request(req)),
        get_conclude_spec(req, FetchOutcome::Response(status, body), r),
        http_success(status),
        json_of_text(body@) is Some,
    ensures
        r is Ok,
        json_of_text(tail_arg(trimmed(line))) is Some,
        envelope_of(json_of_text(tail_arg(trimmed(line)))->Some_0) is Some,
        get_out_spec(
            envelope_of(json_of_text(tail_arg(trimmed(line)))->Some_0)->Some_0.0,
            json_of_text(body@)->Some_0,
            r->Ok_0,
        ),
{
}

/// Validation never accepts an empty or separator-terminated path, for
/// either action: such an input is rejected, and a rejected command emits
/// no output line.
pub proof fn lemma_accepted_path_is_valid(data: Json)
    ensures
        validate_append_spec(data) matches Ok(pc) ==> path_ok(pc.0),
        validate_get_spec(data) matches Ok(p) ==> path_ok(p),
{
}

/// No append request ever carries an invalid path: the loop performs an
/// HTTP call only for a path that satisfies the path rule.
pub proof fn lemma_append_request_path_is_valid(line: Seq<char>, req: AppendRequest)
    requires
        append_step_spec(line, AppendDirective::Request(req)),
    ensures
        path_ok(req.path@),
{
}

/// No get request ever carries an invalid path.
pub proof fn lemma_get_request_path_is_valid(line: Seq<char>, req: GetRequest)
    requires
        get_step_spec(line, GetDirective::Request(req)),
    ensures
        path_ok(req.path@),
{
}

/// Deciding the same line twice yields the same decision: the same accept
/// or reject, the same error, and the same extracted path, content and
/// envelope fields.
pub proof fn lemma_append_step_deterministic(
    line: Seq<char>,
    d1: AppendDirective,
    d2: AppendDirective,
)
    requires
        append_step_spec(line, d1),
        append_step_spec(line, d2),
    ensures
        d1 is Ignore <==> d2 is Ignore,
        d1 is Quit <==> d2 is Quit,
        d1 matches AppendDirective::Reject(e1) ==> (d2 matches AppendDirective::Reject(e2) && e1
            == e2),
        d1 matches AppendDirective::Request(r1) ==> (d2 matches AppendDirective::Request(r2)
            && r1.path@ == r2.path@ && r1.content@ == r2.content@ && r1.ctx == r2.ctx && r1.data
            == r2.data),
{
}

/// The same determinism for the get agent's decision.
pub proof fn lemma_get_step_deterministic(line: Seq<char>, d1: GetDirective, d2: GetDirective)
    requires
        get_step_spec(line, d1),
        get_step_spec(line, d2),
    ensures
        d1 is Ignore <==> d2 is Ignore,
        d1 is Quit <==> d2 is Quit,
        d1 matches GetDirective::Reject(e1) ==> (d2 matches GetDirective::Reject(e2) && e1 == e2),
        d1 matches GetDirective::Request(r1) ==> (d2 matches GetDirective::Request(r2) && r1.path@
            == r2.path@ && r1.ctx == r2.ctx),
{
}

/// A line whose command name is the quit token always directs the loop to
/// terminate the process, for either agent; the loop then reads no
/// further line, whatever is still available in the stream.
pub proof fn lemma_quit_wins(line: Seq<char>, d1: AppendDirective, d2: GetDirective)
    requires
        append_step_spec(line, d1),
        get_step_spec(line, d2),
        trimmed(line).len() > 0,
        head_token(trimmed(line)) == ".QUIT"@,
    ensures
        d1 is Quit,
        d2 is Quit,
{
    reveal_strlit(".QUIT");
    reveal_strlit(".CONFIG");
    reveal_strlit(".IN");
    assert(".QUIT"@.len() == 5);
    assert(".CONFIG"@.len() == 7);
    assert(".IN"@.len() == 3);
    assert(".QUIT"@ != ".CONFIG"@ && ".QUIT"@ != ".IN"@);
}

} // verus!
