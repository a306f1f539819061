//! The line protocol: splitting a line into a command and its argument,
//! recognising the commands, pulling the two fields out of an input
//! envelope, and the loop's reaction to its wait events.

use vstd::prelude::*;
use crate::json::{Json, obj_lookup};
use crate::text::{trimmed, trim_slice, chars_eq, lit_config, lit_in, lit_quit, lit_ctx, lit_data};

verus! {

/// The index of the first space in `s`, or `s.len()` if there is none.
pub open spec fn first_space(s: Seq<char>) -> int
    decreases s.len(),
{
    if s.len() == 0 {
        0
    } else if s[0] == ' ' {
        0
    } else {
        1 + first_space(s.drop_first())
    }
}

proof fn lemma_first_space_at(s: Seq<char>, i: int)
    requires
        0 <= i <= s.len(),
        forall|m: int| 0 <= m < i ==> s[m] != ' ',
        i < s.len() ==> s[i] == ' ',
    ensures
        first_space(s) == i,
    decreases i,
{
    if i == 0 {
    } else {
        assert(s[0] != ' ');
        lemma_first_space_at(s.drop_first(), i - 1);
    }
}

/// The command name of a trimmed line: everything before the first space.
pub open spec fn head_token(s: Seq<char>) -> Seq<char> {
    s.subrange(0, first_space(s))
}

/// The argument of a trimmed line: everything after the first space, or
/// empty when the line is a bare command.
pub open spec fn tail_arg(s: Seq<char>) -> Seq<char> {
    if first_space(s) < s.len() {
        s.subrange(first_space(s) + 1, s.len() as int)
    } else {
        Seq::empty()
    }
}

/// A line's parsed form: one of the recognised commands, an unknown one, or
/// nothing at all.
pub enum Command<'a> {
    Empty,
    Config,
    In(&'a [char]),
    Quit,
    Unknown,
}

/// Splits a line at the first space of its trimmed form and recognises the
/// command name. An empty line is no command; a line without a space is a
/// bare command with an empty argument.
pub fn dispatch<'a>(line: &'a [char]) -> (c: Command<'a>)
    ensures
        ({
            let t = trimmed(line@);
            &&& (c is Empty <==> t.len() == 0)
            &&& (c is Config <==> t.len() > 0 && head_token(t) == ".CONFIG"@)
            &&& (c is In <==> t.len() > 0 && head_token(t) != ".CONFIG"@ && head_token(t)
                == ".IN"@)
            &&& (c matches Command::In(a) ==> a@ == tail_arg(t))
            &&& (c is Quit <==> t.len() > 0 && head_token(t) != ".CONFIG"@ && head_token(t)
                != ".IN"@ && head_token(t) == ".QUIT"@)
        }),
{
    let t = trim_slice(line);
    if t.len() == 0 {
        return Command::Empty;
    }
    let mut k: usize = 0;
    while k < t.len() && t[k] != ' '
        invariant
            0 <= k <= t@.len(),
            forall|m: int| 0 <= m < k ==> t@[m] != ' ',
        decreases t@.len() - k,
    {
        k = k + 1;
    }
    proof {
        lemma_first_space_at(t@, k as int);
    }
    let cmd: &[char] = &t[0..k];
    let arg: &[char] = if k < t.len() {
        &t[k + 1..t.len()]
    } else {
        &t[t.len()..t.len()]
    };
    proof {
        assert(cmd@ == head_token(t@));
        assert(arg@ =~= tail_arg(t@));
    }
    if chars_eq(cmd, lit_config().as_slice()) {
        Command::Config
    } else if chars_eq(cmd, lit_in().as_slice()) {
        Command::In(arg)
    } else if chars_eq(cmd, lit_quit().as_slice()) {
        Command::Quit
    } else {
        Command::Unknown
    }
}

/// The two fields of an input envelope: the opaque `ctx` that is echoed
/// back, and the `data` the action works on. An envelope that is not an
/// object, or lacks either field, is no envelope.
pub open spec fn envelope_of(j: Json) -> Option<(Json, Json)> {
    match j {
        Json::Obj(fields) => match (obj_lookup(fields@, "ctx"@), obj_lookup(fields@, "data"@)) {
            (Some(c), Some(d)) => Some((c, d)),
            _ => None,
        },
        _ => None,
    }
}

/// Takes the `ctx` and `data` fields out of a decoded envelope.
pub fn split_envelope(j: Json) -> (r: Option<(Json, Json)>)
    ensures
        r == envelope_of(j),
{
    proof {
        reveal_strlit("ctx");
        reveal_strlit("data");
    }
    match j {
        Json::Obj(mut fields) => {
            let ghost orig = fields@;
            let key_ctx = lit_ctx();
            let key_data = lit_data();
            let mut ctx: Option<Json> = None;
            let mut data: Option<Json> = None;
            while fields.len() > 0
                invariant
                    key_ctx@ == "ctx"@,
                    key_data@ == "data"@,
                    (match ctx {
                        Some(c) => obj_lookup(orig, "ctx"@) == Some(c),
                        None => obj_lookup(orig, "ctx"@) == obj_lookup(fields@, "ctx"@),
                    }),
                    (match data {
                        Some(d) => obj_lookup(orig, "data"@) == Some(d),
                        None => obj_lookup(orig, "data"@) == obj_lookup(fields@, "data"@),
                    }),
                decreases fields@.len(),
            {
                let ghost before = fields@;
                let (k, v) = fields.remove(0);
                proof {
                    reveal_strlit("ctx");
                    reveal_strlit("data");
                    assert(fields@ =~= before.drop_first());
                }
                let is_ctx_key = chars_eq(k.as_slice(), key_ctx.as_slice());
                let is_data_key = chars_eq(k.as_slice(), key_data.as_slice());
                proof {
                    assert(before[0].0 == k);
                    assert("ctx"@.len() != "data"@.len());
                    if is_ctx_key {
                        assert(obj_lookup(before, "ctx"@) == Some(v));
                        assert(obj_lookup(before, "data"@) == obj_lookup(
                            before.drop_first(),
                            "data"@,
                        ));
                    } else if is_data_key {
                        assert(obj_lookup(before, "data"@) == Some(v));
                        assert(obj_lookup(before, "ctx"@) == obj_lookup(
                            before.drop_first(),
                            "ctx"@,
                        ));
                    } else {
                        assert(obj_lookup(before, "ctx"@) == obj_lookup(
                            before.drop_first(),
                            "ctx"@,
                        ));
                        assert(obj_lookup(before, "data"@) == obj_lookup(
                            before.drop_first(),
                            "data"@,
                        ));
                    }
                }
                if ctx.is_none() && is_ctx_key {
                    ctx = Some(v);
                } else if data.is_none() && is_data_key {
                    data = Some(v);
                }
            }
            match (ctx, data) {
                (Some(c), Some(d)) => Some((c, d)),
                _ => None,
            }
        },
        _ => None,
    }
}

/// What the loop has just observed while waiting: the next line became
/// ready, the read failed, or the interrupt signal arrived.
pub enum LoopEvent {
    LineReady,
    ReadFailed,
    Interrupted,
}

/// Whether the loop waits for another line after an event. The interrupt
/// signal terminates the loop; a failed read is logged and the loop goes on.
pub fn keeps_running(ev: &LoopEvent) -> (r: bool)
    ensures
        r <==> !(ev is Interrupted),
{
    match ev {
        LoopEvent::Interrupted => false,
        _ => true,
    }
}

} // verus!
