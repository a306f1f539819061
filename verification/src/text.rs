//! Character-level text helpers: whitespace trimming, comparison, and the
//! literal tokens of the protocol, all specified over `Seq<char>`.

use vstd::prelude::*;

verus! {

/// The whitespace characters that may surround a protocol line's tokens.
pub open spec fn is_ws(c: char) -> bool {
    c == ' ' || c == '\t' || c == '\n' || c == '\r'
}

/// `s` without its leading whitespace.
pub open spec fn trim_start(s: Seq<char>) -> Seq<char>
    decreases s.len(),
{
    if s.len() > 0 && is_ws(s[0]) {
        trim_start(s.drop_first())
    } else {
        s
    }
}

/// `s` without its trailing whitespace.
pub open spec fn trim_end(s: Seq<char>) -> Seq<char>
    decreases s.len(),
{
    if s.len() > 0 && is_ws(s.last()) {
        trim_end(s.drop_last())
    } else {
        s
    }
}

/// `s` without leading and trailing whitespace.
pub open spec fn trimmed(s: Seq<char>) -> Seq<char> {
    trim_end(trim_start(s))
}

proof fn lemma_trim_start_range(s: Seq<char>, i: int)
    requires
        0 <= i <= s.len(),
        forall|m: int| 0 <= m < i ==> is_ws(s[m]),
        i < s.len() ==> !is_ws(s[i]),
    ensures
        trim_start(s) == s.subrange(i, s.len() as int),
    decreases i,
{
    if i == 0 {
        assert(trim_start(s) =~= s.subrange(0, s.len() as int));
    } else {
        assert(is_ws(s[0]));
        lemma_trim_start_range(s.drop_first(), i - 1);
        assert(s.drop_first().subrange(i - 1, s.drop_first().len() as int) =~= s.subrange(
            i,
            s.len() as int,
        ));
    }
}

proof fn lemma_trim_end_range(s: Seq<char>, j: int)
    requires
        0 <= j <= s.len(),
        forall|m: int| j <= m < s.len() ==> is_ws(s[m]),
        j > 0 ==> !is_ws(s[j - 1]),
    ensures
        trim_end(s) == s.subrange(0, j),
    decreases s.len() - j,
{
    if j == s.len() {
        assert(trim_end(s) =~= s.subrange(0, j));
    } else {
        assert(is_ws(s.last()));
        lemma_trim_end_range(s.drop_last(), j);
        assert(s.drop_last().subrange(0, j) =~= s.subrange(0, j));
    }
}

fn ws_char(c: char) -> (r: bool)
    ensures
        r == is_ws(c),
{
    c == ' ' || c == '\t' || c == '\n' || c == '\r'
}

/// The sub-slice of `s` that remains after trimming whitespace at both ends.
pub fn trim_slice<'a>(s: &'a [char]) -> (r: &'a [char])
    ensures
        r@ == trimmed(s@),
{
    let mut i: usize = 0;
    while i < s.len() && ws_char(s[i])
        invariant
            0 <= i <= s@.len(),
            forall|m: int| 0 <= m < i ==> is_ws(s@[m]),
        decreases s@.len() - i,
    {
        i = i + 1;
    }
    let mut j: usize = s.len();
    while j > i && ws_char(s[j - 1])
        invariant
            i <= j <= s@.len(),
            forall|m: int| j <= m < s@.len() ==> is_ws(s@[m]),
        decreases j,
    {
        j = j - 1;
    }
    proof {
        lemma_trim_start_range(s@, i as int);
        let u = s@.subrange(i as int, s@.len() as int);
        assert(forall|m: int|
            j - i <= m < u.len() ==> is_ws(#[trigger] u[m]) && u[m] == s@[m + i]);
        lemma_trim_end_range(u, j - i);
        assert(u.subrange(0, j - i) =~= s@.subrange(i as int, j as int));
    }
    &s[i..j]
}

/// Character-for-character equality of two slices.
pub fn chars_eq(a: &[char], b: &[char]) -> (r: bool)
    ensures
        r <==> a@ == b@,
{
    if a.len() != b.len() {
        return false;
    }
    let mut i: usize = 0;
    while i < a.len()
        invariant
            a@.len() == b@.len(),
            0 <= i <= a@.len(),
            forall|m: int| 0 <= m < i ==> a@[m] == b@[m],
        decreases a@.len() - i,
    {
        if a[i] != b[i] {
            return false;
        }
        i = i + 1;
    }
    proof {
        assert(a@ =~= b@);
    }
    true
}

/// An owned copy of a character slice.
pub fn copy_chars(s: &[char]) -> (r: Vec<char>)
    ensures
        r@ == s@,
{
    let mut v: Vec<char> = Vec::new();
    let mut i: usize = 0;
    while i < s.len()
        invariant
            0 <= i <= s@.len(),
            v@ == s@.subrange(0, i as int),
        decreases s@.len() - i,
    {
        v.push(s[i]);
        i = i + 1;
        proof {
            assert(v@ =~= s@.subrange(0, i as int));
        }
    }
    proof {
        assert(v@ =~= s@);
    }
    v
}

/// The command that accepts a configuration payload.
pub fn lit_config() -> (r: Vec<char>)
    ensures
        r@ == ".CONFIG"@,
{
    proof {
        reveal_strlit(".CONFIG");
    }
    let mut v: Vec<char> = Vec::new();
    v.push('.');
    v.push('C');
    v.push('O');
    v.push('N');
    v.push('F');
    v.push('I');
    v.push('G');
    proof {
        assert(v@ =~= ".CONFIG"@);
    }
    v
}

/// The command that carries an input envelope.
pub fn lit_in() -> (r: Vec<char>)
    ensures
        r@ == ".IN"@,
{
    proof {
        reveal_strlit(".IN");
    }
    let mut v: Vec<char> = Vec::new();
    v.push('.');
    v.push('I');
    v.push('N');
    proof {
        assert(v@ =~= ".IN"@);
    }
    v
}

/// The command that terminates the process.
pub fn lit_quit() -> (r: Vec<char>)
    ensures
        r@ == ".QUIT"@,
{
    proof {
        reveal_strlit(".QUIT");
    }
    let mut v: Vec<char> = Vec::new();
    v.push('.');
    v.push('Q');
    v.push('U');
    v.push('I');
    v.push('T');
    proof {
        assert(v@ =~= ".QUIT"@);
    }
    v
}

/// The envelope field that is echoed back verbatim.
pub fn lit_ctx() -> (r: Vec<char>)
    ensures
        r@ == "ctx"@,
{
    proof {
        reveal_strlit("ctx");
    }
    let mut v: Vec<char> = Vec::new();
    v.push('c');
    v.push('t');
    v.push('x');
    proof {
        assert(v@ =~= "ctx"@);
    }
    v
}

/// The envelope field that carries the action's payload.
pub fn lit_data() -> (r: Vec<char>)
    ensures
        r@ == "data"@,
{
    proof {
        reveal_strlit("data");
    }
    let mut v: Vec<char> = Vec::new();
    v.push('d');
    v.push('a');
    v.push('t');
    v.push('a');
    proof {
        assert(v@ =~= "data"@);
    }
    v
}

/// The payload field that holds the action's value.
pub fn lit_value() -> (r: Vec<char>)
    ensures
        r@ == "value"@,
{
    proof {
        reveal_strlit("value");
    }
    let mut v: Vec<char> = Vec::new();
    v.push('v');
    v.push('a');
    v.push('l');
    v.push('u');
    v.push('e');
    proof {
        assert(v@ =~= "value"@);
    }
    v
}

/// The field that names the target note.
pub fn lit_path() -> (r: Vec<char>)
    ensures
        r@ == "path"@,
{
    proof {
        reveal_strlit("path");
    }
    let mut v: Vec<char> = Vec::new();
    v.push('p');
    v.push('a');
    v.push('t');
    v.push('h');
    proof {
        assert(v@ =~= "path"@);
    }
    v
}

/// The field that holds the text to append.
pub fn lit_content() -> (r: Vec<char>)
    ensures
        r@ == "content"@,
{
    proof {
        reveal_strlit("content");
    }
    let mut v: Vec<char> = Vec::new();
    v.push('c');
    v.push('o');
    v.push('n');
    v.push('t');
    v.push('e');
    v.push('n');
    v.push('t');
    proof {
        assert(v@ =~= "content"@);
    }
    v
}

/// The output envelope field that names the response channel.
pub fn lit_ch() -> (r: Vec<char>)
    ensures
        r@ == "ch"@,
{
    proof {
        reveal_strlit("ch");
    }
    let mut v: Vec<char> = Vec::new();
    v.push('c');
    v.push('h');
    proof {
        assert(v@ =~= "ch"@);
    }
    v
}

/// The response channel of the fetch action.
pub fn lit_note() -> (r: Vec<char>)
    ensures
        r@ == "note"@,
{
    proof {
        reveal_strlit("note");
    }
    let mut v: Vec<char> = Vec::new();
    v.push('n');
    v.push('o');
    v.push('t');
    v.push('e');
    proof {
        assert(v@ =~= "note"@);
    }
    v
}

/// The field that tags the shape of a fetched payload.
pub fn lit_kind() -> (r: Vec<char>)
    ensures
        r@ == "kind"@,
{
    proof {
        reveal_strlit("kind");
    }
    let mut v: Vec<char> = Vec::new();
    v.push('k');
    v.push('i');
    v.push('n');
    v.push('d');
    proof {
        assert(v@ =~= "kind"@);
    }
    v
}

/// The tag given to a fetched payload.
pub fn lit_object() -> (r: Vec<char>)
    ensures
        r@ == "object"@,
{
    proof {
        reveal_strlit("object");
    }
    let mut v: Vec<char> = Vec::new();
    v.push('o');
    v.push('b');
    v.push('j');
    v.push('e');
    v.push('c');
    v.push('t');
    proof {
        assert(v@ =~= "object"@);
    }
    v
}

} // verus!
