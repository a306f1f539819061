//! What one HTTP exchange needs from the core and hands back to it: the
//! request URL, the authorization header, and the reading of the outcome.

use vstd::prelude::*;
use crate::text::copy_chars;
use crate::outside::{url_encode, url_encoded_of};

verus! {

/// The status range that counts as success.
pub open spec fn http_success(status: u16) -> bool {
    200 <= status < 300
}

/// Whether an HTTP status code counts as success.
pub fn status_is_success(status: u16) -> (r: bool)
    ensures
        r == http_success(status),
{
    200 <= status && status < 300
}

/// How one append call ended: the store answered with a status, or the
/// exchange itself failed (transport error or timeout).
#[derive(Debug, Clone, Copy, PartialEq, Eq, Structural)]
pub enum HttpOutcome {
    Status(u16),
    TransportFailed,
}

/// How one fetch call ended: a status together with the response body's
/// text, or no answer at all.
#[derive(Debug, PartialEq)]
pub enum FetchOutcome {
    Response(u16, Vec<char>),
    TransportFailed,
}

/// Appends a character slice to a vector.
pub fn append_chars(v: &mut Vec<char>, s: &[char])
    ensures
        final (v)@ == old(v)@ + s@,
{
    proof {
        assert(v@ =~= old(v)@ + s@.subrange(0, 0));
    }
    let mut i: usize = 0;
    while i < s.len()
        invariant
            0 <= i <= s@.len(),
            v@ == old(v)@ + s@.subrange(0, i as int),
        decreases s@.len() - i,
    {
        v.push(s[i]);
        i = i + 1;
        proof {
            assert(v@ =~= old(v)@ + s@.subrange(0, i as int));
        }
    }
    proof {
        assert(v@ =~= old(v)@ + s@);
    }
}

/// The URL of the note named by `path` under the store's base URL: the
/// vault segment followed by the percent-encoded path.
pub fn build_note_url(base: &[char], path: &[char]) -> (r: Vec<char>)
    ensures
        r@ == base@ + "/vault/"@ + url_encoded_of(path@),
{
    let mut v = copy_chars(base);
    let mut seg: Vec<char> = Vec::new();
    seg.push('/');
    seg.push('v');
    seg.push('a');
    seg.push('u');
    seg.push('l');
    seg.push('t');
    seg.push('/');
    proof {
        reveal_strlit("/vault/");
        assert(seg@ =~= "/vault/"@);
    }
    append_chars(&mut v, seg.as_slice());
    let enc = url_encode(path);
    append_chars(&mut v, enc.as_slice());
    proof {
        assert(v@ =~= base@ + "/vault/"@ + url_encoded_of(path@));
    }
    v
}

/// The value of the authorization header for a configured key: the bearer
/// scheme in front of the key, or nothing when no key is configured.
pub fn bearer_header(key: &[char]) -> (r: Option<Vec<char>>)
    ensures
        r is None <==> key@.len() == 0,
        r matches Some(v) ==> v@ == "Bearer "@ + key@,
{
    if key.len() == 0 {
        return None;
    }
    let mut v: Vec<char> = Vec::new();
    v.push('B');
    v.push('e');
    v.push('a');
    v.push('r');
    v.push('e');
    v.push('r');
    v.push(' ');
    proof {
        reveal_strlit("Bearer ");
        assert(v@ =~= "Bearer "@);
    }
    append_chars(&mut v, key);
    Some(v)
}

/// The base URL used when none is configured in the environment.
pub fn default_base_url() -> (r: Vec<char>)
    ensures
        r@ == "http://localhost:27123"@,
{
    let mut v: Vec<char> = Vec::new();
    v.push('h');
    v.push('t');
    v.push('t');
    v.push('p');
    v.push(':');
    v.push('/');
    v.push('/');
    v.push('l');
    v.push('o');
    v.push('c');
    v.push('a');
    v.push('l');
    v.push('h');
    v.push('o');
    v.push('s');
    v.push('t');
    v.push(':');
    v.push('2');
    v.push('7');
    v.push('1');
    v.push('2');
    v.push('3');
    proof {
        reveal_strlit("http://localhost:27123");
        assert(v@ =~= "http://localhost:27123"@);
    }
    v
}

} // verus!
