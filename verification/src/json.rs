//! A JSON value held as plain data. Numbers keep the text they were parsed
//! from, strings are vectors of characters, and objects keep their fields in
//! the order they arrived, so a value can be carried through untouched and
//! echoed back.

use vstd::prelude::*;
use crate::text::chars_eq;

verus! {

/// One JSON value.
#[derive(Debug, PartialEq)]
pub enum Json {
    Null,
    Bool(bool),
    /// A number, as the text it is written with.
    Num(Vec<char>),
    Str(Vec<char>),
    Arr(Vec<Json>),
    Obj(Vec<(Vec<char>, Json)>),
}

/// The value under `key` in an object's field list: the first field whose
/// name matches, if any.
pub open spec fn obj_lookup(fields: Seq<(Vec<char>, Json)>, key: Seq<char>) -> Option<Json>
    decreases fields.len(),
{
    if fields.len() == 0 {
        None
    } else if fields[0].0@ == key {
        Some(fields[0].1)
    } else {
        obj_lookup(fields.drop_first(), key)
    }
}

/// Looks a field up by name, borrowing the value.
pub fn obj_get<'a>(fields: &'a Vec<(Vec<char>, Json)>, key: &[char]) -> (r: Option<&'a Json>)
    ensures
        match r {
            Some(v) => obj_lookup(fields@, key@) == Some(*v),
            None => obj_lookup(fields@, key@) is None,
        },
{
    let mut i: usize = 0;
    proof {
        assert(fields@.subrange(0, fields@.len() as int) =~= fields@);
    }
    while i < fields.len()
        invariant
            0 <= i <= fields@.len(),
            obj_lookup(fields@, key@) == obj_lookup(
                fields@.subrange(i as int, fields@.len() as int),
                key@,
            ),
        decreases fields@.len() - i,
    {
        let hit = chars_eq(fields[i].0.as_slice(), key);
        proof {
            let s = fields@.subrange(i as int, fields@.len() as int);
            assert(s[0] == fields@[i as int]);
            assert(s.drop_first() =~= fields@.subrange(i as int + 1, fields@.len() as int));
        }
        if hit {
            return Some(&fields[i].1);
        }
        i = i + 1;
    }
    proof {
        assert(fields@.subrange(i as int, fields@.len() as int).len() == 0);
    }
    None
}

} // verus!
