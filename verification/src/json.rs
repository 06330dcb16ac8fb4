//! A JSON tree held as plain values, so that the walk over a decoded
//! response can be verified. An outside JSON value is converted into this
//! type once, at the trust boundary; everything that reads the tree works on
//! this type under exact contracts. Numbers carry no payload: nothing in the
//! burn-detection logic reads one.

use vstd::prelude::*;
use crate::strings::str_eq;

verus! {

/// One JSON value: null, a boolean, a number (payload unread), a string, an
/// array, or an object as its key-value entries in delivered order.
#[derive(Debug, PartialEq, Eq)]
pub enum Json {
    Null,
    Bool(bool),
    Num,
    Str(String),
    Arr(Vec<Json>),
    Obj(Vec<(String, Json)>),
}

/// The value of the first entry of `entries` whose key reads `key`, or
/// `None` when no entry has that key.
pub open spec fn lookup(entries: Seq<(String, Json)>, key: Seq<char>) -> Option<Json>
    decreases entries.len(),
{
    if entries.len() == 0 {
        None
    } else if entries[0].0@ == key {
        Some(entries[0].1)
    } else {
        lookup(entries.drop_first(), key)
    }
}

/// The value under key `key` when `j` is an object holding it, or `None`.
pub open spec fn spec_obj_get(j: Json, key: Seq<char>) -> Option<Json> {
    match j {
        Json::Obj(entries) => lookup(entries@, key),
        _ => None,
    }
}

/// The text under key `key` when `j` is an object whose value there is a
/// string, or `None`.
pub open spec fn spec_str_field(j: Json, key: Seq<char>) -> Option<Seq<char>> {
    match spec_obj_get(j, key) {
        Some(v) => match v {
            Json::Str(s) => Some(s@),
            _ => None,
        },
        None => None,
    }
}

/// A scan of `entries` that saw no key equal to `key` through index `i` pins
/// `lookup`: the value at `i` when its key matches, none when the scan ran
/// out.
proof fn lemma_lookup_scan(entries: Seq<(String, Json)>, key: Seq<char>, i: int)
    requires
        0 <= i <= entries.len(),
        forall|k: int| 0 <= k < i ==> entries[k].0@ != key,
        i < entries.len() ==> entries[i].0@ == key,
    ensures
        lookup(entries, key) == if i < entries.len() {
            Some(entries[i].1)
        } else {
            None::<Json>
        },
    decreases entries.len(),
{
    if entries.len() != 0 && entries[0].0@ != key {
        let tail = entries.drop_first();
        assert(forall|k: int| 0 <= k < i - 1 ==> tail[k] == entries[k + 1]);
        lemma_lookup_scan(tail, key, i - 1);
    }
}

/// The value under key `key` when `j` is an object holding it.
pub fn obj_get<'a>(j: &'a Json, key: &str) -> (r: Option<&'a Json>)
    ensures
        (r is Some) == (spec_obj_get(*j, key@) is Some),
        r matches Some(v) ==> *v == spec_obj_get(*j, key@)->Some_0,
{
    match j {
        Json::Obj(entries) => {
            let ghost es = entries@;
            let mut i: usize = 0;
            while i < entries.len()
                invariant
                    0 <= i <= es.len(),
                    es == entries@,
                    *j == Json::Obj(*entries),
                    forall|k: int| 0 <= k < i ==> es[k].0@ != key@,
                decreases es.len() - i,
            {
                let entry = &entries[i];
                if str_eq(entry.0.as_str(), key) {
                    proof {
                        lemma_lookup_scan(es, key@, i as int);
                    }
                    return Some(&entry.1);
                }
                i = i + 1;
            }
            proof {
                lemma_lookup_scan(es, key@, es.len() as int);
            }
            None
        },
        _ => None,
    }
}

/// The text under key `key` when `j` is an object whose value there is a
/// string.
pub fn str_field(j: &Json, key: &str) -> (r: Option<String>)
    ensures
        (r is Some) == (spec_str_field(*j, key@) is Some),
        r matches Some(s) ==> s@ == spec_str_field(*j, key@)->Some_0,
{
    match obj_get(j, key) {
        Some(v) => match v {
            Json::Str(s) => Some(s.clone()),
            _ => None,
        },
        None => None,
    }
}

} // verus!
