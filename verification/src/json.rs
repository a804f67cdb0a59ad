//! A transparent model of the JSON documents the external tool emits.
//!
//! The external tool's output is decoded once, at the trust boundary, into
//! this type; every rule about which fields an operation requires is then
//! stated and verified over plain values.

use vstd::prelude::*;

verus! {

/// One JSON value.
///
/// Object entries keep the order in which the decoder produced them and a
/// lookup takes the first entry with the wanted key. Numbers are carried as
/// `i64` integers: a number outside that range (or not an integer at all) is
/// carried as `OtherNumber`, which no operation of this library accepts where
/// it requires an integer.
#[derive(Debug)]
pub enum Json {
    Null,
    Bool(bool),
    Int(i64),
    Str(String),
    Arr(Vec<Json>),
    Obj(Vec<(String, Json)>),
    OtherNumber,
}

/// The value stored under `key` in `entries`: the first entry whose key
/// matches, if any.
pub open spec fn spec_lookup(entries: Seq<(String, Json)>, key: Seq<char>) -> Option<Json>
    decreases entries.len(),
{
    if entries.len() == 0 {
        None
    } else if entries[0].0@ == key {
        Some(entries[0].1)
    } else {
        spec_lookup(entries.drop_first(), key)
    }
}

proof fn lemma_lookup_skip(entries: Seq<(String, Json)>, key: Seq<char>, i: int)
    requires
        0 <= i < entries.len(),
        entries[i].0@ != key,
    ensures
        spec_lookup(entries.skip(i), key) == spec_lookup(entries.skip(i + 1), key),
{
    assert(entries.skip(i)[0] == entries[i]);
    assert(entries.skip(i).drop_first() =~= entries.skip(i + 1));
}

impl Json {
    /// The value under `key`, when this value is an object that has one.
    pub open spec fn spec_get(self, key: Seq<char>) -> Option<Json> {
        match self {
            Json::Obj(entries) => spec_lookup(entries@, key),
            _ => None,
        }
    }

    /// Looks `key` up in this value, returning a borrow of the first entry
    /// with that key; `None` when this value is not an object or has no such
    /// entry.
    pub fn get<'a>(&'a self, key: &str) -> (r: Option<&'a Json>)
        ensures
            match r {
                Some(v) => self.spec_get(key@) == Some(*v),
                None => self.spec_get(key@) is None,
            },
    {
        match self {
            Json::Obj(entries) => {
                let key_string = key.to_owned();
                let n = entries.len();
                let mut i: usize = 0;
                proof {
                    assert(entries@.skip(0) =~= entries@);
                }
                while i < n
                    invariant
                        *self == Json::Obj(*entries),
                        i <= n,
                        n == entries@.len(),
                        key_string@ == key@,
                        spec_lookup(entries@, key@) == spec_lookup(
                            entries@.skip(i as int),
                            key@,
                        ),
                    decreases n - i,
                {
                    let pair: &(String, Json) = &entries[i];
                    if pair.0 == key_string {
                        proof {
                            assert(entries@.skip(i as int)[0] == entries@[i as int]);
                            assert(spec_lookup(entries@.skip(i as int), key@) == Some(
                                entries@[i as int].1,
                            ));
                        }
                        return Some(&pair.1);
                    }
                    proof {
                        lemma_lookup_skip(entries@, key@, i as int);
                    }
                    i = i + 1;
                }
                proof {
                    assert(entries@.skip(n as int) =~= Seq::<(String, Json)>::empty());
                }
                None
            },
            _ => None,
        }
    }
}

} // verus!
