//! A snapshot of process environment variables as plain data: the library
//! reads it, the surrounding program fills it.

use vstd::prelude::*;
use crate::strutil::str_eq;

verus! {

/// The first value under `key` in the environment snapshot `env`.
pub open spec fn env_lookup(env: Seq<(String, String)>, key: Seq<char>) -> Option<Seq<char>>
    decreases env.len(),
{
    if env.len() == 0 {
        None
    } else if env.first().0@ == key {
        Some(env.first().1@)
    } else {
        env_lookup(env.drop_first(), key)
    }
}

/// Executable lookup in an environment snapshot.
pub fn env_get(env: &Vec<(String, String)>, key: &str) -> (r: Option<String>)
    ensures
        match r {
            Some(v) => env_lookup(env@, key@) == Some(v@),
            None => env_lookup(env@, key@) is None,
        },
{
    let mut i: usize = 0;
    proof {
        assert(env@.skip(0) =~= env@);
    }
    while i < env.len()
        invariant
            0 <= i <= env@.len(),
            env_lookup(env@, key@) == env_lookup(env@.skip(i as int), key@),
        decreases env@.len() - i,
    {
        proof {
            assert(env@.skip(i as int).first() == env@[i as int]);
            assert(env@.skip(i as int).drop_first() =~= env@.skip(i + 1));
        }
        if str_eq(env[i].0.as_str(), key) {
            return Some(env[i].1.clone());
        }
        i = i + 1;
    }
    proof {
        assert(env@.skip(env@.len() as int) =~= Seq::<(String, String)>::empty());
    }
    None
}

} // verus!
