//! The rules and handlers that a policy collects.
//!
//! A [`seccomp::SeccompFilter`] is a rule for the kernel filter. A
//! [`tracer::TracerFilter`] or an [`intercept::InterceptorFilter`] is a
//! handler for one system call; to reach its handler, the system call is
//! given a rule that hands it to the tracer. Handlers are looked up by system
//! call, and of several handlers for one system call the first one
//! registered is the one found.

pub mod intercept;
pub mod seccomp;
pub mod tracer;

use crate::filter::seccomp::SeccompFilter;
use crate::syscall::Syscall;
use vstd::prelude::*;

verus! {

/// Something that puts one rule into the kernel filter.
pub trait RestrictFilter {
    /// The rule that this filter stands for.
    spec fn spec_apply(&self) -> SeccompFilter;

    /// The rule that this filter adds to the filter context.
    fn apply(&self) -> (rule: SeccompFilter)
        ensures
            rule == self.spec_apply(),
    ;
}

/// The position of the first of `keys` that is `syscall`, if there is one.
pub open spec fn first_match(keys: Seq<Syscall>, syscall: Syscall) -> Option<int>
    decreases keys.len(),
{
    if keys.len() == 0 {
        None
    } else if keys[0] == syscall {
        Some(0)
    } else {
        match first_match(keys.drop_first(), syscall) {
            Some(i) => Some(i + 1),
            None => None,
        }
    }
}

/// The system calls of a list of handlers, in order.
pub open spec fn keys_of<F>(entries: Seq<(Syscall, F)>) -> Seq<Syscall> {
    Seq::new(entries.len(), |i: int| entries[i].0)
}

/// A lookup finds the first entry for the system call and no other: what is
/// found is in range and is for that system call, nothing before it is, and
/// nothing is found only if no entry is for that system call.
pub proof fn lemma_first_match(keys: Seq<Syscall>, syscall: Syscall)
    ensures
        match first_match(keys, syscall) {
            Some(i) => 0 <= i < keys.len() && keys[i] == syscall && forall|j: int|
                0 <= j < i ==> keys[j] != syscall,
            None => forall|j: int| 0 <= j < keys.len() ==> keys[j] != syscall,
        },
    decreases keys.len(),
{
    if keys.len() > 0 && keys[0] != syscall {
        let rest = keys.drop_first();
        lemma_first_match(rest, syscall);
        match first_match(rest, syscall) {
            Some(i) => {
                assert forall|j: int| 0 <= j < i + 1 implies keys[j] != syscall by {
                    if j > 0 {
                        assert(keys[j] == rest[j - 1]);
                    }
                }
            },
            None => {
                assert forall|j: int| 0 <= j < keys.len() implies keys[j] != syscall by {
                    if j > 0 {
                        assert(keys[j] == rest[j - 1]);
                    }
                }
            },
        }
    }
}

/// A handler registered behind others does not change what a lookup finds,
/// unless it is the first for its system call.
pub proof fn lemma_first_match_push(keys: Seq<Syscall>, added: Syscall, syscall: Syscall)
    ensures
        first_match(keys.push(added), syscall) == match first_match(keys, syscall) {
            Some(i) => Some(i),
            None => if added == syscall {
                Some(keys.len() as int)
            } else {
                None
            },
        },
    decreases keys.len(),
{
    if keys.len() == 0 {
        assert(keys.push(added).drop_first() =~= keys);
    } else {
        assert(keys.push(added).drop_first() =~= keys.drop_first().push(added));
        if keys[0] != syscall {
            lemma_first_match_push(keys.drop_first(), added, syscall);
        }
    }
}

/// The position of the first entry of `entries` for `syscall`.
pub fn find_first<F>(entries: &Vec<(Syscall, F)>, syscall: Syscall) -> (r: Option<usize>)
    ensures
        match r {
            Some(i) => first_match(keys_of(entries@), syscall) == Some(i as int) && i
                < entries@.len(),
            None => first_match(keys_of(entries@), syscall) is None,
        },
{
    let ghost keys = keys_of(entries@);
    let mut i: usize = 0;
    while i < entries.len()
        invariant
            i <= entries@.len(),
            keys == keys_of(entries@),
            forall|j: int| 0 <= j < i ==> keys[j] != syscall,
        decreases entries@.len() - i,
    {
        if entries[i].0 == syscall {
            proof {
                assert(keys[i as int] == syscall);
                lemma_first_match(keys, syscall);
            }
            return Some(i);
        }
        i += 1;
    }
    proof {
        lemma_first_match(keys, syscall);
    }
    None
}

} // verus!
