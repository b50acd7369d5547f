//! Handlers that observe a system call before it runs.

use crate::filter::find_first;
use crate::filter::first_match;
use crate::filter::keys_of;
use crate::filter::seccomp::SeccompFilter;
use crate::filter::RestrictFilter;
use crate::syscall::Syscall;
use crate::wrapper::Action;
use vstd::prelude::*;

verus! {

/// A handler `T` that observes one system call.
#[derive(Debug)]
pub struct TracerFilter<T> {
    pub syscall: Syscall,
    pub callback: T,
}

impl<T> TracerFilter<T> {
    /// The handler `callback` for `syscall`.
    pub fn new(syscall: Syscall, callback: T) -> (r: Self)
        ensures
            r.syscall == syscall,
            r.callback == callback,
    {
        Self { syscall, callback }
    }

    /// The system call that the handler observes.
    pub fn syscall(&self) -> (s: Syscall)
        ensures
            s == self.syscall,
    {
        self.syscall
    }

    /// The system call together with its handler.
    pub fn to_map(self) -> (r: (Syscall, T))
        ensures
            r == (self.syscall, self.callback),
    {
        (self.syscall, self.callback)
    }
}

impl<T> RestrictFilter for TracerFilter<T> {
    open spec fn spec_apply(&self) -> SeccompFilter {
        SeccompFilter { syscall: self.syscall, action: Action::Trace }
    }

    fn apply(&self) -> (rule: SeccompFilter) {
        SeccompFilter::new(self.syscall, Action::Trace)
    }
}

/// The system calls and handlers of a list of filters, in order.
pub open spec fn tracer_entries<T>(filters: Seq<TracerFilter<T>>) -> Seq<(Syscall, T)> {
    Seq::new(filters.len(), |i: int| (filters[i].syscall, filters[i].callback))
}

/// The trace handlers of a policy, by system call.
#[derive(Debug)]
pub struct TracerMap<T>(pub Vec<(Syscall, T)>);

impl<T> View for TracerMap<T> {
    type V = Seq<(Syscall, T)>;

    open spec fn view(&self) -> Seq<(Syscall, T)> {
        self.0@
    }
}

impl<T> TracerMap<T> {
    /// The position of the handler that a lookup of `syscall` finds.
    pub open spec fn spec_position(&self, syscall: Syscall) -> Option<int> {
        first_match(keys_of(self@), syscall)
    }

    /// The map of the handlers of `tracers_vec`, in the same order.
    pub fn from(tracers_vec: Vec<TracerFilter<T>>) -> (r: Self)
        ensures
            r@ == tracer_entries(tracers_vec@),
    {
        let mut rest = tracers_vec;
        let mut entries: Vec<(Syscall, T)> = Vec::new();
        let ghost all = tracer_entries(rest@);
        while rest.len() > 0
            invariant
                entries@.len() + rest@.len() == all.len(),
                forall|i: int| 0 <= i < entries@.len() ==> entries@[i] == all[i],
                forall|i: int|
                    0 <= i < rest@.len() ==> (#[trigger] rest@[i].syscall, rest@[i].callback)
                        == all[entries@.len() + i],
            decreases rest@.len(),
        {
            let filter = rest.remove(0);
            entries.push(filter.to_map());
        }
        assert(entries@ =~= all);
        TracerMap(entries)
    }

    /// The number of handlers.
    pub fn len(&self) -> (n: usize)
        ensures
            n == self@.len(),
    {
        self.0.len()
    }

    /// The handler of the first entry for `syscall`; `None` if no entry is
    /// for `syscall`.
    pub fn find_by_syscall(&self, syscall: Syscall) -> (r: Option<&T>)
        ensures
            match r {
                Some(handler) => self.spec_position(syscall) matches Some(i) && *handler
                    == self@[i].1,
                None => self.spec_position(syscall) is None,
            },
    {
        match find_first(&self.0, syscall) {
            Some(i) => Some(&self.0[i].1),
            None => None,
        }
    }

    /// The position of the first entry for `syscall`.
    pub fn position(&self, syscall: Syscall) -> (r: Option<usize>)
        ensures
            match r {
                Some(i) => self.spec_position(syscall) == Some(i as int) && i < self@.len(),
                None => self.spec_position(syscall) is None,
            },
    {
        find_first(&self.0, syscall)
    }

    /// The handler at position `index`; `None` beyond the last one.
    pub fn handler_at(&self, index: usize) -> (r: Option<&T>)
        ensures
            match r {
                Some(handler) => index < self@.len() && *handler == self@[index as int].1,
                None => index >= self@.len(),
            },
    {
        if index < self.0.len() {
            Some(&self.0[index].1)
        } else {
            None
        }
    }
}

} // verus!
