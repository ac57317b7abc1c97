//! A builder for a set of glommio executors, one per thread.

use vstd::prelude::*;
use vstd::string::{StringExecFns, to_string_from_display_ensures};
use core::ops::Range;

verus! {

/// One executor thread of a [`GlommioTpBuilder`]: its number and, when the
/// builder pins threads, the CPU it is pinned to.
#[derive(Debug, Clone, Copy, PartialEq, Eq, Structural)]
pub struct ThreadSlot {
    /// The thread's number, from 0.
    pub index: usize,
    /// The CPU the thread is pinned to, if the builder pins threads.
    pub cpu: Option<usize>,
}

/// A simple glommio runtime builder: a number of executor threads, a name
/// that their names start with, and optionally the CPUs to pin them to.
#[derive(Debug)]
pub struct GlommioTpBuilder {
    threads: usize,
    name: String,
    pin_to_cpu: Option<Range<usize>>,
}

/// The number of values in `start..end`.
pub open spec fn range_len(start: usize, end: usize) -> nat {
    if start <= end {
        (end - start) as nat
    } else {
        0
    }
}

impl GlommioTpBuilder {
    /// The number of executor threads asked for.
    pub closed spec fn threads(self) -> usize {
        self.threads
    }

    /// The name that the threads' names start with.
    pub closed spec fn name(self) -> Seq<char> {
        self.name@
    }

    /// The CPUs to pin the threads to, if any.
    pub closed spec fn pin_to_cpu(self) -> Option<Range<usize>> {
        self.pin_to_cpu
    }

    /// How many threads the builder starts: one per asked-for thread, and no
    /// more than there are CPUs to pin to when it pins them.
    pub open spec fn slot_count(self) -> nat {
        match self.pin_to_cpu() {
            None => self.threads() as nat,
            Some(r) => if range_len(r.start, r.end) < self.threads() {
                range_len(r.start, r.end)
            } else {
                self.threads() as nat
            },
        }
    }

    /// The slot of thread `i`.
    pub open spec fn slot(self, i: int) -> ThreadSlot {
        ThreadSlot {
            index: i as usize,
            cpu: match self.pin_to_cpu() {
                None => None,
                Some(r) => Some((r.start + i) as usize),
            },
        }
    }

    /// Create a new builder for `threads` unpinned threads named "unnamed".
    pub fn new(threads: usize) -> (b: Self)
        ensures
            b.threads() == threads,
            b.name() == "unnamed"@,
            b.pin_to_cpu() is None,
    {
        GlommioTpBuilder { threads, name: String::from_str("unnamed"), pin_to_cpu: None }
    }

    /// The executor threads to start: thread `i` pairs with the `i`-th CPU of
    /// the pinning range when there is one.
    pub fn thread_plan(&self) -> (plan: Vec<ThreadSlot>)
        ensures
            plan@.len() == self.slot_count(),
            forall|i: int| 0 <= i < plan@.len() ==> #[trigger] plan@[i] == self.slot(i),
    {
        let count: usize = match &self.pin_to_cpu {
            None => self.threads,
            Some(r) => {
                let len: usize = if r.start <= r.end {
                    r.end - r.start
                } else {
                    0
                };
                if len < self.threads {
                    len
                } else {
                    self.threads
                }
            },
        };
        let mut plan: Vec<ThreadSlot> = Vec::new();
        let mut i: usize = 0;
        while i < count
            invariant
                count == self.slot_count(),
                i <= count,
                plan@.len() == i,
                forall|j: int| 0 <= j < i ==> #[trigger] plan@[j] == self.slot(j),
            decreases count - i,
        {
            let cpu = match &self.pin_to_cpu {
                None => None,
                Some(r) => Some(r.start + i),
            };
            plan.push(ThreadSlot { index: i, cpu });
            i = i + 1;
        }
        plan
    }

    /// The name of executor thread `index`: the builder's name, a dash and the
    /// thread's number.
    pub fn thread_name(&self, index: usize) -> (s: String)
        ensures
            exists|digits: String|
                #[trigger] to_string_from_display_ensures(&index, digits) && s@ == self.name() + "-"@
                    + digits@,
    {
        let digits = index.to_string();
        self.name.clone().concat("-").concat(digits.as_str())
    }
}

} // verus!
