//! The bounded history of display entries.
//!
//! An ordered sequence of strings with a fixed capacity: an append at
//! capacity evicts the oldest entry, so the buffer always equals the most
//! recent `LOG_CAP` appended entries in append order.

use vstd::prelude::*;

verus! {

/// Capacity of the bounded history.
pub const LOG_CAP: usize = 20;

/// A capacity-bounded, first-in-first-out log of display entries.
pub struct LogBuffer {
    entries: Vec<String>,
}

impl View for LogBuffer {
    type V = Seq<Seq<char>>;

    closed spec fn view(&self) -> Seq<Seq<char>> {
        self.entries@.map(|i: int, e: String| e@)
    }
}

impl LogBuffer {
    /// The buffer never outgrows its capacity.
    pub open spec fn wf(&self) -> bool {
        self@.len() <= LOG_CAP
    }

    /// What one append leaves in a buffer: the entry at the end, with the
    /// oldest entry evicted when the buffer is at capacity.
    pub open spec fn appended(log: Seq<Seq<char>>, e: Seq<char>) -> Seq<Seq<char>> {
        if log.len() < LOG_CAP {
            log.push(e)
        } else {
            log.subrange(1, log.len() as int).push(e)
        }
    }

    /// An empty log.
    pub fn new() -> (r: LogBuffer)
        ensures
            r@ == Seq::<Seq<char>>::empty(),
            r.wf(),
    {
        LogBuffer { entries: Vec::new() }
    }

    /// Append an entry, evicting the oldest one when at capacity.
    pub fn append(&mut self, e: String)
        requires
            old(self).wf(),
        ensures
            final(self)@ == Self::appended(old(self)@, e@),
            final(self).wf(),
    {
        if self.entries.len() == LOG_CAP {
            self.entries.remove(0);
        }
        self.entries.push(e);
    }

    /// How many entries the buffer holds.
    pub fn len(&self) -> (n: usize)
        ensures
            n == self@.len(),
    {
        self.entries.len()
    }

    /// The entry at position `i`, oldest first.
    pub fn entry(&self, i: usize) -> (e: &String)
        requires
            i < self@.len(),
        ensures
            e@ == self@[i as int],
    {
        &self.entries[i]
    }
}

/// The buffer contents after a sequence of appends into an initially empty
/// buffer.
pub open spec fn log_of(appends: Seq<Seq<char>>) -> Seq<Seq<char>>
    decreases appends.len(),
{
    if appends.len() == 0 {
        Seq::empty()
    } else {
        LogBuffer::appended(log_of(appends.drop_last()), appends.last())
    }
}

/// Law: after every append the buffer holds at most `LOG_CAP` entries, and is
/// exactly the most recent `LOG_CAP` appended entries, in append order.
pub proof fn lemma_log_bound(appends: Seq<Seq<char>>)
    ensures
        log_of(appends).len() <= LOG_CAP,
        log_of(appends) =~= appends.subrange(
            if appends.len() <= LOG_CAP { 0 } else { appends.len() - LOG_CAP },
            appends.len() as int,
        ),
    decreases appends.len(),
{
    if appends.len() > 0 {
        lemma_log_bound(appends.drop_last());
    }
}

} // verus!
