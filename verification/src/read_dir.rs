//! The directory enumeration state machine.
//!
//! Enumerating a directory yields a finite, lazy, non-restartable sequence
//! of entry-or-error items, driven one step per completed worker call. The
//! raw directory iterator ([`DirLister`]) has a single owner at all times:
//! it alternates between the stream's idle slot and the offloaded advance
//! call, never duplicated and never accessed from both sides at once — the
//! state type makes any other arrangement unrepresentable.

use vstd::prelude::*;

use crate::dir_entry::DirEntry;
use crate::error::Error;
use crate::poll::PollResult;

verus! {

/// The raw directory iterator: the remaining raw items, each an entry or
/// an error, exactly as the blocking primitive will report them. Advancing
/// it is one blocking call.
pub struct DirLister {
    items: Vec<Result<DirEntry, Error>>,
}

impl DirLister {
    /// The raw items not yet yielded.
    pub closed spec fn remaining(&self) -> Seq<Result<DirEntry, Error>> {
        self.items@
    }

    /// A raw iterator over the given items.
    pub fn new(items: Vec<Result<DirEntry, Error>>) -> (r: DirLister)
        ensures
            r.remaining() == items@,
    {
        DirLister { items }
    }

    /// One blocking advance call: the next raw item, or `None` once the
    /// sequence is exhausted. Exhaustion is final — the iterator is not
    /// restartable.
    pub fn advance(&mut self) -> (r: Option<Result<DirEntry, Error>>)
        ensures
            old(self).remaining().len() > 0 ==> {
                &&& r == Some(old(self).remaining()[0])
                &&& final(self).remaining() == old(self).remaining().drop_first()
            },
            old(self).remaining().len() == 0 ==> {
                &&& r is None
                &&& final(self).remaining() == old(self).remaining()
            },
    {
        if self.items.len() > 0 {
            let item = self.items.remove(0);
            proof {
                assert(self.items@ =~= old(self).items@.drop_first());
            }
            Some(item)
        } else {
            None
        }
    }
}

/// One offloaded advance call in flight on a worker: it owns the iterator
/// until it completes. `polls_left` models how many polls will still find
/// the worker busy; the caller's task is woken exactly once when the call
/// completes.
pub struct PendingAdvance {
    /// The iterator, owned by the in-flight call.
    lister: DirLister,
    /// How many more polls return `Pending` before the call completes.
    polls_left: u32,
}

/// The two states of an enumeration: ready to advance, holding the
/// iterator; or waiting on one in-flight advance call, which holds it.
pub enum DirState {
    /// The iterator rests in the idle slot; no call is in flight.
    Idle(DirLister),
    /// Exactly one advance call is in flight and owns the iterator.
    Busy(PendingAdvance),
}

/// A stream of directory entries, advanced one raw item per completed
/// worker call.
///
/// Each poll either submits one blocking advance call (if idle), reports
/// that the in-flight call has not finished, or takes the iterator back
/// and yields the produced item: an entry, an error to propagate, or the
/// single end-of-sequence signal. Polling past the end is a caller error;
/// it cannot corrupt the iterator or deadlock here — the stream just keeps
/// reporting the end.
pub struct DirStream {
    /// The state machine: idle with the iterator, or waiting on a worker.
    state: DirState,
    /// How many polls each offloaded advance call stays pending before it
    /// completes; stands for worker scheduling, which the caller cannot
    /// observe beyond the number of wake-ups.
    latency: u32,
}

impl DirStream {
    /// The raw items not yet yielded.
    pub closed spec fn remaining(&self) -> Seq<Result<DirEntry, Error>> {
        match self.state {
            DirState::Idle(l) => l.remaining(),
            DirState::Busy(p) => p.lister.remaining(),
        }
    }

    /// Whether an advance call is in flight.
    pub closed spec fn is_busy(&self) -> bool {
        self.state is Busy
    }

    /// The configured worker latency.
    pub closed spec fn latency_spec(&self) -> u32 {
        self.latency
    }

    /// How many polls, counting this one, until the next `Ready`: the
    /// measure that bounds the polling loop of any consumer.
    pub closed spec fn pending_budget(&self) -> int {
        match self.state {
            DirState::Idle(_) => self.latency as int + 1,
            DirState::Busy(p) => p.polls_left as int + 1,
        }
    }

    /// An enumeration over the given raw iterator. `latency` is how many
    /// polls each offloaded advance stays pending before completing.
    pub fn new(lister: DirLister, latency: u32) -> (r: DirStream)
        ensures
            r.remaining() == lister.remaining(),
            !r.is_busy(),
            r.latency_spec() == latency,
    {
        DirStream { state: DirState::Idle(lister), latency }
    }

    /// One poll of the enumeration.
    ///
    /// If idle, this submits exactly one blocking advance call and the
    /// stream becomes busy. A poll that finds the call unfinished returns
    /// `Pending`, leaving the sequence untouched and strictly shrinking
    /// the budget until completion. A poll that finds it finished takes
    /// the iterator back into the idle slot and yields the item it
    /// produced: the head of the sequence, or `None` — the one
    /// end-of-sequence signal — once nothing remains.
    pub fn poll_next_entry(&mut self) -> (r: PollResult<Option<Result<DirEntry, Error>>>)
        ensures
            final(self).latency_spec() == old(self).latency_spec(),
            r is Pending ==> {
                &&& final(self).remaining() == old(self).remaining()
                &&& final(self).is_busy()
                &&& final(self).pending_budget() < old(self).pending_budget()
            },
            r matches PollResult::Ready(item) ==> {
                &&& !final(self).is_busy()
                &&& (old(self).remaining().len() > 0 ==> item == Some(
                    old(self).remaining()[0],
                ) && final(self).remaining() == old(self).remaining().drop_first())
                &&& (old(self).remaining().len() == 0 ==> item is None
                    && final(self).remaining() == old(self).remaining())
            },
    {
        let mut s = DirState::Idle(DirLister::new(Vec::new()));
        core::mem::swap(&mut s, &mut self.state);
        // If idle: take the iterator and submit one blocking advance call.
        let pending = match s {
            DirState::Idle(lister) => PendingAdvance { lister, polls_left: self.latency },
            DirState::Busy(p) => p,
        };
        // Poll the in-flight call.
        if pending.polls_left > 0 {
            // Not finished: remain suspended until the worker completes.
            self.state = DirState::Busy(
                PendingAdvance {
                    lister: pending.lister,
                    polls_left: pending.polls_left - 1,
                },
            );
            PollResult::Pending
        } else {
            // Finished: take the iterator back and yield the produced item.
            let mut lister = pending.lister;
            let item = lister.advance();
            self.state = DirState::Idle(lister);
            PollResult::Ready(item)
        }
    }

    /// Polls the enumeration to exhaustion and collects what it yields:
    /// for a directory with `K` remaining raw items, exactly those `K`
    /// items in order — none duplicated, none dropped — followed by the
    /// single end-of-sequence signal that terminates the loop, no matter
    /// how many polls report `Pending` along the way.
    pub fn drain(&mut self) -> (r: Vec<Result<DirEntry, Error>>)
        ensures
            r@ == old(self).remaining(),
            final(self).remaining().len() == 0,
            !final(self).is_busy(),
    {
        let mut out: Vec<Result<DirEntry, Error>> = Vec::new();
        proof {
            assert(out@ + self.remaining() =~= old(self).remaining());
        }
        loop
            invariant
                out@ + self.remaining() == old(self).remaining(),
                self.latency_spec() == old(self).latency_spec(),
            ensures
                out@ == old(self).remaining(),
                self.remaining().len() == 0,
                !self.is_busy(),
            decreases self.remaining().len(), self.pending_budget(),
        {
            let step = self.poll_next_entry();
            match step {
                PollResult::Pending => {},
                PollResult::Ready(Some(item)) => {
                    proof {
                        assert(out@.push(old(self).remaining()[out@.len() as int])
                            + self.remaining() =~= old(self).remaining());
                    }
                    out.push(item);
                },
                PollResult::Ready(None) => {
                    proof {
                        assert(out@ =~= old(self).remaining());
                    }
                    break;
                },
            }
        }
        out
    }
}

impl crate::traits::stream::Stream for DirStream {
    type Item = Result<DirEntry, Error>;

    /// Every state of the enumeration may be polled.
    open spec fn stream_inv(&self) -> bool {
        true
    }

    fn poll_next(&mut self) -> (r: PollResult<Option<Result<DirEntry, Error>>>)
        ensures
            final(self).latency_spec() == old(self).latency_spec(),
    {
        DirStream::poll_next_entry(self)
    }
}

impl crate::traits::read_dir::ReadDir for DirStream {

}

} // verus!
