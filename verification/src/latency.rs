//! Latency buffer: quotes become visible to the market only after a
//! configurable number of steps.
//!
//! Every step submits one quote pair. With a latency of zero the submitted
//! pair is effective immediately. With a positive latency, once the buffer
//! holds more pairs than the latency the oldest pair is popped and becomes
//! effective — the pair submitted exactly `latency` steps ago. Before the
//! buffer has filled, the most recently submitted pair is effective
//! (optimistic warm-up); this edge-case policy is deliberate and preserved
//! exactly.

use vstd::prelude::*;
use crate::model::Num;
use std::collections::VecDeque;

verus! {

/// One ask/bid quote pair.
#[derive(Clone, Copy, PartialEq, Eq, Structural, Debug)]
pub struct Quote {
    pub ask: Num,
    pub bid: Num,
}

/// The quote of the submission history that is visible to the market at the
/// latest submitted step, under a visibility delay of `latency` steps.
/// Writing `i` for the latest step index: with no latency, or during warm-up
/// (`i < latency`), the step's own quote; otherwise the quote of step
/// `i - latency`.
pub open spec fn effective_quote(history: Seq<Quote>, latency: nat) -> Quote
    recommends
        history.len() > 0,
{
    let i = history.len() - 1;
    if latency == 0 || i < latency {
        history[i]
    } else {
        history[i - latency]
    }
}

/// How many of the oldest submissions have already been popped from the
/// queue after `n` submissions under the given latency. With no latency the
/// queue is never popped.
pub open spec fn popped_count(n: int, latency: int) -> int {
    if latency == 0 || n <= latency {
        0
    } else {
        n - latency
    }
}

/// The quote queue together with the latency setting it was created for.
pub struct LatencyBuffer {
    latency: usize,
    queue: VecDeque<Quote>,
    history: Ghost<Seq<Quote>>,
}

impl LatencyBuffer {
    /// The visibility delay, in steps.
    pub closed spec fn latency_spec(self) -> usize {
        self.latency
    }

    /// All quote pairs ever submitted, oldest first.
    pub closed spec fn history(self) -> Seq<Quote> {
        self.history@
    }

    /// The queue holds exactly the submissions not yet popped.
    pub closed spec fn wf(self) -> bool {
        self.queue@ == self.history@.skip(
            popped_count(self.history@.len() as int, self.latency as int),
        )
    }

    /// An empty buffer for the given latency.
    pub fn new(latency: usize) -> (b: LatencyBuffer)
        ensures
            b.wf(),
            b.latency_spec() == latency,
            b.history() == Seq::<Quote>::empty(),
    {
        let b = LatencyBuffer {
            latency,
            queue: VecDeque::new(),
            history: Ghost(Seq::empty()),
        };
        proof {
            assert(b.queue@ =~= b.history@.skip(0));
        }
        b
    }

    /// Submit one quote pair and return the pair effective this step, per
    /// the visibility rule of `effective_quote`.
    pub fn submit(&mut self, quote: Quote) -> (eff: Quote)
        requires
            old(self).wf(),
        ensures
            final(self).wf(),
            final(self).latency_spec() == old(self).latency_spec(),
            final(self).history() == old(self).history().push(quote),
            eff == effective_quote(final(self).history(), old(self).latency_spec() as nat),
    {
        let ghost old_history = self.history@;
        let ghost lat = self.latency as int;
        let ghost d = popped_count(old_history.len() as int, lat);
        self.queue.push_back(quote);
        proof {
            self.history@ = old_history.push(quote);
            assert(self.queue@ =~= self.history@.skip(d));
        }
        if self.latency == 0 {
            quote
        } else if self.queue.len() > self.latency {
            let front = self.queue.pop_front();
            let eff = front.unwrap();
            proof {
                assert(self.queue@ =~= self.history@.skip(
                    popped_count(self.history@.len() as int, lat),
                ));
            }
            eff
        } else {
            quote
        }
    }
}

/// Visibility law: with no latency the effective quote of the latest step
/// `i` is that step's own submission; with latency `l > 0` it is the
/// submission of step `i - l` once `i >= l`, and still step `i`'s own
/// submission during warm-up (`i < l`).
pub proof fn lemma_latency_visibility(history: Seq<Quote>, latency: nat)
    requires
        history.len() > 0,
    ensures
        latency == 0 ==> effective_quote(history, latency) == history[history.len() - 1],
        history.len() - 1 < latency ==> effective_quote(history, latency) == history[history.len()
            - 1],
        latency > 0 && history.len() - 1 >= latency ==> effective_quote(history, latency)
            == history[history.len() - 1 - latency],
{
}

/// Warm-up independence: while the latest step lies inside the warm-up
/// window of both settings (or a setting is zero), the effective quote does
/// not depend on the latency setting at all.
pub proof fn lemma_warmup_latency_independent(history: Seq<Quote>, l1: nat, l2: nat)
    requires
        history.len() > 0,
        l1 == 0 || history.len() - 1 < l1,
        l2 == 0 || history.len() - 1 < l2,
    ensures
        effective_quote(history, l1) == effective_quote(history, l2),
        effective_quote(history, l1) == history[history.len() - 1],
{
}

} // verus!
