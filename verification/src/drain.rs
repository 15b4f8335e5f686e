//! Draining what is left of an abandoned request.
//!
//! Before a failed request is answered, its unread data is discarded so that
//! the connection can be closed in step with the client. Two bounds hold
//! together: each wait for more data is cut off after `CHUNK_TIMEOUT_SECS`,
//! and at most `MAX_CHUNKS` pieces are discarded. When either bound ends the
//! draining, the connection is closed by force.

use vstd::prelude::*;
use crate::limits::MAX_CHUNKS;

verus! {

/// What one wait for more request data gave.
#[derive(Clone, Copy, Debug, PartialEq, Eq, Structural)]
pub enum DrainEvent {
    /// A piece of data arrived in time and was discarded.
    Data,
    /// The request has been read to its end.
    Exhausted,
    /// Nothing arrived within the timeout.
    TimedOut,
    /// The stream could not be read.
    Failed,
}

/// How draining ended.
#[derive(Clone, Copy, Debug, PartialEq, Eq, Structural)]
pub enum DrainEnd {
    /// The whole request was consumed: the connection may be kept alive.
    Complete,
    /// Draining was cut short: the connection has to be closed by force.
    Truncated,
}

/// What to do after one wait.
#[derive(Clone, Copy, Debug, PartialEq, Eq, Structural)]
pub enum DrainStep {
    /// Wait for the next piece.
    Continue,
    /// Stop draining.
    Stop(DrainEnd),
}

/// The count of discarded pieces after one more: it stops at `MAX_CHUNKS`.
pub open spec fn counted(discarded: nat) -> nat {
    if discarded < MAX_CHUNKS {
        discarded + 1
    } else {
        discarded
    }
}

/// The count and the step after `event`, when `discarded` pieces were
/// discarded before it. Draining goes on only after data, and only while
/// fewer than `MAX_CHUNKS` pieces have been discarded.
pub open spec fn drain_next(discarded: nat, event: DrainEvent) -> (nat, DrainStep) {
    match event {
        DrainEvent::Data => if counted(discarded) >= MAX_CHUNKS {
            (counted(discarded), DrainStep::Stop(DrainEnd::Truncated))
        } else {
            (counted(discarded), DrainStep::Continue)
        },
        DrainEvent::Exhausted => (discarded, DrainStep::Stop(DrainEnd::Complete)),
        _ => (discarded, DrainStep::Stop(DrainEnd::Truncated)),
    }
}

impl DrainEnd {
    /// Whether the connection has to be closed by force.
    pub open spec fn forces_close(self) -> bool {
        self == DrainEnd::Truncated
    }

    /// Whether the connection has to be closed by force.
    pub fn force_close(self) -> (close: bool)
        ensures
            close == self.forces_close(),
    {
        match self {
            DrainEnd::Complete => false,
            DrainEnd::Truncated => true,
        }
    }
}

/// Count of the pieces discarded while draining one request.
pub struct DrainBudget {
    discarded: u32,
}

impl View for DrainBudget {
    type V = nat;

    closed spec fn view(&self) -> nat {
        self.discarded as nat
    }
}

impl DrainBudget {
    /// A budget is never overdrawn.
    #[verifier::type_invariant]
    spec fn wf(&self) -> bool {
        self.discarded <= MAX_CHUNKS
    }

    /// The budget of a request of which nothing has been drained.
    pub fn new() -> (budget: DrainBudget)
        ensures
            budget@ == 0,
    {
        DrainBudget { discarded: 0 }
    }

    /// Pieces discarded so far: never more than `MAX_CHUNKS`.
    pub fn discarded(&self) -> (n: u32)
        ensures
            n == self@,
            n <= MAX_CHUNKS,
    {
        proof {
            use_type_invariant(self);
        }
        self.discarded
    }

    /// Takes in what one wait gave and says whether to wait again.
    pub fn record(&mut self, event: DrainEvent) -> (step: DrainStep)
        ensures
            (final(self)@, step) == drain_next(old(self)@, event),
            step == DrainStep::Continue ==> final(self)@ < MAX_CHUNKS,
    {
        proof {
            use_type_invariant(&*self);
        }
        match event {
            DrainEvent::Data => {
                if self.discarded < MAX_CHUNKS {
                    self.discarded = self.discarded + 1;
                }
                if self.discarded >= MAX_CHUNKS {
                    DrainStep::Stop(DrainEnd::Truncated)
                } else {
                    DrainStep::Continue
                }
            },
            DrainEvent::Exhausted => DrainStep::Stop(DrainEnd::Complete),
            _ => DrainStep::Stop(DrainEnd::Truncated),
        }
    }
}

/// What draining came to.
#[derive(Clone, Copy, Debug, PartialEq, Eq, Structural)]
pub struct DrainSummary {
    /// Pieces discarded.
    pub discarded: u32,
    /// How draining ended; `None` while the request has more to give and the
    /// budget is not spent.
    pub end: Option<DrainEnd>,
}

/// Drains along a record of what each wait gave. Draining discards the
/// pieces that arrive until the first wait that gives no data, and never more
/// than `MAX_CHUNKS` of them; waits after the one that stopped it are not made.
pub fn drain_data(events: &Vec<DrainEvent>) -> (summary: DrainSummary)
    ensures
        summary.discarded <= MAX_CHUNKS,
        summary.discarded <= events.len(),
        forall|j: int| 0 <= j < summary.discarded ==> events[j] == DrainEvent::Data,
        summary.discarded == MAX_CHUNKS ==> summary.end == Some(DrainEnd::Truncated),
        summary.discarded < MAX_CHUNKS && summary.discarded == events.len() ==> summary.end
            is None,
        summary.discarded < MAX_CHUNKS && summary.discarded < events.len() ==> {
            &&& events[summary.discarded as int] != DrainEvent::Data
            &&& summary.end == Some(
                if events[summary.discarded as int] == DrainEvent::Exhausted {
                    DrainEnd::Complete
                } else {
                    DrainEnd::Truncated
                },
            )
        },
{
    let mut budget = DrainBudget::new();
    let mut i: usize = 0;
    while i < events.len()
        invariant
            i <= events.len(),
            budget@ == i,
            i < MAX_CHUNKS,
            forall|j: int| 0 <= j < i ==> events[j] == DrainEvent::Data,
        decreases events.len() - i,
    {
        match budget.record(events[i]) {
            DrainStep::Continue => {},
            DrainStep::Stop(end) => {
                return DrainSummary { discarded: budget.discarded(), end: Some(end) };
            },
        }
        i = i + 1;
    }
    DrainSummary { discarded: budget.discarded(), end: None }
}

} // verus!
