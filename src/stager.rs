//! Frame acquisition: poll the capture source until a frame comes, backing off
//! between polls, and give up only on a hard capture error.
use crate::frame::Frame;
use vstd::prelude::*;

verus! {

/// How long to wait after a poll that found no frame yet.
pub const BACKOFF_MILLIS: u64 = 10;

/// What one non-blocking poll of the capture source gave.
#[derive(Debug, PartialEq, Eq)]
pub enum Poll {
    /// A whole frame.
    Ready(Frame),
    /// No frame yet; try again.
    Pending,
    /// The device is lost or access was withdrawn.
    Failed,
}

/// What the stager asks of its caller after a poll.
#[derive(Debug, PartialEq, Eq)]
pub enum StagerAction {
    /// Wait this many milliseconds, then poll again.
    Retry(u64),
    /// The frame to hand on.
    Deliver(Frame),
    /// Stop: the capture failed for good.
    Fail,
}

/// The state of one `acquire`: how many polls found nothing so far.
pub struct Stager {
    retries: u64,
}

impl View for Stager {
    type V = nat;

    closed spec fn view(&self) -> nat {
        self.retries as nat
    }
}

impl Stager {
    /// A stager that has not polled yet.
    pub fn new() -> (r: Stager)
        ensures
            r@ == 0,
    {
        Stager { retries: 0 }
    }

    /// The number of retries made so far.
    pub fn retries(&self) -> (r: u64)
        ensures
            r == self@,
    {
        self.retries
    }

    /// Decides what follows a poll: retry after the backoff on `Pending`,
    /// deliver a frame, or fail on a hard error. Only `Pending` counts a retry.
    pub fn on_poll(&mut self, p: Poll) -> (r: StagerAction)
        ensures
            p is Pending ==> r == StagerAction::Retry(BACKOFF_MILLIS) && final(self)@ == (
                if old(self)@ < u64::MAX { old(self)@ + 1 } else { old(self)@ }),
            p is Ready ==> r == StagerAction::Deliver(p->Ready_0) && final(self)@ == old(self)@,
            p is Failed ==> r is Fail && final(self)@ == old(self)@,
    {
        match p {
            Poll::Ready(f) => StagerAction::Deliver(f),
            Poll::Pending => {
                if self.retries < u64::MAX {
                    self.retries = self.retries + 1;
                }
                StagerAction::Retry(BACKOFF_MILLIS)
            },
            Poll::Failed => StagerAction::Fail,
        }
    }
}

/// How an acquisition from a list of poll outcomes ended.
#[derive(Debug, PartialEq, Eq)]
pub enum Acquisition {
    /// A frame came after this many retries.
    Acquired(Frame, u64),
    /// A hard error came after this many retries.
    Failed(u64),
    /// The outcomes ran out after this many retries.
    Exhausted(u64),
}

/// How many polls at the front of `polls` found nothing.
pub open spec fn leading_pending(polls: Seq<Poll>) -> nat
    decreases polls.len(),
{
    if polls.len() == 0 {
        0
    } else if polls[0] is Pending {
        1 + leading_pending(polls.drop_first())
    } else {
        0
    }
}

/// What acquiring from `polls`, answered in order, ends in.
pub open spec fn acquisition_of(polls: Seq<Poll>) -> Acquisition {
    let k = leading_pending(polls);
    if k < polls.len() {
        match polls[k as int] {
            Poll::Ready(f) => Acquisition::Acquired(f, k as u64),
            _ => Acquisition::Failed(k as u64),
        }
    } else {
        Acquisition::Exhausted(k as u64)
    }
}

/// The polls before the first settled one are all `Pending`, and that one is not.
pub proof fn lemma_leading_pending(polls: Seq<Poll>)
    ensures
        leading_pending(polls) <= polls.len(),
        forall|i: int| 0 <= i < leading_pending(polls) ==> #[trigger] polls[i] is Pending,
        leading_pending(polls) < polls.len() ==> !(polls[leading_pending(polls) as int] is Pending),
    decreases polls.len(),
{
    if polls.len() > 0 && polls[0] is Pending {
        let rest = polls.drop_first();
        lemma_leading_pending(rest);
        assert forall|i: int| 0 <= i < leading_pending(polls) implies #[trigger] polls[i] is Pending by {
            if i > 0 {
                assert(polls[i] == rest[i - 1]);
            }
        }
    }
}

/// Acquires a frame from a capture source that answers with `polls`, in order:
/// retries on each `Pending` and stops at the first frame or hard error.
pub fn acquire_from(polls: Vec<Poll>) -> (r: Acquisition)
    ensures
        r == acquisition_of(polls@),
{
    let ghost all = polls@;
    let _n: usize = polls.len();
    proof { lemma_leading_pending(all); }
    let mut rest = polls;
    let mut stager = Stager::new();
    let ghost taken: nat = 0;
    while rest.len() > 0
        invariant
            all == polls@,
            taken <= leading_pending(all),
            rest@ == all.subrange(taken as int, all.len() as int),
            stager@ == taken,
            leading_pending(all) <= all.len(),
            all.len() <= usize::MAX,
            forall|i: int| 0 <= i < leading_pending(all) ==> #[trigger] all[i] is Pending,
            leading_pending(all) < all.len() ==> !(all[leading_pending(all) as int] is Pending),
        decreases rest.len(),
    {
        let p = rest.remove(0);
        assert(p == all[taken as int]);
        match stager.on_poll(p) {
            StagerAction::Retry(_) => {
                proof {
                    if taken == leading_pending(all) {
                        assert(false);
                    }
                    taken = taken + 1;
                }
            },
            StagerAction::Deliver(f) => {
                assert(taken == leading_pending(all));
                return Acquisition::Acquired(f, stager.retries());
            },
            StagerAction::Fail => {
                assert(taken == leading_pending(all));
                return Acquisition::Failed(stager.retries());
            },
        }
    }
    assert(taken == leading_pending(all)) by {
        if taken < leading_pending(all) {
            assert(all[taken as int] is Pending);
        }
    }
    Acquisition::Exhausted(stager.retries())
}

/// A source that finds nothing `n` times and then gives a frame yields that
/// frame after exactly `n` retries, and not before.
pub proof fn lemma_retries_then_frame(n: nat, f: Frame)
    requires
        n < u64::MAX,
    ensures
        ({
            let polls = Seq::new(n, |i: int| Poll::Pending).push(Poll::Ready(f));
            acquisition_of(polls) == Acquisition::Acquired(f, n as u64)
        }),
{
    let polls = Seq::new(n, |i: int| Poll::Pending).push(Poll::Ready(f));
    lemma_leading_pending(polls);
    let k = leading_pending(polls);
    if k < n {
        assert(!(polls[k as int] is Pending));
    }
    if k > n {
        assert(polls[n as int] is Pending);
    }
    assert(k == n);
}

} // verus!
