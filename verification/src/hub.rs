//! The broadcast hub: a process-wide fan-out primitive with a fixed capacity.
//!
//! Publishers push envelopes; every subscriber owns an independent cursor.
//! `publish` never blocks and never fails the caller, whatever the number of
//! subscribers. A subscriber that falls behind the retained window by more
//! than the capacity loses the oldest unread envelopes and is told so by a
//! distinguishable `Lagged` outcome, never by a silent resync.

use vstd::prelude::*;
use vstd::assert_seqs_equal;
use crate::messages::PubSubMsg;
use crate::messages::PubSubMsgView;

verus! {

/// Fixed capacity of the hub: the number of buffered envelopes retained for
/// slow subscribers. A deliberate bound that trades slow-subscriber loss for
/// bounded memory.
pub const HUB_CAPACITY: usize = 16;

/// The shared fan-out medium. It retains at most [`HUB_CAPACITY`] envelopes,
/// the newest ones, and counts every envelope ever published.
pub struct Hub {
    queue: Vec<PubSubMsg>,
    head: u64,
}

/// A subscriber's private read cursor into the hub.
pub struct Subscription {
    pos: u64,
}

impl Subscription {
    /// The number of the next envelope this subscriber will observe.
    pub closed spec fn cursor(&self) -> nat {
        self.pos as nat
    }
}

/// What one receive step yields: the next envelope, a lag notice carrying the
/// number of envelopes lost, or nothing yet (the caller would suspend).
pub enum RecvOutcome {
    Msg(PubSubMsg),
    Lagged(u64),
    Empty,
}

/// The retained window after appending one envelope: a plain push while the
/// window is short of the capacity, otherwise the oldest envelope is dropped
/// to make room.
pub open spec fn push_bounded(w: Seq<PubSubMsgView>, e: PubSubMsgView) -> Seq<PubSubMsgView> {
    if w.len() < HUB_CAPACITY {
        w.push(e)
    } else {
        w.drop_first().push(e)
    }
}

impl Hub {
    /// The retained envelopes, oldest first.
    pub closed spec fn window(&self) -> Seq<PubSubMsgView> {
        self.queue@.map_values(|m: PubSubMsg| m@)
    }

    /// The total number of envelopes ever published.
    pub closed spec fn head_count(&self) -> nat {
        self.head as nat
    }

    /// The number of the oldest envelope still retained.
    pub open spec fn oldest(&self) -> int {
        self.head_count() - self.window().len()
    }

    /// Well-formedness: the window never exceeds the capacity, nor the number
    /// of envelopes published so far.
    pub closed spec fn wf(&self) -> bool {
        self.queue@.len() <= HUB_CAPACITY && self.queue@.len() <= self.head_count()
    }

    /// A fresh hub: nothing published, nothing retained.
    pub fn new() -> (h: Hub)
        ensures
            h.wf(),
            h.head_count() == 0,
            h.window() == Seq::<PubSubMsgView>::empty(),
    {
        let h = Hub { queue: Vec::new(), head: 0 };
        proof {
            assert_seqs_equal!(h.window(), Seq::<PubSubMsgView>::empty());
        }
        h
    }

    /// Publish one envelope. Non-blocking and unconditional: it succeeds for
    /// every envelope and every number of live subscribers, including zero;
    /// there is no error path. The envelope is appended to the window
    /// unchanged; if the window is full the oldest retained envelope is
    /// dropped.
    pub fn publish(&mut self, env: PubSubMsg)
        requires
            old(self).wf(),
            old(self).head_count() < u64::MAX,
        ensures
            final(self).wf(),
            final(self).head_count() == old(self).head_count() + 1,
            final(self).window() == push_bounded(old(self).window(), env@),
    {
        if self.queue.len() == HUB_CAPACITY {
            self.queue.remove(0);
        }
        self.queue.push(env);
        self.head = self.head + 1;
        proof {
            assert_seqs_equal!(final(self).window(), push_bounded(old(self).window(), env@));
        }
    }

    /// Open an independent read cursor, positioned at the head: a new
    /// subscriber sees only envelopes published after it subscribed.
    pub fn subscribe(&self) -> (s: Subscription)
        ensures
            s.cursor() == self.head_count(),
    {
        Subscription { pos: self.head }
    }

    /// One receive step for the given cursor. Exactly one of three things
    /// happens: the cursor is at the head and nothing is returned; the cursor
    /// is inside the retained window and the envelope it points at is
    /// returned, the cursor advancing by one; or the cursor has fallen below
    /// the window and a `Lagged` outcome reports how many envelopes were
    /// lost, the cursor jumping to the oldest retained envelope.
    pub fn recv(&self, sub: &mut Subscription) -> (r: RecvOutcome)
        requires
            self.wf(),
            old(sub).cursor() <= self.head_count(),
        ensures
            final(sub).cursor() <= self.head_count(),
            old(sub).cursor() == self.head_count() ==> {
                &&& r matches RecvOutcome::Empty
                &&& *final(sub) == *old(sub)
            },
            old(sub).cursor() < self.head_count() && self.oldest() <= old(sub).cursor() ==> {
                &&& r matches RecvOutcome::Msg(m) && m@ == self.window()[old(sub).cursor() - self.oldest()]
                &&& final(sub).cursor() == old(sub).cursor() + 1
            },
            old(sub).cursor() < self.oldest() ==> {
                &&& r matches RecvOutcome::Lagged(n) && n as int == self.oldest() - old(sub).cursor()
                &&& final(sub).cursor() == self.oldest()
            },
    {
        let len = self.queue.len();
        let oldest = self.head - (len as u64);
        if sub.pos == self.head {
            RecvOutcome::Empty
        } else if sub.pos >= oldest {
            let idx = (sub.pos - oldest) as usize;
            let m = self.queue[idx].clone();
            sub.pos = sub.pos + 1;
            RecvOutcome::Msg(m)
        } else {
            let missed = oldest - sub.pos;
            sub.pos = oldest;
            RecvOutcome::Lagged(missed)
        }
    }
}

/// Bounds that every well-formed hub obeys: bounded memory in the window and
/// a window that never outruns the head.
pub proof fn lemma_wf_bounds(h: Hub)
    requires
        h.wf(),
    ensures
        h.window().len() <= HUB_CAPACITY,
        h.window().len() <= h.head_count(),
        0 <= h.oldest() <= h.head_count(),
{
}

/// Law: a subscriber that has fallen more than [`HUB_CAPACITY`] envelopes
/// behind the head stands below the retained window, so by `recv`'s contract
/// its next receive reports `Lagged` rather than delivering silently; and the
/// window itself never grows past the capacity, so the publisher is never
/// blocked and memory never grows without bound.
pub proof fn lemma_lag_when_far_behind(h: Hub, pos: nat)
    requires
        h.wf(),
        pos + HUB_CAPACITY < h.head_count(),
    ensures
        pos < h.oldest(),
        h.window().len() <= HUB_CAPACITY,
{
}

/// Law: publishing never reorders or rewrites what is already retained. If
/// `h1` is `h0` after publishing `env`, every envelope number still retained
/// by `h1` that `h0` also retained reads exactly as it did in `h0`: a
/// subscriber inside the window sees envelopes of one publisher in publish
/// order, with gaps only where lag dropped the oldest.
pub proof fn lemma_publish_preserves_retained(h0: Hub, h1: Hub, env: PubSubMsgView, k: int)
    requires
        h0.wf(),
        h1.wf(),
        h1.head_count() == h0.head_count() + 1,
        h1.window() == push_bounded(h0.window(), env),
        h1.oldest() <= k,
        h0.oldest() <= k < h0.head_count(),
    ensures
        h1.window()[k - h1.oldest()] == h0.window()[k - h0.oldest()],
{
    let w0 = h0.window();
    if w0.len() < HUB_CAPACITY {
        assert(h1.window()[k - h1.oldest()] == w0[k - h0.oldest()]);
    } else {
        assert(h1.window()[k - h1.oldest()] == w0.drop_first().push(env)[k - h0.oldest() - 1]);
        assert(w0.drop_first().push(env)[k - h0.oldest() - 1] == w0[k - h0.oldest()]);
    }
}

/// Law: round trip through the hub. If `h1` is `h0` after publishing `env`,
/// and a subscriber's cursor stood at `h0`'s head at that moment, then the
/// cursor lies inside `h1`'s window and the envelope `recv` hands it is
/// exactly `env`: publisher name, topic and data unchanged.
pub proof fn lemma_publish_then_recv(h0: Hub, h1: Hub, env: PubSubMsgView, pos: nat)
    requires
        h0.wf(),
        h1.wf(),
        h1.head_count() == h0.head_count() + 1,
        h1.window() == push_bounded(h0.window(), env),
        pos == h0.head_count(),
    ensures
        h1.oldest() <= pos < h1.head_count(),
        h1.window()[pos - h1.oldest()] == env,
{
    let w0 = h0.window();
    if w0.len() < HUB_CAPACITY {
        assert(h1.window()[pos - h1.oldest()] == env);
    } else {
        assert(h1.window().len() == w0.len());
        assert(h1.window()[pos - h1.oldest()] == env);
    }
}

} // verus!
