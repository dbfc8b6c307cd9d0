//! The subscriber coordinator: the decisions of the paired forward and
//! watchdog loops that jointly manage one subscribing connection.
//!
//! The forward loop drains the hub and writes matching payloads to the
//! socket; the watchdog loop watches inbound frames for the peer's close.
//! Whichever ends first ends the session: once the session is inactive,
//! nothing is delivered any more.

use vstd::prelude::*;
use crate::hub::Hub;
use crate::hub::RecvOutcome;
use crate::hub::Subscription;
use crate::messages::SubscriberMsg;
use crate::messages::SubscriberMsgView;
use crate::messages::envelope_matches;
use crate::state::Frame;

verus! {

/// What to do with a subscriber that observes lag: end it outright, or let
/// it skip ahead and keep receiving. Both behaviours exist in deployments of
/// the relay, so the choice is a per-session policy.
#[derive(Clone, Copy, PartialEq, Eq, Structural, Debug)]
pub enum LagPolicy {
    Disconnect,
    SkipAhead,
}

/// What the forward loop does after one poll of the hub.
pub enum ForwardOutcome {
    /// A matching envelope arrived: write this payload to the socket.
    Deliver(String),
    /// An envelope arrived but the filter does not select it.
    Skip,
    /// Nothing published yet beyond this cursor; the caller suspends.
    Idle,
    /// The subscriber lost envelopes to lag; the count lost is carried.
    Lagged(u64),
    /// The session is over: nothing is delivered any more.
    Stopped,
}

/// One subscribing connection: its immutable filter, its private hub cursor,
/// whether it is still live, and its lag policy.
pub struct SubscriberSession {
    filter: SubscriberMsg,
    sub: Subscription,
    active: bool,
    lag_policy: LagPolicy,
}

impl SubscriberSession {
    /// Whether the session still delivers.
    pub closed spec fn active(&self) -> bool {
        self.active
    }

    /// The filter this session was created with; never mutated.
    pub closed spec fn filter_view(&self) -> SubscriberMsgView {
        self.filter@
    }

    /// The position of this session's hub cursor.
    pub closed spec fn cursor(&self) -> nat {
        self.sub.cursor()
    }

    /// The session's lag policy; never mutated.
    pub closed spec fn policy(&self) -> LagPolicy {
        self.lag_policy
    }

    /// Begin a session over a freshly subscribed cursor.
    pub fn new(filter: SubscriberMsg, sub: Subscription, lag_policy: LagPolicy) -> (s: Self)
        ensures
            s.active(),
            s.filter_view() == filter@,
            s.cursor() == sub.cursor(),
            s.policy() == lag_policy,
    {
        SubscriberSession { filter, sub, active: true, lag_policy }
    }

    /// One forward-loop step: poll the hub at this session's cursor and
    /// decide what to write. An envelope is delivered exactly when the
    /// session is live and the envelope's publisher name and topic both
    /// match the filter; the payload handed out is the envelope's data,
    /// verbatim. An inactive session delivers nothing and changes nothing.
    pub fn poll_hub(&mut self, hub: &Hub) -> (r: ForwardOutcome)
        requires
            hub.wf(),
            old(self).cursor() <= hub.head_count(),
        ensures
            final(self).filter_view() == old(self).filter_view(),
            final(self).policy() == old(self).policy(),
            final(self).cursor() <= hub.head_count(),
            !old(self).active() ==> {
                &&& r matches ForwardOutcome::Stopped
                &&& *final(self) == *old(self)
            },
            old(self).active() && old(self).cursor() == hub.head_count() ==> {
                &&& r matches ForwardOutcome::Idle
                &&& *final(self) == *old(self)
            },
            old(self).active() && old(self).cursor() < hub.head_count() && hub.oldest() <= old(
                self,
            ).cursor() ==> {
                let env = hub.window()[old(self).cursor() - hub.oldest()];
                &&& (envelope_matches(old(self).filter_view(), env) ==> (r
                    matches ForwardOutcome::Deliver(d) && d@ == env.msg.data))
                &&& (!envelope_matches(old(self).filter_view(), env) ==> (r
                    matches ForwardOutcome::Skip))
                &&& final(self).cursor() == old(self).cursor() + 1
                &&& final(self).active()
            },
            old(self).active() && old(self).cursor() < hub.oldest() ==> {
                &&& (r matches ForwardOutcome::Lagged(n) && n as int == hub.oldest() - old(
                    self,
                ).cursor())
                &&& final(self).cursor() == hub.oldest()
                &&& final(self).active() == (old(self).policy() == LagPolicy::SkipAhead)
            },
    {
        if !self.active {
            return ForwardOutcome::Stopped;
        }
        match hub.recv(&mut self.sub) {
            RecvOutcome::Empty => ForwardOutcome::Idle,
            RecvOutcome::Msg(env) => {
                if env.name == self.filter.publisher && env.msg.topic == self.filter.topic {
                    ForwardOutcome::Deliver(env.msg.data)
                } else {
                    ForwardOutcome::Skip
                }
            },
            RecvOutcome::Lagged(n) => {
                if self.lag_policy == LagPolicy::Disconnect {
                    self.active = false;
                }
                ForwardOutcome::Lagged(n)
            },
        }
    }

    /// One watchdog-loop step: classify a frame the peer sent while
    /// subscribing. A ping is tolerated and changes nothing; a close, a text
    /// frame or any other frame ends the session, and with it all delivery.
    pub fn on_peer_frame(&mut self, frame: &Frame) -> (stop: bool)
        ensures
            final(self).filter_view() == old(self).filter_view(),
            final(self).cursor() == old(self).cursor(),
            final(self).policy() == old(self).policy(),
            frame matches Frame::Ping ==> final(self).active() == old(self).active() && !stop,
            !(frame matches Frame::Ping) ==> !final(self).active() && stop,
            frame matches Frame::Close ==> !final(self).active() && stop,
    {
        match frame {
            Frame::Ping => false,
            _ => {
                self.active = false;
                true
            },
        }
    }

    /// Record the result of writing one delivered payload to the socket: a
    /// failed write (the peer is gone) ends the session.
    pub fn on_write_result(&mut self, ok: bool)
        ensures
            final(self).filter_view() == old(self).filter_view(),
            final(self).cursor() == old(self).cursor(),
            final(self).policy() == old(self).policy(),
            final(self).active() == (old(self).active() && ok),
    {
        if !ok {
            self.active = false;
        }
    }

    /// End the session, giving back the hub cursor. The session is consumed,
    /// so nothing can be delivered through it afterwards.
    pub fn release(self) -> (s: Subscription)
        ensures
            s.cursor() == self.cursor(),
    {
        self.sub
    }
}

} // verus!
