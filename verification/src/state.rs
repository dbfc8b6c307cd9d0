//! The per-connection protocol state machine.
//!
//! A connection starts Pending, authenticates with `pub auth <password>`,
//! binds a publisher name with `pub name <identifier>`, or subscribes
//! anonymously with a structured subscription payload. Transitions are
//! monotonic; every violation terminates the connection with a
//! distinguishable close reason.

use vstd::prelude::*;
use crate::commands::Command;
use crate::commands::CommandView;
use crate::commands::parse_command;
use crate::commands::spec_parse_command;
use crate::json::parse_publish_payload;
use crate::json::parse_subscribe_payload;
use crate::json::spec_parse_publish;
use crate::json::spec_parse_subscribe;
use crate::messages::PubSubMsg;
use crate::messages::PubSubMsgView;
use crate::messages::SubscriberMsg;
use crate::messages::SubscriberMsgView;
use crate::text::str_eq;

verus! {

/// An inbound frame, reduced to what the state machine distinguishes: a text
/// line, a keepalive ping, a peer-initiated close, or any other frame type.
pub enum Frame {
    Text(String),
    Ping,
    Close,
    Other,
}

/// The mathematical value of a [`Frame`].
pub enum FrameView {
    Text(Seq<char>),
    Ping,
    Close,
    Other,
}

impl View for Frame {
    type V = FrameView;

    open spec fn view(&self) -> FrameView {
        match self {
            Frame::Text(t) => FrameView::Text(t@),
            Frame::Ping => FrameView::Ping,
            Frame::Close => FrameView::Close,
            Frame::Other => FrameView::Other,
        }
    }
}

/// The state of one connection. A connection holds exactly one role at a
/// time; transitions never return to an earlier state, and the payloads of
/// `Publishing` and `Subscribing` are set once and never mutated.
pub enum ConnectionRole {
    Pending,
    Authenticated,
    Publishing(String),
    Subscribing(SubscriberMsg),
    Terminated,
}

/// The mathematical value of a [`ConnectionRole`].
pub enum RoleView {
    Pending,
    Authenticated,
    Publishing(Seq<char>),
    Subscribing(SubscriberMsgView),
    Terminated,
}

impl View for ConnectionRole {
    type V = RoleView;

    open spec fn view(&self) -> RoleView {
        match self {
            ConnectionRole::Pending => RoleView::Pending,
            ConnectionRole::Authenticated => RoleView::Authenticated,
            ConnectionRole::Publishing(name) => RoleView::Publishing(name@),
            ConnectionRole::Subscribing(f) => RoleView::Subscribing(f@),
            ConnectionRole::Terminated => RoleView::Terminated,
        }
    }
}

/// Why the relay closes a connection. The category is the machine-readable
/// part; the reason string is advisory.
#[derive(Clone, Copy, PartialEq, Eq, Structural, Debug)]
pub enum CloseReason {
    InvalidPassword,
    MalformedCommand,
    InvalidMessage,
    InvalidPayload,
    UnexpectedFrame,
}

/// The advisory reason string for each close category.
pub open spec fn spec_close_reason_text(r: CloseReason) -> Seq<char> {
    match r {
        CloseReason::InvalidPassword => "Invalid password"@,
        CloseReason::MalformedCommand => "Malformed command"@,
        CloseReason::InvalidMessage => "Invalid message"@,
        CloseReason::InvalidPayload => "Invalid payload"@,
        CloseReason::UnexpectedFrame => "Unexpected frame"@,
    }
}

impl CloseReason {
    /// The advisory human-readable reason sent with the close.
    pub fn reason_text(&self) -> (r: String)
        ensures
            r@ == spec_close_reason_text(*self),
    {
        match self {
            CloseReason::InvalidPassword => "Invalid password".to_owned(),
            CloseReason::MalformedCommand => "Malformed command".to_owned(),
            CloseReason::InvalidMessage => "Invalid message".to_owned(),
            CloseReason::InvalidPayload => "Invalid payload".to_owned(),
            CloseReason::UnexpectedFrame => "Unexpected frame".to_owned(),
        }
    }
}

/// What the connection's driver must do after one step: keep reading, hand
/// an envelope to the hub, close with a reason, or stop silently because the
/// peer already ended the connection.
pub enum Action {
    Continue,
    Publish(PubSubMsg),
    CloseWith(CloseReason),
    Stop,
}

/// The mathematical value of an [`Action`].
pub enum ActionView {
    Continue,
    Publish(PubSubMsgView),
    CloseWith(CloseReason),
    Stop,
}

impl View for Action {
    type V = ActionView;

    open spec fn view(&self) -> ActionView {
        match self {
            Action::Continue => ActionView::Continue,
            Action::Publish(env) => ActionView::Publish(env@),
            Action::CloseWith(reason) => ActionView::CloseWith(*reason),
            Action::Stop => ActionView::Stop,
        }
    }
}

/// The transition taken on a text frame, by role.
pub open spec fn step_text_spec(role: RoleView, t: Seq<char>, password: Seq<char>) -> (
    RoleView,
    ActionView,
) {
    match role {
        RoleView::Pending => match spec_parse_command(t) {
            Some(CommandView::Auth(tok)) => if tok == password {
                (RoleView::Authenticated, ActionView::Continue)
            } else {
                (RoleView::Terminated, ActionView::CloseWith(CloseReason::InvalidPassword))
            },
            Some(CommandView::Name(_)) => (
                RoleView::Terminated,
                ActionView::CloseWith(CloseReason::MalformedCommand),
            ),
            None => match spec_parse_subscribe(t) {
                Some(f) => (RoleView::Subscribing(f), ActionView::Continue),
                None => (RoleView::Terminated, ActionView::CloseWith(CloseReason::InvalidMessage)),
            },
        },
        RoleView::Authenticated => match spec_parse_command(t) {
            Some(CommandView::Name(id)) => (RoleView::Publishing(id), ActionView::Continue),
            _ => (RoleView::Terminated, ActionView::CloseWith(CloseReason::MalformedCommand)),
        },
        RoleView::Publishing(name) => match spec_parse_publish(t) {
            Some(m) => (
                RoleView::Publishing(name),
                ActionView::Publish(PubSubMsgView { name: name, msg: m }),
            ),
            None => (RoleView::Terminated, ActionView::CloseWith(CloseReason::InvalidPayload)),
        },
        RoleView::Subscribing(f) => (RoleView::Subscribing(f), ActionView::Continue),
        RoleView::Terminated => (RoleView::Terminated, ActionView::Stop),
    }
}

/// The whole transition relation: one inbound frame against the current
/// role, under the configured password.
pub open spec fn step_spec(role: RoleView, frame: FrameView, password: Seq<char>) -> (
    RoleView,
    ActionView,
) {
    match role {
        RoleView::Terminated => (RoleView::Terminated, ActionView::Stop),
        _ => match frame {
            FrameView::Ping => (role, ActionView::Continue),
            FrameView::Close => (RoleView::Terminated, ActionView::Stop),
            FrameView::Other => (
                RoleView::Terminated,
                ActionView::CloseWith(CloseReason::UnexpectedFrame),
            ),
            FrameView::Text(t) => step_text_spec(role, t, password),
        },
    }
}

/// One step on a text frame.
fn step_text(role: ConnectionRole, t: &str, password: &str) -> (r: (ConnectionRole, Action))
    ensures
        r.0@ == step_text_spec(role@, t@, password@).0,
        r.1@ == step_text_spec(role@, t@, password@).1,
{
    match role {
        ConnectionRole::Pending => match parse_command(t) {
            Some(Command::Auth(tok)) => {
                if str_eq(tok.as_str(), password) {
                    (ConnectionRole::Authenticated, Action::Continue)
                } else {
                    (ConnectionRole::Terminated, Action::CloseWith(CloseReason::InvalidPassword))
                }
            },
            Some(Command::Name(_)) => (
                ConnectionRole::Terminated,
                Action::CloseWith(CloseReason::MalformedCommand),
            ),
            None => match parse_subscribe_payload(t) {
                Some(f) => (ConnectionRole::Subscribing(f), Action::Continue),
                None => (ConnectionRole::Terminated, Action::CloseWith(CloseReason::InvalidMessage)),
            },
        },
        ConnectionRole::Authenticated => match parse_command(t) {
            Some(Command::Name(id)) => (ConnectionRole::Publishing(id), Action::Continue),
            _ => (ConnectionRole::Terminated, Action::CloseWith(CloseReason::MalformedCommand)),
        },
        ConnectionRole::Publishing(name) => match parse_publish_payload(t) {
            Some(m) => {
                let env = PubSubMsg { name: name.clone(), msg: m };
                (ConnectionRole::Publishing(name), Action::Publish(env))
            },
            None => (ConnectionRole::Terminated, Action::CloseWith(CloseReason::InvalidPayload)),
        },
        ConnectionRole::Subscribing(f) => (ConnectionRole::Subscribing(f), Action::Continue),
        ConnectionRole::Terminated => (ConnectionRole::Terminated, Action::Stop),
    }
}

/// Drive the state machine one step: classify `frame` against `role` under
/// the configured `password`, yielding the next role and the action the
/// driver must take.
pub fn step(role: ConnectionRole, frame: &Frame, password: &str) -> (r: (ConnectionRole, Action))
    ensures
        r.0@ == step_spec(role@, frame@, password@).0,
        r.1@ == step_spec(role@, frame@, password@).1,
{
    match role {
        ConnectionRole::Terminated => (ConnectionRole::Terminated, Action::Stop),
        _ => match frame {
            Frame::Ping => (role, Action::Continue),
            Frame::Close => (ConnectionRole::Terminated, Action::Stop),
            Frame::Other => (
                ConnectionRole::Terminated,
                Action::CloseWith(CloseReason::UnexpectedFrame),
            ),
            Frame::Text(t) => step_text(role, t.as_str(), password),
        },
    }
}

/// How far along its lifecycle a role stands.
pub open spec fn role_rank(r: RoleView) -> int {
    match r {
        RoleView::Pending => 0,
        RoleView::Authenticated => 1,
        RoleView::Publishing(_) => 2,
        RoleView::Subscribing(_) => 2,
        RoleView::Terminated => 3,
    }
}

/// Law: role transitions are monotonic. No step ever returns a connection to
/// an earlier state of its lifecycle.
pub proof fn lemma_role_monotonic(role: RoleView, frame: FrameView, password: Seq<char>)
    ensures
        role_rank(step_spec(role, frame, password).0) >= role_rank(role),
{
}

/// Law: the name bound by a publishing connection is immutable. Every step
/// out of `Publishing(name)` lands in `Publishing(name)` itself or in
/// `Terminated`, never in a different name.
pub proof fn lemma_publisher_name_stable(name: Seq<char>, frame: FrameView, password: Seq<char>)
    ensures
        step_spec(RoleView::Publishing(name), frame, password).0 == RoleView::Publishing(name)
            || step_spec(RoleView::Publishing(name), frame, password).0 == RoleView::Terminated,
{
}

/// Law: a subscriber's filter is immutable. Every step out of
/// `Subscribing(f)` lands in `Subscribing(f)` itself or in `Terminated`.
pub proof fn lemma_filter_stable(f: SubscriberMsgView, frame: FrameView, password: Seq<char>)
    ensures
        step_spec(RoleView::Subscribing(f), frame, password).0 == RoleView::Subscribing(f)
            || step_spec(RoleView::Subscribing(f), frame, password).0 == RoleView::Terminated,
{
}

/// Law: a terminated connection processes nothing further. Whatever frame
/// arrives, the role stays `Terminated` and no command is acted on.
pub proof fn lemma_terminated_absorbs(frame: FrameView, password: Seq<char>)
    ensures
        step_spec(RoleView::Terminated, frame, password).0 == RoleView::Terminated,
        step_spec(RoleView::Terminated, frame, password).1 == ActionView::Stop,
{
}

/// Law: an auth command carrying the wrong password closes the connection
/// with the invalid-credentials reason, and the connection is terminated, so
/// by `lemma_terminated_absorbs` no subsequent command is processed.
pub proof fn lemma_wrong_password_rejected(t: Seq<char>, tok: Seq<char>, password: Seq<char>)
    requires
        spec_parse_command(t) == Some(CommandView::Auth(tok)),
        tok != password,
    ensures
        step_spec(RoleView::Pending, FrameView::Text(t), password).0 == RoleView::Terminated,
        step_spec(RoleView::Pending, FrameView::Text(t), password).1 == ActionView::CloseWith(
            CloseReason::InvalidPassword,
        ),
{
}

/// Law: `pub name <identifier>` while still Pending is rejected: the
/// connection closes with a malformed-command reason instead of ever
/// becoming a publisher.
pub proof fn lemma_name_before_auth_rejected(t: Seq<char>, id: Seq<char>, password: Seq<char>)
    requires
        spec_parse_command(t) == Some(CommandView::Name(id)),
    ensures
        step_spec(RoleView::Pending, FrameView::Text(t), password).0 == RoleView::Terminated,
        step_spec(RoleView::Pending, FrameView::Text(t), password).1 == ActionView::CloseWith(
            CloseReason::MalformedCommand,
        ),
{
}

} // verus!
