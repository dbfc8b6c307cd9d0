//! The authentication front ends of the relay.
//!
//! Publishing requires the configured shared secret. On the request/response
//! surface it arrives as basic-auth credentials whose username becomes the
//! publisher name; on the socket-upgrade surface a bearer token is judged by
//! an external validation oracle, and the relay only distinguishes accept,
//! reject and unreachable.

use vstd::prelude::*;
use crate::hub::Hub;
use crate::hub::push_bounded;
use crate::messages::PubSubMsg;
use crate::messages::PubSubMsgView;
use crate::messages::PublisherMsg;
use crate::text::str_eq;

verus! {

/// Why a publish or upgrade request is refused. Bad credentials and an
/// unreachable validation service are distinct, so an operator can tell
/// "your credentials are bad" from "we could not check your credentials".
#[derive(Clone, Copy, PartialEq, Eq, Structural, Debug)]
pub enum AuthError {
    WrongCredentials,
    MissingCredentials,
    InternalServerError,
}

/// The HTTP status code of each refusal.
pub open spec fn spec_status_code(e: AuthError) -> int {
    match e {
        AuthError::WrongCredentials => 401,
        AuthError::MissingCredentials => 400,
        AuthError::InternalServerError => 500,
    }
}

/// The advisory message of each refusal.
pub open spec fn spec_error_message(e: AuthError) -> Seq<char> {
    match e {
        AuthError::WrongCredentials => "Wrong credentials"@,
        AuthError::MissingCredentials => "Missing credentials"@,
        AuthError::InternalServerError => "Internal server error"@,
    }
}

impl AuthError {
    /// The HTTP status code and advisory message this refusal is reported
    /// with.
    pub fn response_parts(&self) -> (r: (u16, String))
        ensures
            r.0 as int == spec_status_code(*self),
            r.1@ == spec_error_message(*self),
    {
        match self {
            AuthError::WrongCredentials => (401u16, "Wrong credentials".to_owned()),
            AuthError::MissingCredentials => (400u16, "Missing credentials".to_owned()),
            AuthError::InternalServerError => (500u16, "Internal server error".to_owned()),
        }
    }
}

/// Basic-auth credentials as handed over by the HTTP front end. The supplied
/// username becomes the publisher name.
pub struct BasicCreds {
    pub username: String,
    pub password: String,
}

/// The mathematical value of [`BasicCreds`].
pub struct BasicCredsView {
    pub username: Seq<char>,
    pub password: Seq<char>,
}

impl View for BasicCreds {
    type V = BasicCredsView;

    open spec fn view(&self) -> BasicCredsView {
        BasicCredsView { username: self.username@, password: self.password@ }
    }
}

/// Decide one request on the request/response publish surface and, when it
/// is authorised, inject the payload into the hub tagged with the supplied
/// username. Missing credentials and a wrong password are refused, each with
/// its own error, and leave the hub untouched; a correct password always
/// publishes, whatever the number of subscribers.
pub fn publish_request(
    hub: &mut Hub,
    expected_password: &str,
    creds: Option<BasicCreds>,
    msg: PublisherMsg,
) -> (r: Result<(), AuthError>)
    requires
        old(hub).wf(),
        old(hub).head_count() < u64::MAX,
    ensures
        final(hub).wf(),
        creds is None ==> {
            &&& r == Err::<(), AuthError>(AuthError::MissingCredentials)
            &&& *final(hub) == *old(hub)
        },
        creds matches Some(c) ==> {
            &&& (c.password@ != expected_password@ ==> {
                &&& r == Err::<(), AuthError>(AuthError::WrongCredentials)
                &&& *final(hub) == *old(hub)
            })
            &&& (c.password@ == expected_password@ ==> {
                &&& r == Ok::<(), AuthError>(())
                &&& final(hub).head_count() == old(hub).head_count() + 1
                &&& final(hub).window() == push_bounded(
                    old(hub).window(),
                    (PubSubMsgView { name: c.username@, msg: msg@ }),
                )
            })
        },
{
    match creds {
        None => Err(AuthError::MissingCredentials),
        Some(c) => {
            if str_eq(c.password.as_str(), expected_password) {
                let env = PubSubMsg::new(msg, c.username);
                hub.publish(env);
                Ok(())
            } else {
                Err(AuthError::WrongCredentials)
            }
        },
    }
}

/// The credential check of the request/response publish surface alone:
/// refuse missing credentials and a wrong password, each with its own error,
/// and otherwise hand back the envelope to inject, the payload wrapped
/// unchanged and tagged with the supplied username.
pub fn authorize_publish(
    expected_password: &str,
    creds: Option<BasicCreds>,
    msg: PublisherMsg,
) -> (r: Result<PubSubMsg, AuthError>)
    ensures
        creds is None ==> r == Err::<PubSubMsg, AuthError>(AuthError::MissingCredentials),
        creds matches Some(c) ==> {
            &&& (c.password@ != expected_password@ ==> r == Err::<PubSubMsg, AuthError>(
                AuthError::WrongCredentials,
            ))
            &&& (c.password@ == expected_password@ ==> (r matches Ok(env) && env@
                == PubSubMsgView { name: c.username@, msg: msg@ }))
        },
{
    match creds {
        None => Err(AuthError::MissingCredentials),
        Some(c) => {
            if str_eq(c.password.as_str(), expected_password) {
                Ok(PubSubMsg::new(msg, c.username))
            } else {
                Err(AuthError::WrongCredentials)
            }
        },
    }
}

/// What the external token-validation oracle answered, as observed by the
/// front end: accepted, rejected, or could not be reached at all.
#[derive(Clone, Copy, PartialEq, Eq, Structural, Debug)]
pub enum OracleOutcome {
    Accepted,
    Rejected,
    Unreachable,
}

/// Decide whether a socket upgrade may proceed. When no validation URL is
/// configured, subscribing is anonymous and every upgrade proceeds. When one
/// is, a missing bearer token, a rejected token and an unreachable oracle
/// are refused, each with its own error.
pub fn upgrade_decision(auth_required: bool, bearer_present: bool, oracle: OracleOutcome) -> (r:
    Result<(), AuthError>)
    ensures
        !auth_required ==> r == Ok::<(), AuthError>(()),
        auth_required && !bearer_present ==> r == Err::<(), AuthError>(
            AuthError::MissingCredentials,
        ),
        auth_required && bearer_present && oracle == OracleOutcome::Accepted ==> r == Ok::<
            (),
            AuthError,
        >(()),
        auth_required && bearer_present && oracle == OracleOutcome::Rejected ==> r == Err::<
            (),
            AuthError,
        >(AuthError::WrongCredentials),
        auth_required && bearer_present && oracle == OracleOutcome::Unreachable ==> r == Err::<
            (),
            AuthError,
        >(AuthError::InternalServerError),
{
    if !auth_required {
        Ok(())
    } else if !bearer_present {
        Err(AuthError::MissingCredentials)
    } else {
        match oracle {
            OracleOutcome::Accepted => Ok(()),
            OracleOutcome::Rejected => Err(AuthError::WrongCredentials),
            OracleOutcome::Unreachable => Err(AuthError::InternalServerError),
        }
    }
}

} // verus!
