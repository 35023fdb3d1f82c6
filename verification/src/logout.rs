//! Logging out: the session that the committed cookie names is deleted, and
//! the cookie is cleared whether or not it named one.

use crate::application::{cookie_token, receipt_view, Error, ErrorView};
use crate::cookie::{decode_hex, SESSION_COOKIE};
use crate::models::option_view;
use vstd::prelude::*;

verus! {

/// Where a logout sends the visitor: the landing page.
pub const AFTER_LOGOUT: &'static str = "/";

/// What a finished logout asks of the response: the cookie to clear, and
/// where to send the visitor.
#[derive(Debug, Clone, PartialEq, Eq)]
pub struct Farewell {
    pub cleared_cookie: String,
    pub redirect_to: String,
}

/// What a `Farewell` holds.
pub struct FarewellView {
    pub cleared_cookie: Seq<char>,
    pub redirect_to: Seq<char>,
}

impl View for Farewell {
    type V = FarewellView;

    open spec fn view(&self) -> FarewellView {
        FarewellView { cleared_cookie: self.cleared_cookie@, redirect_to: self.redirect_to@ }
    }
}

/// What every logout that ends well asks for: the session cookie cleared, and
/// the visitor sent to the landing page.
pub open spec fn farewell() -> FarewellView {
    FarewellView { cleared_cookie: SESSION_COOKIE@, redirect_to: AFTER_LOGOUT@ }
}

/// The view of how a logout ended.
pub open spec fn farewell_view(ending: Result<Farewell, Error>) -> Result<
    FarewellView,
    ErrorView,
> {
    match ending {
        Ok(asked) => Ok(asked@),
        Err(error) => Err(error@),
    }
}

/// Makes what every logout that ends well asks for.
fn bid_farewell() -> (asked: Farewell)
    ensures
        asked@ == farewell(),
{
    Farewell { cleared_cookie: SESSION_COOKIE.to_owned(), redirect_to: AFTER_LOGOUT.to_owned() }
}

/// Waiting for the store's answer to the deletion of a session.
pub struct AwaitingSessionRemoved {
    _sealed: (),
}

/// One step of a logout.
pub enum LogoutStep {
    /// Delete the session with this token, if there is one, and answer with
    /// `session_removed`.
    RemoveSession { session_key: Vec<u8>, then: AwaitingSessionRemoved },
    /// The logout ended: with what to ask of the response, or with the
    /// store's failure.
    Finished(Result<Farewell, Error>),
}

/// What a `LogoutStep` holds.
pub enum LogoutStepView {
    RemoveSession { session_key: Seq<u8> },
    Finished(Result<FarewellView, ErrorView>),
}

impl View for LogoutStep {
    type V = LogoutStepView;

    open spec fn view(&self) -> LogoutStepView {
        match *self {
            LogoutStep::RemoveSession { session_key, then } => LogoutStepView::RemoveSession {
                session_key: session_key@,
            },
            LogoutStep::Finished(ending) => LogoutStepView::Finished(farewell_view(ending)),
        }
    }
}

/// The first step of a logout: the deletion of the session whose token the
/// committed cookie carries; the end, with nothing to delete, where the
/// cookie is missing or is not hexadecimal text.
pub open spec fn logout_start(committed: Option<Seq<char>>) -> LogoutStepView {
    match cookie_token(committed) {
        Some(session_key) => LogoutStepView::RemoveSession { session_key },
        None => LogoutStepView::Finished(Ok(farewell())),
    }
}

/// The end of a logout once the store has answered the deletion: the same
/// farewell whether or not there was a session to delete, or the store's
/// failure.
pub open spec fn logout_after_removal(reply: Result<(), ErrorView>) -> LogoutStepView {
    match reply {
        Ok(_) => LogoutStepView::Finished(Ok(farewell())),
        Err(error) => LogoutStepView::Finished(Err(error)),
    }
}

/// Starts a logout from the committed cookie's value, if the request has
/// that cookie.
pub fn get(committed: Option<String>) -> (step: LogoutStep)
    ensures
        step@ == logout_start(option_view(committed)),
{
    match committed {
        Some(encoded_key) => match decode_hex(encoded_key.as_str()) {
            Some(session_key) => LogoutStep::RemoveSession {
                session_key,
                then: AwaitingSessionRemoved { _sealed: () },
            },
            None => LogoutStep::Finished(Ok(bid_farewell())),
        },
        None => LogoutStep::Finished(Ok(bid_farewell())),
    }
}

impl AwaitingSessionRemoved {
    /// Takes the store's answer to the deletion.
    pub fn session_removed(self, reply: Result<(), Error>) -> (step: LogoutStep)
        ensures
            step@ == logout_after_removal(receipt_view(reply)),
    {
        match reply {
            Ok(_) => LogoutStep::Finished(Ok(bid_farewell())),
            Err(error) => LogoutStep::Finished(Err(error)),
        }
    }
}

} // verus!
