//! What every request shares: the failures that end one, and the resolution
//! of its session cookies to the account it acts for.

use crate::cookie::{decode_hex, hex_decoded};
use crate::models::{option_view, Session, SessionView, User, UserView};
use vstd::prelude::*;
use vstd::string::*;

verus! {

/// A failure that ends a request, or keeps the service from starting.
#[derive(Debug, Clone, PartialEq, Eq)]
pub enum Error {
    /// The configuration names no database.
    MissingDatabaseUrl,
    /// The configured database could not be reached.
    UnableToConnectToDatabase,
    /// The store failed on a query, other than by finding nothing.
    FailedOnADatabaseQuery(String),
    /// Password hashing or checking failed.
    FailedOnABcryptFunction(String),
    /// The random source gave no bytes.
    RandError(String),
    /// A post names an author that the store does not hold.
    PostHasInvalidUserId,
    /// A post carries a creation time that no calendar date stands for.
    PostHasInvalidCreationTime,
    /// No post has the requested id.
    InvalidPostId,
}

/// What an `Error` holds.
pub enum ErrorView {
    MissingDatabaseUrl,
    UnableToConnectToDatabase,
    FailedOnADatabaseQuery(Seq<char>),
    FailedOnABcryptFunction(Seq<char>),
    RandError(Seq<char>),
    PostHasInvalidUserId,
    PostHasInvalidCreationTime,
    InvalidPostId,
}

impl View for Error {
    type V = ErrorView;

    open spec fn view(&self) -> ErrorView {
        match *self {
            Error::MissingDatabaseUrl => ErrorView::MissingDatabaseUrl,
            Error::UnableToConnectToDatabase => ErrorView::UnableToConnectToDatabase,
            Error::FailedOnADatabaseQuery(detail) => ErrorView::FailedOnADatabaseQuery(detail@),
            Error::FailedOnABcryptFunction(detail) => ErrorView::FailedOnABcryptFunction(detail@),
            Error::RandError(detail) => ErrorView::RandError(detail@),
            Error::PostHasInvalidUserId => ErrorView::PostHasInvalidUserId,
            Error::PostHasInvalidCreationTime => ErrorView::PostHasInvalidCreationTime,
            Error::InvalidPostId => ErrorView::InvalidPostId,
        }
    }
}

impl Error {
    /// A second copy of this failure.
    pub fn duplicate(&self) -> (copy: Error)
        ensures
            copy@ == self@,
    {
        match self {
            Error::MissingDatabaseUrl => Error::MissingDatabaseUrl,
            Error::UnableToConnectToDatabase => Error::UnableToConnectToDatabase,
            Error::FailedOnADatabaseQuery(detail) => Error::FailedOnADatabaseQuery(detail.clone()),
            Error::FailedOnABcryptFunction(detail) => Error::FailedOnABcryptFunction(
                detail.clone(),
            ),
            Error::RandError(detail) => Error::RandError(detail.clone()),
            Error::PostHasInvalidUserId => Error::PostHasInvalidUserId,
            Error::PostHasInvalidCreationTime => Error::PostHasInvalidCreationTime,
            Error::InvalidPostId => Error::InvalidPostId,
        }
    }
}

/// The view of a store's answer to a lookup: a record, nothing, or a failure.
pub open spec fn reply_view<T: View>(reply: Result<Option<T>, Error>) -> Result<
    Option<T::V>,
    ErrorView,
> {
    match reply {
        Ok(found) => Ok(option_view(found)),
        Err(error) => Err(error@),
    }
}

/// The view of a store's answer to a write: done, or a failure.
pub open spec fn receipt_view(reply: Result<(), Error>) -> Result<(), ErrorView> {
    match reply {
        Ok(_) => Ok(()),
        Err(error) => Err(error@),
    }
}

/// The text shown on the server-error page for `error`.
pub open spec fn error_message_text(error: ErrorView) -> Seq<char> {
    match error {
        ErrorView::MissingDatabaseUrl => "Missing database URL in the server configuration"@,
        ErrorView::UnableToConnectToDatabase => "Unable to connect to the provided database URL"@,
        ErrorView::FailedOnADatabaseQuery(detail) => "Failed on a database query: "@ + detail,
        ErrorView::FailedOnABcryptFunction(detail) => "Failed on a bcrypt function: "@ + detail,
        ErrorView::RandError(detail) => "Rand error: "@ + detail,
        ErrorView::PostHasInvalidUserId => "A post refers to an author that does not exist"@,
        ErrorView::PostHasInvalidCreationTime => "A post carries an invalid creation time"@,
        ErrorView::InvalidPostId => "No post exists with that id"@,
    }
}

/// Writes the text shown on the server-error page for `error`.
pub fn error_message(error: &Error) -> (message: String)
    ensures
        message@ == error_message_text(error@),
{
    match error {
        Error::MissingDatabaseUrl => "Missing database URL in the server configuration".to_owned(),
        Error::UnableToConnectToDatabase => {
            "Unable to connect to the provided database URL".to_owned()
        },
        Error::FailedOnADatabaseQuery(detail) => {
            "Failed on a database query: ".to_owned().concat(detail.as_str())
        },
        Error::FailedOnABcryptFunction(detail) => {
            "Failed on a bcrypt function: ".to_owned().concat(detail.as_str())
        },
        Error::RandError(detail) => "Rand error: ".to_owned().concat(detail.as_str()),
        Error::PostHasInvalidUserId => "A post refers to an author that does not exist".to_owned(),
        Error::PostHasInvalidCreationTime => "A post carries an invalid creation time".to_owned(),
        Error::InvalidPostId => "No post exists with that id".to_owned(),
    }
}

/// Waiting for the store's answer to a session lookup.
pub struct AwaitingSession {
    fallback: Option<String>,
}

/// What an `AwaitingSession` holds: the cookie value to fall back on, if one
/// is still untried.
pub struct AwaitingSessionView {
    pub fallback: Option<Seq<char>>,
}

impl View for AwaitingSession {
    type V = AwaitingSessionView;

    closed spec fn view(&self) -> AwaitingSessionView {
        AwaitingSessionView { fallback: option_view(self.fallback) }
    }
}

/// Waiting for the store's answer to the lookup of a session's account.
pub struct AwaitingUser {
    fallback: Option<String>,
}

/// What an `AwaitingUser` holds: the cookie value to fall back on, if one is
/// still untried.
pub struct AwaitingUserView {
    pub fallback: Option<Seq<char>>,
}

impl View for AwaitingUser {
    type V = AwaitingUserView;

    closed spec fn view(&self) -> AwaitingUserView {
        AwaitingUserView { fallback: option_view(self.fallback) }
    }
}

/// One step in resolving a request's cookies to an account: the next lookup
/// to make, each in an acquisition of its own, or the result.
#[allow(inconsistent_fields)]
pub enum Resolution {
    /// Look the session with this token up, and answer with `session_found`.
    NeedSession { session_key: Vec<u8>, then: AwaitingSession },
    /// Look the account with this id up, and answer with `user_found`.
    NeedUser { user_id: i32, then: AwaitingUser },
    /// The account the request acts for, if any; or the store's failure.
    Resolved(Result<Option<User>, Error>),
}

/// What a `Resolution` holds.
#[allow(inconsistent_fields)]
pub enum ResolutionView {
    NeedSession { session_key: Seq<u8>, then: AwaitingSessionView },
    NeedUser { user_id: i32, then: AwaitingUserView },
    Resolved(Result<Option<UserView>, ErrorView>),
}

impl View for Resolution {
    type V = ResolutionView;

    open spec fn view(&self) -> ResolutionView {
        match *self {
            Resolution::NeedSession { session_key, then } => ResolutionView::NeedSession {
                session_key: session_key@,
                then: then@,
            },
            Resolution::NeedUser { user_id, then } => ResolutionView::NeedUser {
                user_id,
                then: then@,
            },
            Resolution::Resolved(result) => ResolutionView::Resolved(reply_view(result)),
        }
    }
}

/// The token that a cookie carries, if the cookie is there and its value is
/// hexadecimal text.
pub open spec fn cookie_token(cookie: Option<Seq<char>>) -> Option<Seq<u8>> {
    match cookie {
        Some(value) => hex_decoded(value),
        None => None,
    }
}

/// The step that resolution takes on the last cookie it may try: a session
/// lookup if the cookie carries a token, and nobody otherwise.
pub open spec fn resolution_from_last(cookie: Option<Seq<char>>) -> ResolutionView {
    match cookie_token(cookie) {
        Some(session_key) => ResolutionView::NeedSession {
            session_key,
            then: AwaitingSessionView { fallback: None },
        },
        None => ResolutionView::Resolved(Ok(None)),
    }
}

/// The step that resolution starts with: a lookup of the committed cookie's
/// session if that cookie carries a token, with the pending cookie kept to
/// fall back on; otherwise what the pending cookie alone gives.
pub open spec fn resolution_from(
    committed: Option<Seq<char>>,
    pending: Option<Seq<char>>,
) -> ResolutionView {
    match cookie_token(committed) {
        Some(session_key) => ResolutionView::NeedSession {
            session_key,
            then: AwaitingSessionView { fallback: pending },
        },
        None => resolution_from_last(pending),
    }
}

/// The step after a session lookup: the lookup of the session's account; the
/// fallback cookie's turn where no such session exists; the failure where the
/// store failed.
pub open spec fn resolution_after_session(
    state: AwaitingSessionView,
    reply: Result<Option<SessionView>, ErrorView>,
) -> ResolutionView {
    match reply {
        Ok(Some(session)) => ResolutionView::NeedUser {
            user_id: session.user_id,
            then: AwaitingUserView { fallback: state.fallback },
        },
        Ok(None) => resolution_from_last(state.fallback),
        Err(error) => ResolutionView::Resolved(Err(error)),
    }
}

/// The step after an account lookup: that account; the fallback cookie's turn
/// where the session's account is gone; the failure where the store failed.
pub open spec fn resolution_after_user(
    state: AwaitingUserView,
    reply: Result<Option<UserView>, ErrorView>,
) -> ResolutionView {
    match reply {
        Ok(Some(user)) => ResolutionView::Resolved(Ok(Some(user))),
        Ok(None) => resolution_from_last(state.fallback),
        Err(error) => ResolutionView::Resolved(Err(error)),
    }
}

impl AwaitingSession {
    /// Takes the store's answer to the session lookup.
    pub fn session_found(self, reply: Result<Option<Session>, Error>) -> (step: Resolution)
        ensures
            step@ == resolution_after_session(self@, reply_view(reply)),
    {
        match reply {
            Ok(Some(session)) => Resolution::NeedUser {
                user_id: session.user_id,
                then: AwaitingUser { fallback: self.fallback },
            },
            Ok(None) => BaseLayoutContext::get_valid_user_info_from_session_cookie(self.fallback),
            Err(error) => Resolution::Resolved(Err(error)),
        }
    }
}

impl AwaitingUser {
    /// Takes the store's answer to the account lookup.
    pub fn user_found(self, reply: Result<Option<User>, Error>) -> (step: Resolution)
        ensures
            step@ == resolution_after_user(self@, reply_view(reply)),
    {
        match reply {
            Ok(Some(user)) => Resolution::Resolved(Ok(Some(user))),
            Ok(None) => BaseLayoutContext::get_valid_user_info_from_session_cookie(self.fallback),
            Err(error) => Resolution::Resolved(Err(error)),
        }
    }
}

/// What every rendered page is told: who is logged in, if anyone.
#[derive(Debug, Clone, PartialEq, Eq)]
pub struct BaseLayoutContext {
    pub username: Option<String>,
}

/// What a `BaseLayoutContext` holds.
pub struct BaseLayoutContextView {
    pub username: Option<Seq<char>>,
}

impl View for BaseLayoutContext {
    type V = BaseLayoutContextView;

    open spec fn view(&self) -> BaseLayoutContextView {
        BaseLayoutContextView { username: option_view(self.username) }
    }
}

/// The page context for a resolved account: its username, or nobody.
pub open spec fn base_context_of(user_info: Option<UserView>) -> BaseLayoutContextView {
    BaseLayoutContextView {
        username: match user_info {
            Some(user) => Some(user.username),
            None => None,
        },
    }
}

impl BaseLayoutContext {
    /// Starts resolution on the last cookie that may be tried.  A cookie that
    /// is missing or is not hexadecimal text resolves to nobody, without a
    /// lookup and without a failure.
    pub fn get_valid_user_info_from_session_cookie(cookie: Option<String>) -> (step: Resolution)
        ensures
            step@ == resolution_from_last(option_view(cookie)),
    {
        match cookie {
            Some(value) => match decode_hex(value.as_str()) {
                Some(session_key) => Resolution::NeedSession {
                    session_key,
                    then: AwaitingSession { fallback: None },
                },
                None => Resolution::Resolved(Ok(None)),
            },
            None => Resolution::Resolved(Ok(None)),
        }
    }

    /// Starts resolving a request's two cookies, the committed one first.
    pub fn get_valid_user_info(committed: Option<String>, pending: Option<String>) -> (step:
        Resolution)
        ensures
            step@ == resolution_from(option_view(committed), option_view(pending)),
    {
        match committed {
            Some(value) => match decode_hex(value.as_str()) {
                Some(session_key) => Resolution::NeedSession {
                    session_key,
                    then: AwaitingSession { fallback: pending },
                },
                None => Self::get_valid_user_info_from_session_cookie(pending),
            },
            None => Self::get_valid_user_info_from_session_cookie(pending),
        }
    }

    /// The page context for the outcome of resolution; the store's failure
    /// where resolution failed.
    pub fn new(user_info: Result<Option<User>, Error>) -> (context: Result<
        BaseLayoutContext,
        Error,
    >)
        ensures
            match reply_view(user_info) {
                Ok(found) => context matches Ok(made) && made@ == base_context_of(found),
                Err(error) => context matches Err(raised) && raised@ == error,
            },
    {
        match user_info {
            Ok(Some(user)) => Ok(BaseLayoutContext { username: Some(user.username) }),
            Ok(None) => Ok(BaseLayoutContext { username: None }),
            Err(error) => Err(error),
        }
    }
}

} // verus!
