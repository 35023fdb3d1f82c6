//! Logging in: the form, the page, and the steps from submitted credentials
//! to a stored session and its cookie.

use crate::application::{
    reply_view, receipt_view, BaseLayoutContext, BaseLayoutContextView, Error, ErrorView,
};
use crate::cookie::{encode_hex, hex_encoded};
use crate::models::{option_view, Session, SessionView, User, UserView};
use crate::password::{bcrypt_verdict, verify_password};
use rand::rngs::{OsRng, StdRng};
use rand::{Fill, SeedableRng};
use vstd::prelude::*;

verus! {

/// What the login page is rendered from.
#[derive(Debug, Clone, PartialEq, Eq)]
pub struct LoginLayoutContext {
    pub base_context: BaseLayoutContext,
    pub previous_username_or_email: Option<String>,
    pub error: Option<String>,
    pub success: Option<String>,
}

/// What a `LoginLayoutContext` holds.
pub struct LoginLayoutContextView {
    pub base_context: BaseLayoutContextView,
    pub previous_username_or_email: Option<Seq<char>>,
    pub error: Option<Seq<char>>,
    pub success: Option<Seq<char>>,
}

impl View for LoginLayoutContext {
    type V = LoginLayoutContextView;

    open spec fn view(&self) -> LoginLayoutContextView {
        LoginLayoutContextView {
            base_context: self.base_context@,
            previous_username_or_email: option_view(self.previous_username_or_email),
            error: option_view(self.error),
            success: option_view(self.success),
        }
    }
}

impl LoginLayoutContext {
    /// The page as first shown: no message, nothing filled in.
    pub fn new(user_info: Result<Option<User>, Error>) -> (context: Result<
        LoginLayoutContext,
        Error,
    >)
        ensures
            match reply_view(user_info) {
                Ok(found) => context matches Ok(made) && made@ == (LoginLayoutContextView {
                    base_context: crate::application::base_context_of(found),
                    previous_username_or_email: None,
                    error: None,
                    success: None,
                }),
                Err(error) => context matches Err(raised) && raised@ == error,
            },
    {
        match BaseLayoutContext::new(user_info) {
            Ok(base_context) => Ok(
                LoginLayoutContext {
                    base_context,
                    previous_username_or_email: None,
                    error: None,
                    success: None,
                },
            ),
            Err(error) => Err(error),
        }
    }

    /// The same page with the name field filled in again.
    pub fn with_previous_username_or_email(
        self,
        previous_username_or_email: Option<String>,
    ) -> (context: Self)
        ensures
            context@ == (LoginLayoutContextView {
                previous_username_or_email: option_view(previous_username_or_email),
                ..self@
            }),
    {
        let mut context = self;
        context.previous_username_or_email = previous_username_or_email;
        context
    }

    /// The same page with `error` as its error message.
    pub fn with_error(self, error: Option<String>) -> (context: Self)
        ensures
            context@ == (LoginLayoutContextView { error: option_view(error), ..self@ }),
    {
        let mut context = self;
        context.error = error;
        context
    }

    /// The same page with `success` as its success message.
    pub fn with_success(self, success: Option<String>) -> (context: Self)
        ensures
            context@ == (LoginLayoutContextView { success: option_view(success), ..self@ }),
    {
        let mut context = self;
        context.success = success;
        context
    }
}

/// The submitted login form.
#[derive(Debug, Clone, PartialEq, Eq)]
pub struct LoginForm {
    pub username_or_email: String,
    pub password: String,
}

/// What a `LoginForm` holds.
pub struct LoginFormView {
    pub username_or_email: Seq<char>,
    pub password: Seq<char>,
}

impl View for LoginForm {
    type V = LoginFormView;

    open spec fn view(&self) -> LoginFormView {
        LoginFormView { username_or_email: self.username_or_email@, password: self.password@ }
    }
}

impl LoginFormView {
    /// Whether neither field was left empty.
    pub open spec fn all_fields_populated(self) -> bool {
        self.username_or_email.len() > 0 && self.password.len() > 0
    }
}

impl LoginForm {
    /// Whether neither field was left empty.
    pub fn all_fields_populated(&self) -> (populated: bool)
        ensures
            populated == self@.all_fields_populated(),
    {
        !self.username_or_email.as_str().is_empty() && !self.password.as_str().is_empty()
    }
}

/// The number of random bytes in a session token.
pub const TOKEN_LENGTH: usize = 32;

/// `rand::rngs::StdRng`, the generator that is seeded and then drawn from.
/// It is carried from the one call to the other; nothing of it is seen.
#[verifier::external_type_specification]
#[verifier::external_body]
pub struct ExStdRng(rand::rngs::StdRng);

/// Makes a generator with `StdRng::from_rng` on `OsRng`: seeded from the
/// operating system's entropy, and an error, as the text it displays, where
/// the system has none to give.  Nothing is claimed of the generator.
#[verifier::external_body]
fn entropy_seeded_generator() -> (outcome: Result<StdRng, String>) {
    StdRng::from_rng(OsRng).map_err(|error| error.to_string())
}

/// Overwrites a buffer with the generator's bytes through `Fill::try_fill`.
/// The bytes are chance; the buffer keeps its length.
#[verifier::external_body]
fn fill_randomly(buffer: &mut Vec<u8>, generator: &mut StdRng) -> (outcome: Result<(), String>)
    ensures
        final(buffer)@.len() == old(buffer)@.len(),
{
    buffer.try_fill(generator).map_err(|error| error.to_string())
}

/// Whether `outcome` is something that drawing a token can give: a token of
/// `TOKEN_LENGTH` bytes, or a failure of the random source.
pub open spec fn is_token_outcome(outcome: Result<Seq<u8>, ErrorView>) -> bool {
    match outcome {
        Ok(session_key) => session_key.len() == TOKEN_LENGTH,
        Err(error) => error is RandError,
    }
}

/// The view of the outcome of drawing a token.
pub open spec fn token_outcome_view(outcome: Result<Vec<u8>, Error>) -> Result<
    Seq<u8>,
    ErrorView,
> {
    match outcome {
        Ok(session_key) => Ok(session_key@),
        Err(error) => Err(error@),
    }
}

/// Draws a fresh session token from a generator seeded by the operating
/// system.  Where the system has no entropy to give, that is a failure: there
/// is no weaker source to fall back on.
pub fn generate_session_key() -> (outcome: Result<Vec<u8>, Error>)
    ensures
        is_token_outcome(token_outcome_view(outcome)),
{
    let mut session_key: Vec<u8> = Vec::new();
    session_key.resize(TOKEN_LENGTH, 0u8);
    match entropy_seeded_generator() {
        Ok(generator) => {
            let mut generator = generator;
            match fill_randomly(&mut session_key, &mut generator) {
                Ok(_) => Ok(session_key),
                Err(detail) => Err(Error::RandError(detail)),
            }
        },
        Err(detail) => Err(Error::RandError(detail)),
    }
}

/// The message for a form with an empty field.
pub open spec fn all_fields_required() -> Seq<char> {
    "All fields are required!"@
}

/// The one message for every failed login; it does not tell which field was
/// wrong.
pub open spec fn invalid_credentials() -> Seq<char> {
    "Invalid username/e-mail or password provided."@
}

/// The message for a login that went through.
pub open spec fn logged_in() -> Seq<char> {
    "Logged in successfully!"@
}

/// Waiting for the store's answer to the lookup by username.
pub struct AwaitingUsernameMatch {
    username_or_email: String,
    password: String,
}

/// What an `AwaitingUsernameMatch` holds: the submitted form.
pub struct AwaitingUsernameMatchView {
    pub username_or_email: Seq<char>,
    pub password: Seq<char>,
}

impl View for AwaitingUsernameMatch {
    type V = AwaitingUsernameMatchView;

    closed spec fn view(&self) -> AwaitingUsernameMatchView {
        AwaitingUsernameMatchView {
            username_or_email: self.username_or_email@,
            password: self.password@,
        }
    }
}

/// Waiting for the store's answer to the lookup by e-mail address.
pub struct AwaitingEmailMatch {
    password: String,
    by_name: Option<User>,
}

/// What an `AwaitingEmailMatch` holds: the submitted password, and the
/// account that the lookup by username found.
pub struct AwaitingEmailMatchView {
    pub password: Seq<char>,
    pub by_name: Option<UserView>,
}

impl View for AwaitingEmailMatch {
    type V = AwaitingEmailMatchView;

    closed spec fn view(&self) -> AwaitingEmailMatchView {
        AwaitingEmailMatchView { password: self.password@, by_name: option_view(self.by_name) }
    }
}

/// Waiting for the store to confirm that it keeps the new session.  The
/// session's cookie waits here with it: nobody gets it before the store has
/// answered.
pub struct AwaitingSessionStored {
    cookie: String,
}

/// What an `AwaitingSessionStored` holds: the cookie value that carries the
/// session's token.
pub struct AwaitingSessionStoredView {
    pub cookie: Seq<char>,
}

impl View for AwaitingSessionStored {
    type V = AwaitingSessionStoredView;

    closed spec fn view(&self) -> AwaitingSessionStoredView {
        AwaitingSessionStoredView { cookie: self.cookie@ }
    }
}

/// How a login ended, short of a failure.
#[derive(Debug, Clone, PartialEq, Eq)]
pub enum LoginOutcome {
    /// Accepted, and the session is stored: stage a session cookie with this
    /// value.
    LoggedIn { cookie: String },
    /// Refused, with this message for the form.  No cookie is due.
    Refused { message: String },
}

/// What a `LoginOutcome` holds.
pub enum LoginOutcomeView {
    LoggedIn { cookie: Seq<char> },
    Refused { message: Seq<char> },
}

impl View for LoginOutcome {
    type V = LoginOutcomeView;

    open spec fn view(&self) -> LoginOutcomeView {
        match *self {
            LoginOutcome::LoggedIn { cookie } => LoginOutcomeView::LoggedIn { cookie: cookie@ },
            LoginOutcome::Refused { message } => LoginOutcomeView::Refused { message: message@ },
        }
    }
}

/// The view of how a login ended.
pub open spec fn login_ending_view(ending: Result<LoginOutcome, Error>) -> Result<
    LoginOutcomeView,
    ErrorView,
> {
    match ending {
        Ok(outcome) => Ok(outcome@),
        Err(error) => Err(error@),
    }
}

/// The ending of a login refused with `message`.
pub open spec fn login_refused(message: Seq<char>) -> LoginStepView {
    LoginStepView::Finished(Ok(LoginOutcomeView::Refused { message }))
}

/// One step of a login: the next store operation, or how the login ended.
#[allow(inconsistent_fields)]
pub enum LoginStep {
    /// Look the account with this username up, and answer with
    /// `username_found`.
    FindByUsername { username: String, then: AwaitingUsernameMatch },
    /// Look the account with this e-mail address up, and answer with
    /// `email_found`.
    FindByEmail { email: String, then: AwaitingEmailMatch },
    /// Store this session, and answer with `session_stored`.
    StoreSession { session: Session, then: AwaitingSessionStored },
    /// The login ended: accepted, with the cookie to stage; refused, with a
    /// message for the form; or failed.
    Finished(Result<LoginOutcome, Error>),
}

/// What a `LoginStep` holds.
#[allow(inconsistent_fields)]
pub enum LoginStepView {
    FindByUsername { username: Seq<char>, then: AwaitingUsernameMatchView },
    FindByEmail { email: Seq<char>, then: AwaitingEmailMatchView },
    StoreSession { session: SessionView, then: AwaitingSessionStoredView },
    Finished(Result<LoginOutcomeView, ErrorView>),
}

impl View for LoginStep {
    type V = LoginStepView;

    open spec fn view(&self) -> LoginStepView {
        match *self {
            LoginStep::FindByUsername { username, then } => LoginStepView::FindByUsername {
                username: username@,
                then: then@,
            },
            LoginStep::FindByEmail { email, then } => LoginStepView::FindByEmail {
                email: email@,
                then: then@,
            },
            LoginStep::StoreSession { session, then } => LoginStepView::StoreSession {
                session: session@,
                then: then@,
            },
            LoginStep::Finished(ending) => LoginStepView::Finished(login_ending_view(ending)),
        }
    }
}

/// The first step of a login: refusal of a form with an empty field, else the
/// lookup of the submitted name as a username.
pub open spec fn login_start(form: LoginFormView) -> LoginStepView {
    if !form.all_fields_populated() {
        login_refused(all_fields_required())
    } else {
        LoginStepView::FindByUsername {
            username: form.username_or_email,
            then: AwaitingUsernameMatchView {
                username_or_email: form.username_or_email,
                password: form.password,
            },
        }
    }
}

/// The step after the lookup by username: the lookup of the same name as an
/// e-mail address, whatever the first lookup found; the failure where the
/// store failed.
pub open spec fn login_after_username(
    state: AwaitingUsernameMatchView,
    reply: Result<Option<UserView>, ErrorView>,
) -> LoginStepView {
    match reply {
        Ok(by_name) => LoginStepView::FindByEmail {
            email: state.username_or_email,
            then: AwaitingEmailMatchView { password: state.password, by_name },
        },
        Err(error) => LoginStepView::Finished(Err(error)),
    }
}

/// The account that a login is for: the one found by username, else the one
/// found by e-mail address.
pub open spec fn matched_account(by_name: Option<UserView>, by_email: Option<UserView>) -> Option<
    UserView,
> {
    match by_name {
        Some(user) => Some(user),
        None => by_email,
    }
}

/// The step that issues a session for `user_id` from the outcome of drawing a
/// token: the token is to be stored with the account's id, and its cookie, the
/// token in lowercase hexadecimal, is kept back until the store has answered; a
/// failed draw fails the login.
pub open spec fn session_issue(user_id: i32, drawn: Result<Seq<u8>, ErrorView>) -> LoginStepView {
    match drawn {
        Ok(session_key) => LoginStepView::StoreSession {
            session: SessionView { session_key, user_id },
            then: AwaitingSessionStoredView { cookie: hex_encoded(session_key) },
        },
        Err(error) => LoginStepView::Finished(Err(error)),
    }
}

/// The step after the lookup by e-mail address, given the outcome `drawn` of
/// drawing a token.  No account, or a password that the account's digest
/// does not accept, is refused with one and the same message; an accepted
/// password has a session issued.
pub open spec fn login_after_email(
    state: AwaitingEmailMatchView,
    reply: Result<Option<UserView>, ErrorView>,
    drawn: Result<Seq<u8>, ErrorView>,
) -> LoginStepView {
    match reply {
        Ok(by_email) => match matched_account(state.by_name, by_email) {
            Some(user) => match bcrypt_verdict(state.password, user.password) {
                Ok(true) => session_issue(user.id, drawn),
                Ok(false) => login_refused(invalid_credentials()),
                Err(detail) => LoginStepView::Finished(
                    Err(ErrorView::FailedOnABcryptFunction(detail)),
                ),
            },
            None => login_refused(invalid_credentials()),
        },
        Err(error) => LoginStepView::Finished(Err(error)),
    }
}

/// The end of a login once the store has answered the request to keep the
/// session.  Where the store keeps it, the login is accepted and the cookie is
/// handed out to be staged.  Where the store refuses or fails, the login ends
/// in that failure and the cookie is handed to nobody.
pub open spec fn login_after_session(
    state: AwaitingSessionStoredView,
    reply: Result<(), ErrorView>,
) -> LoginStepView {
    match reply {
        Ok(_) => LoginStepView::Finished(Ok(LoginOutcomeView::LoggedIn { cookie: state.cookie })),
        Err(error) => LoginStepView::Finished(Err(error)),
    }
}

/// Ends a login in a refusal with this message.
fn refuse(message: &str) -> (step: LoginStep)
    ensures
        step@ == login_refused(message@),
{
    LoginStep::Finished(Ok(LoginOutcome::Refused { message: message.to_owned() }))
}

/// Starts a login from the submitted form.
pub fn post(data: &LoginForm) -> (step: LoginStep)
    ensures
        step@ == login_start(data@),
{
    if !data.all_fields_populated() {
        return refuse("All fields are required!");
    }
    LoginStep::FindByUsername {
        username: data.username_or_email.clone(),
        then: AwaitingUsernameMatch {
            username_or_email: data.username_or_email.clone(),
            password: data.password.clone(),
        },
    }
}

impl AwaitingUsernameMatch {
    /// Takes the store's answer to the lookup by username.
    pub fn username_found(self, reply: Result<Option<User>, Error>) -> (step: LoginStep)
        ensures
            step@ == login_after_username(self@, reply_view(reply)),
    {
        match reply {
            Ok(by_name) => LoginStep::FindByEmail {
                email: self.username_or_email,
                then: AwaitingEmailMatch { password: self.password, by_name },
            },
            Err(error) => LoginStep::Finished(Err(error)),
        }
    }
}

/// Issues a session for the account `user_id` from the outcome of drawing a
/// token.
pub fn issue_session(user_id: i32, drawn: Result<Vec<u8>, Error>) -> (step: LoginStep)
    ensures
        step@ == session_issue(user_id, token_outcome_view(drawn)),
{
    match drawn {
        Ok(session_key) => {
            let cookie = encode_hex(&session_key);
            LoginStep::StoreSession {
                session: Session { session_key, user_id },
                then: AwaitingSessionStored { cookie },
            }
        },
        Err(error) => LoginStep::Finished(Err(error)),
    }
}

impl AwaitingEmailMatch {
    /// Takes the store's answer to the lookup by e-mail address, checks the
    /// password, and draws a token where it is accepted.  The token is
    /// chance, so the step is the one that `login_after_email` gives for some
    /// outcome of the draw.
    pub fn email_found(self, reply: Result<Option<User>, Error>) -> (step: LoginStep)
        ensures
            exists|drawn: Result<Seq<u8>, ErrorView>|
                is_token_outcome(drawn) && step@ == #[trigger] login_after_email(
                    self@,
                    reply_view(reply),
                    drawn,
                ),
    {
        let ghost undrawn: Result<Seq<u8>, ErrorView> = Err(ErrorView::RandError(Seq::empty()));
        let by_email = match reply {
            Ok(by_email) => by_email,
            Err(error) => {
                let step = LoginStep::Finished(Err(error));
                assert(step@ == login_after_email(self@, reply_view(reply), undrawn));
                return step;
            },
        };
        let user = match self.by_name {
            Some(user) => Some(user),
            None => by_email,
        };
        let user = match user {
            Some(user) => user,
            None => {
                let step = refuse("Invalid username/e-mail or password provided.");
                assert(step@ == login_after_email(self@, reply_view(reply), undrawn));
                return step;
            },
        };
        match verify_password(self.password.as_str(), user.password.as_str()) {
            Ok(true) => {
                let drawn = generate_session_key();
                let step = issue_session(user.id, drawn);
                assert(step@ == login_after_email(
                    self@,
                    reply_view(reply),
                    token_outcome_view(drawn),
                ));
                step
            },
            Ok(false) => {
                let step = refuse("Invalid username/e-mail or password provided.");
                assert(step@ == login_after_email(self@, reply_view(reply), undrawn));
                step
            },
            Err(detail) => {
                let step = LoginStep::Finished(Err(Error::FailedOnABcryptFunction(detail)));
                assert(step@ == login_after_email(self@, reply_view(reply), undrawn));
                step
            },
        }
    }
}

impl AwaitingSessionStored {
    /// Takes the store's answer to the request to keep the session, and hands
    /// the cookie out only where the store keeps it.
    pub fn session_stored(self, reply: Result<(), Error>) -> (step: LoginStep)
        ensures
            step@ == login_after_session(self@, receipt_view(reply)),
    {
        match reply {
            Ok(_) => LoginStep::Finished(Ok(LoginOutcome::LoggedIn { cookie: self.cookie })),
            Err(error) => LoginStep::Finished(Err(error)),
        }
    }
}

/// The page shown after a submission, to the resolved account `user`: under
/// the refusal's message, with the name filled in again; or, where the login
/// was accepted, under the word of that.
pub open spec fn login_page_after_post(
    form: LoginFormView,
    outcome: LoginOutcomeView,
    user: Option<UserView>,
) -> LoginLayoutContextView {
    match outcome {
        LoginOutcomeView::Refused { message } => LoginLayoutContextView {
            base_context: crate::application::base_context_of(user),
            previous_username_or_email: Some(form.username_or_email),
            error: Some(message),
            success: None,
        },
        LoginOutcomeView::LoggedIn { cookie } => LoginLayoutContextView {
            base_context: crate::application::base_context_of(user),
            previous_username_or_email: None,
            error: None,
            success: Some(logged_in()),
        },
    }
}

/// Makes the page shown after a submission that ended in `outcome`; the
/// store's failure where resolution failed.  The password is never shown
/// again.
pub fn page_after_post(
    data: &LoginForm,
    outcome: &LoginOutcome,
    user_info: Result<Option<User>, Error>,
) -> (context: Result<LoginLayoutContext, Error>)
    ensures
        match reply_view(user_info) {
            Ok(found) => context matches Ok(made) && made@ == login_page_after_post(
                data@,
                outcome@,
                found,
            ),
            Err(error) => context matches Err(raised) && raised@ == error,
        },
{
    let context = match LoginLayoutContext::new(user_info) {
        Ok(context) => context,
        Err(error) => {
            return Err(error);
        },
    };
    match outcome {
        LoginOutcome::Refused { message } => Ok(
            context.with_previous_username_or_email(
                Some(data.username_or_email.clone()),
            ).with_error(Some(message.clone())),
        ),
        LoginOutcome::LoggedIn { cookie } => Ok(
            context.with_success(Some("Logged in successfully!".to_owned())),
        ),
    }
}

} // verus!
