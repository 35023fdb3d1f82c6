//! Registering an account: the form, the page, and the steps from a
//! submitted form to a stored account.

use crate::application::{
    base_context_of, reply_view, receipt_view, BaseLayoutContext, BaseLayoutContextView, Error,
    ErrorView,
};
use crate::login::all_fields_required;
use crate::models::{option_view, NewUser, NewUserView, User, UserView};
use crate::password::{digest_accepts, hash_password};
use vstd::prelude::*;

verus! {

/// What the registration page is rendered from.
#[derive(Debug, Clone, PartialEq, Eq)]
pub struct RegisterLayoutContext {
    pub base_context: BaseLayoutContext,
    pub previous_username: Option<String>,
    pub previous_email: Option<String>,
    pub error: Option<String>,
    pub success: Option<String>,
}

/// What a `RegisterLayoutContext` holds.
pub struct RegisterLayoutContextView {
    pub base_context: BaseLayoutContextView,
    pub previous_username: Option<Seq<char>>,
    pub previous_email: Option<Seq<char>>,
    pub error: Option<Seq<char>>,
    pub success: Option<Seq<char>>,
}

impl View for RegisterLayoutContext {
    type V = RegisterLayoutContextView;

    open spec fn view(&self) -> RegisterLayoutContextView {
        RegisterLayoutContextView {
            base_context: self.base_context@,
            previous_username: option_view(self.previous_username),
            previous_email: option_view(self.previous_email),
            error: option_view(self.error),
            success: option_view(self.success),
        }
    }
}

impl RegisterLayoutContext {
    /// The page as first shown: no message, nothing filled in.
    pub fn new(user_info: Result<Option<User>, Error>) -> (context: Result<
        RegisterLayoutContext,
        Error,
    >)
        ensures
            match reply_view(user_info) {
                Ok(found) => context matches Ok(made) && made@ == (RegisterLayoutContextView {
                    base_context: base_context_of(found),
                    previous_username: None,
                    previous_email: None,
                    error: None,
                    success: None,
                }),
                Err(error) => context matches Err(raised) && raised@ == error,
            },
    {
        match BaseLayoutContext::new(user_info) {
            Ok(base_context) => Ok(
                RegisterLayoutContext {
                    base_context,
                    previous_username: None,
                    previous_email: None,
                    error: None,
                    success: None,
                },
            ),
            Err(error) => Err(error),
        }
    }

    /// The same page with the username field filled in again.
    pub fn with_previous_username(self, previous_username: Option<String>) -> (context: Self)
        ensures
            context@ == (RegisterLayoutContextView {
                previous_username: option_view(previous_username),
                ..self@
            }),
    {
        let mut context = self;
        context.previous_username = previous_username;
        context
    }

    /// The same page with the e-mail field filled in again.
    pub fn with_previous_email(self, previous_email: Option<String>) -> (context: Self)
        ensures
            context@ == (RegisterLayoutContextView {
                previous_email: option_view(previous_email),
                ..self@
            }),
    {
        let mut context = self;
        context.previous_email = previous_email;
        context
    }

    /// The same page with `error` as its error message.
    pub fn with_error(self, error: Option<String>) -> (context: Self)
        ensures
            context@ == (RegisterLayoutContextView { error: option_view(error), ..self@ }),
    {
        let mut context = self;
        context.error = error;
        context
    }

    /// The same page with `success` as its success message.
    pub fn with_success(self, success: Option<String>) -> (context: Self)
        ensures
            context@ == (RegisterLayoutContextView { success: option_view(success), ..self@ }),
    {
        let mut context = self;
        context.success = success;
        context
    }
}

/// The submitted registration form.
#[derive(Debug, Clone, PartialEq, Eq)]
pub struct RegisterForm {
    pub username: String,
    pub email: String,
    pub password: String,
    pub password_repeat: String,
}

/// What a `RegisterForm` holds.
pub struct RegisterFormView {
    pub username: Seq<char>,
    pub email: Seq<char>,
    pub password: Seq<char>,
    pub password_repeat: Seq<char>,
}

impl View for RegisterForm {
    type V = RegisterFormView;

    open spec fn view(&self) -> RegisterFormView {
        RegisterFormView {
            username: self.username@,
            email: self.email@,
            password: self.password@,
            password_repeat: self.password_repeat@,
        }
    }
}

impl RegisterFormView {
    /// Whether no field was left empty.
    pub open spec fn all_fields_populated(self) -> bool {
        &&& self.username.len() > 0
        &&& self.email.len() > 0
        &&& self.password.len() > 0
        &&& self.password_repeat.len() > 0
    }

    /// Whether the password was typed the same both times.
    pub open spec fn both_passwords_same(self) -> bool {
        self.password == self.password_repeat
    }
}

/// The view of the store's answer to a question of whether a name is free.
pub open spec fn freeness_view(answer: Result<bool, Error>) -> Result<bool, ErrorView> {
    match answer {
        Ok(free) => Ok(free),
        Err(error) => Err(error@),
    }
}

/// Whether a lookup shows a name to be free: it is where the lookup found
/// nobody, and the store's failure stays a failure.
pub open spec fn name_is_free(reply: Result<Option<UserView>, ErrorView>) -> Result<
    bool,
    ErrorView,
> {
    match reply {
        Ok(found) => Ok(found is None),
        Err(error) => Err(error),
    }
}

impl RegisterForm {
    /// Whether no field was left empty.
    pub fn all_fields_populated(&self) -> (populated: bool)
        ensures
            populated == self@.all_fields_populated(),
    {
        !self.username.as_str().is_empty() && !self.email.as_str().is_empty()
            && !self.password.as_str().is_empty() && !self.password_repeat.as_str().is_empty()
    }

    /// Whether the password was typed the same both times.
    pub fn both_passwords_same(&self) -> (same: bool)
        ensures
            same == self@.both_passwords_same(),
    {
        self.password == self.password_repeat
    }

    /// Whether the store's answer to the lookup of the submitted username
    /// shows that name to be free.
    pub fn username_is_free(by_username: Result<Option<User>, Error>) -> (free: Result<bool, Error>)
        ensures
            freeness_view(free) == name_is_free(reply_view(by_username)),
    {
        match by_username {
            Ok(found) => Ok(found.is_none()),
            Err(error) => Err(error),
        }
    }

    /// Whether the store's answer to the lookup of the submitted e-mail
    /// address shows that address to be free.
    pub fn email_is_free(by_email: Result<Option<User>, Error>) -> (free: Result<bool, Error>)
        ensures
            freeness_view(free) == name_is_free(reply_view(by_email)),
    {
        match by_email {
            Ok(found) => Ok(found.is_none()),
            Err(error) => Err(error),
        }
    }
}

/// The message for a password typed differently the second time.
pub open spec fn passwords_differ() -> Seq<char> {
    "Password attempts don't match!"@
}

/// The message for a username that an account already has.
pub open spec fn username_in_use() -> Seq<char> {
    "Username already in use!"@
}

/// The message for an e-mail address that an account already has.
pub open spec fn email_in_use() -> Seq<char> {
    "E-mail already in use!"@
}

/// The message for a registration that went through.
pub open spec fn registered() -> Seq<char> {
    "Account successfully registered!"@
}

/// Waiting for the outcome of resolving the request's cookies.
pub struct AwaitingIdentity {
    username: String,
    email: String,
    password: String,
    password_repeat: String,
}

impl View for AwaitingIdentity {
    type V = RegisterFormView;

    closed spec fn view(&self) -> RegisterFormView {
        RegisterFormView {
            username: self.username@,
            email: self.email@,
            password: self.password@,
            password_repeat: self.password_repeat@,
        }
    }
}

/// Waiting for the store's answer to the lookup of the submitted username.
pub struct AwaitingUsernameCheck {
    username: String,
    email: String,
    password: String,
}

/// What an `AwaitingUsernameCheck` holds: the submitted form.
pub struct AwaitingUsernameCheckView {
    pub username: Seq<char>,
    pub email: Seq<char>,
    pub password: Seq<char>,
}

impl View for AwaitingUsernameCheck {
    type V = AwaitingUsernameCheckView;

    closed spec fn view(&self) -> AwaitingUsernameCheckView {
        AwaitingUsernameCheckView {
            username: self.username@,
            email: self.email@,
            password: self.password@,
        }
    }
}

/// Waiting for the store's answer to the lookup of the submitted e-mail
/// address.
pub struct AwaitingEmailCheck {
    username: String,
    email: String,
    password: String,
}

/// What an `AwaitingEmailCheck` holds: the submitted form.
pub struct AwaitingEmailCheckView {
    pub username: Seq<char>,
    pub email: Seq<char>,
    pub password: Seq<char>,
}

impl View for AwaitingEmailCheck {
    type V = AwaitingEmailCheckView;

    closed spec fn view(&self) -> AwaitingEmailCheckView {
        AwaitingEmailCheckView {
            username: self.username@,
            email: self.email@,
            password: self.password@,
        }
    }
}

/// Waiting for the store to confirm that it keeps the new account.
pub struct AwaitingUserCreated {
    _sealed: (),
}

/// One step of a registration: the next store operation, or how the
/// registration ended.
#[allow(inconsistent_fields)]
pub enum RegisterStep {
    /// Resolve the request's cookies to an account, and answer with
    /// `identified`.
    ResolveIdentity { then: AwaitingIdentity },
    /// Look the account with this username up, and answer with
    /// `username_checked`.
    CheckUsername { username: String, then: AwaitingUsernameCheck },
    /// Look the account with this e-mail address up, and answer with
    /// `email_checked`.
    CheckEmail { email: String, then: AwaitingEmailCheck },
    /// Store this account, and answer with `user_created`.
    CreateUser { user: NewUser, then: AwaitingUserCreated },
    /// The registration ended: accepted (`Ok(None)`), refused with a message
    /// for the form, or failed.
    Finished(Result<Option<String>, Error>),
}

/// What a `RegisterStep` holds.
#[allow(inconsistent_fields)]
pub enum RegisterStepView {
    ResolveIdentity { then: RegisterFormView },
    CheckUsername { username: Seq<char>, then: AwaitingUsernameCheckView },
    CheckEmail { email: Seq<char>, then: AwaitingEmailCheckView },
    CreateUser { user: NewUserView },
    Finished(Result<Option<Seq<char>>, ErrorView>),
}

impl View for RegisterStep {
    type V = RegisterStepView;

    open spec fn view(&self) -> RegisterStepView {
        match *self {
            RegisterStep::ResolveIdentity { then } => RegisterStepView::ResolveIdentity {
                then: then@,
            },
            RegisterStep::CheckUsername { username, then } => RegisterStepView::CheckUsername {
                username: username@,
                then: then@,
            },
            RegisterStep::CheckEmail { email, then } => RegisterStepView::CheckEmail {
                email: email@,
                then: then@,
            },
            RegisterStep::CreateUser { user, then } => RegisterStepView::CreateUser { user: user@ },
            RegisterStep::Finished(ending) => RegisterStepView::Finished(reply_view(ending)),
        }
    }
}

/// The first step of a registration: the resolution of who is asking, which
/// the page is shown to, before anything is decided of the form.
pub open spec fn register_start(form: RegisterFormView) -> RegisterStepView {
    RegisterStepView::ResolveIdentity { then: form }
}

/// The step after resolution.  A failed resolution fails the registration
/// before it has begun.  Otherwise a form with an empty field is refused, then
/// one whose two passwords differ; any other form has its username looked up.
pub open spec fn register_after_identity(
    form: RegisterFormView,
    user_info: Result<Option<UserView>, ErrorView>,
) -> RegisterStepView {
    if let Err(error) = user_info {
        RegisterStepView::Finished(Err(error))
    } else if !form.all_fields_populated() {
        RegisterStepView::Finished(Ok(Some(all_fields_required())))
    } else if !form.both_passwords_same() {
        RegisterStepView::Finished(Ok(Some(passwords_differ())))
    } else {
        RegisterStepView::CheckUsername {
            username: form.username,
            then: AwaitingUsernameCheckView {
                username: form.username,
                email: form.email,
                password: form.password,
            },
        }
    }
}

/// The step after the lookup of the username: refusal where an account has
/// it, else the lookup of the e-mail address; the failure where the store
/// failed.
pub open spec fn register_after_username(
    state: AwaitingUsernameCheckView,
    reply: Result<Option<UserView>, ErrorView>,
) -> RegisterStepView {
    match name_is_free(reply) {
        Ok(true) => RegisterStepView::CheckEmail {
            email: state.email,
            then: AwaitingEmailCheckView {
                username: state.username,
                email: state.email,
                password: state.password,
            },
        },
        Ok(false) => RegisterStepView::Finished(Ok(Some(username_in_use()))),
        Err(error) => RegisterStepView::Finished(Err(error)),
    }
}

/// Whether `hashed` is something that hashing `password` can give: a digest
/// that accepts the password, or the text of an error.
pub open spec fn is_digest_outcome(
    password: Seq<char>,
    hashed: Result<Seq<char>, Seq<char>>,
) -> bool {
    hashed matches Ok(digest) ==> digest_accepts(digest, password)
}

/// The view of the outcome of hashing a password.
pub open spec fn digest_outcome_view(hashed: Result<String, String>) -> Result<
    Seq<char>,
    Seq<char>,
> {
    match hashed {
        Ok(digest) => Ok(digest@),
        Err(detail) => Err(detail@),
    }
}

/// The step that enrolls an account from the outcome of hashing its
/// password: the account is stored with the digest in place of the password;
/// a failed hashing fails the registration.
pub open spec fn enrollment(
    username: Seq<char>,
    email: Seq<char>,
    hashed: Result<Seq<char>, Seq<char>>,
) -> RegisterStepView {
    match hashed {
        Ok(digest) => RegisterStepView::CreateUser {
            user: NewUserView { username, password: digest, email },
        },
        Err(detail) => RegisterStepView::Finished(Err(ErrorView::FailedOnABcryptFunction(detail))),
    }
}

/// The step after the lookup of the e-mail address, given the outcome
/// `hashed` of hashing the password: refusal where an account has the
/// address, else the enrollment; the failure where the store failed.
pub open spec fn register_after_email(
    state: AwaitingEmailCheckView,
    reply: Result<Option<UserView>, ErrorView>,
    hashed: Result<Seq<char>, Seq<char>>,
) -> RegisterStepView {
    match name_is_free(reply) {
        Ok(true) => enrollment(state.username, state.email, hashed),
        Ok(false) => RegisterStepView::Finished(Ok(Some(email_in_use()))),
        Err(error) => RegisterStepView::Finished(Err(error)),
    }
}

/// The end of a registration once the store has answered the request to keep
/// the account: accepted, or the store's failure.
pub open spec fn register_after_creation(reply: Result<(), ErrorView>) -> RegisterStepView {
    match reply {
        Ok(_) => RegisterStepView::Finished(Ok(None)),
        Err(error) => RegisterStepView::Finished(Err(error)),
    }
}

/// Starts a registration from the submitted form.
pub fn post(data: &RegisterForm) -> (step: RegisterStep)
    ensures
        step@ == register_start(data@),
{
    RegisterStep::ResolveIdentity {
        then: AwaitingIdentity {
            username: data.username.clone(),
            email: data.email.clone(),
            password: data.password.clone(),
            password_repeat: data.password_repeat.clone(),
        },
    }
}

impl AwaitingIdentity {
    /// Takes the outcome of resolution, and checks the form where resolution
    /// did not fail.
    pub fn identified(self, user_info: &Result<Option<User>, Error>) -> (step: RegisterStep)
        ensures
            step@ == register_after_identity(self@, reply_view(*user_info)),
    {
        if let Err(error) = user_info {
            return RegisterStep::Finished(Err(error.duplicate()));
        }
        let data = RegisterForm {
            username: self.username,
            email: self.email,
            password: self.password,
            password_repeat: self.password_repeat,
        };
        if !data.all_fields_populated() {
            return RegisterStep::Finished(Ok(Some("All fields are required!".to_owned())));
        }
        if !data.both_passwords_same() {
            return RegisterStep::Finished(Ok(Some("Password attempts don't match!".to_owned())));
        }
        RegisterStep::CheckUsername {
            username: data.username.clone(),
            then: AwaitingUsernameCheck {
                username: data.username,
                email: data.email,
                password: data.password,
            },
        }
    }
}

impl AwaitingUsernameCheck {
    /// Takes the store's answer to the lookup of the username.
    pub fn username_checked(self, reply: Result<Option<User>, Error>) -> (step: RegisterStep)
        ensures
            step@ == register_after_username(self@, reply_view(reply)),
    {
        match RegisterForm::username_is_free(reply) {
            Ok(true) => RegisterStep::CheckEmail {
                email: self.email.clone(),
                then: AwaitingEmailCheck {
                    username: self.username,
                    email: self.email,
                    password: self.password,
                },
            },
            Ok(false) => RegisterStep::Finished(Ok(Some("Username already in use!".to_owned()))),
            Err(error) => RegisterStep::Finished(Err(error)),
        }
    }
}

/// Enrolls an account from the outcome of hashing its password.
pub fn enroll(username: String, email: String, hashed: Result<String, String>) -> (step:
    RegisterStep)
    ensures
        step@ == enrollment(username@, email@, digest_outcome_view(hashed)),
{
    match hashed {
        Ok(digest) => RegisterStep::CreateUser {
            user: NewUser { username, password: digest, email },
            then: AwaitingUserCreated { _sealed: () },
        },
        Err(detail) => RegisterStep::Finished(Err(Error::FailedOnABcryptFunction(detail))),
    }
}

impl AwaitingEmailCheck {
    /// Takes the store's answer to the lookup of the e-mail address, and
    /// hashes the password where the address is free.  The digest is salted
    /// by chance, so the step is the one that `register_after_email` gives
    /// for some outcome of the hashing.
    pub fn email_checked(self, reply: Result<Option<User>, Error>) -> (step: RegisterStep)
        ensures
            exists|hashed: Result<Seq<char>, Seq<char>>|
                is_digest_outcome(self@.password, hashed)
                    && step@ == #[trigger] register_after_email(self@, reply_view(reply), hashed),
    {
        let ghost unhashed: Result<Seq<char>, Seq<char>> = Err(Seq::empty());
        match RegisterForm::email_is_free(reply) {
            Ok(true) => {
                let hashed = hash_password(self.password.as_str());
                let step = enroll(self.username, self.email, hashed);
                assert(step@ == register_after_email(
                    self@,
                    reply_view(reply),
                    digest_outcome_view(hashed),
                ));
                step
            },
            Ok(false) => {
                let step = RegisterStep::Finished(Ok(Some("E-mail already in use!".to_owned())));
                assert(step@ == register_after_email(self@, reply_view(reply), unhashed));
                step
            },
            Err(error) => {
                let step = RegisterStep::Finished(Err(error));
                assert(step@ == register_after_email(self@, reply_view(reply), unhashed));
                step
            },
        }
    }
}

impl AwaitingUserCreated {
    /// Takes the store's answer to the request to keep the account.
    pub fn user_created(self, reply: Result<(), Error>) -> (step: RegisterStep)
        ensures
            step@ == register_after_creation(receipt_view(reply)),
    {
        match reply {
            Ok(_) => RegisterStep::Finished(Ok(None)),
            Err(error) => RegisterStep::Finished(Err(error)),
        }
    }
}

/// The page shown after a submission, to the resolved account `user`: under
/// the refusal's message, with username and e-mail address filled in again;
/// or, where the registration was accepted, under the word of that.
pub open spec fn register_page_after_post(
    form: RegisterFormView,
    refusal: Option<Seq<char>>,
    user: Option<UserView>,
) -> RegisterLayoutContextView {
    match refusal {
        Some(message) => RegisterLayoutContextView {
            base_context: base_context_of(user),
            previous_username: Some(form.username),
            previous_email: Some(form.email),
            error: Some(message),
            success: None,
        },
        None => RegisterLayoutContextView {
            base_context: base_context_of(user),
            previous_username: None,
            previous_email: None,
            error: None,
            success: Some(registered()),
        },
    }
}

/// Makes the page shown after a submission that ended with `refusal`, or was
/// accepted where there is none; the store's failure where resolution failed.
/// Neither password is ever shown again.
pub fn page_after_post(
    data: &RegisterForm,
    refusal: Option<String>,
    user_info: Result<Option<User>, Error>,
) -> (context: Result<RegisterLayoutContext, Error>)
    ensures
        match reply_view(user_info) {
            Ok(found) => context matches Ok(made) && made@ == register_page_after_post(
                data@,
                option_view(refusal),
                found,
            ),
            Err(error) => context matches Err(raised) && raised@ == error,
        },
{
    let context = match RegisterLayoutContext::new(user_info) {
        Ok(context) => context,
        Err(error) => {
            return Err(error);
        },
    };
    match refusal {
        Some(error_message) => Ok(
            context.with_error(Some(error_message)).with_previous_username(
                Some(data.username.clone()),
            ).with_previous_email(Some(data.email.clone())),
        ),
        None => Ok(context.with_success(Some("Account successfully registered!".to_owned()))),
    }
}

} // verus!
