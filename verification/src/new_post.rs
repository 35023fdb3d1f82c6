//! Publishing a post: the form, the page, and the steps from a submitted
//! form to a stored post.

use crate::application::{
    base_context_of, reply_view, receipt_view, BaseLayoutContext, BaseLayoutContextView, Error,
    ErrorView,
};
use crate::login::all_fields_required;
use crate::models::{option_view, NewPost, NewPostView, Timestamp, User, UserView};
use crate::timestamp::{
    creation_time_text, current_timestamp, human_readable_creation_time, is_clock_reading,
};
use vstd::prelude::*;

verus! {

/// What the page for writing a post is rendered from.
#[derive(Debug, Clone, PartialEq, Eq)]
pub struct NewPostLayoutContext {
    pub base_context: BaseLayoutContext,
    pub previous_title: String,
    pub previous_description: String,
    pub previous_content: String,
    pub error: Option<String>,
    pub success: Option<String>,
}

/// What a `NewPostLayoutContext` holds.
pub struct NewPostLayoutContextView {
    pub base_context: BaseLayoutContextView,
    pub previous_title: Seq<char>,
    pub previous_description: Seq<char>,
    pub previous_content: Seq<char>,
    pub error: Option<Seq<char>>,
    pub success: Option<Seq<char>>,
}

impl View for NewPostLayoutContext {
    type V = NewPostLayoutContextView;

    open spec fn view(&self) -> NewPostLayoutContextView {
        NewPostLayoutContextView {
            base_context: self.base_context@,
            previous_title: self.previous_title@,
            previous_description: self.previous_description@,
            previous_content: self.previous_content@,
            error: option_view(self.error),
            success: option_view(self.success),
        }
    }
}

/// The submitted form for a new post.
#[derive(Debug, Clone, PartialEq, Eq)]
pub struct NewPostForm {
    pub title: String,
    pub description: String,
    pub content: String,
}

/// What a `NewPostForm` holds.
pub struct NewPostFormView {
    pub title: Seq<char>,
    pub description: Seq<char>,
    pub content: Seq<char>,
}

impl View for NewPostForm {
    type V = NewPostFormView;

    open spec fn view(&self) -> NewPostFormView {
        NewPostFormView {
            title: self.title@,
            description: self.description@,
            content: self.content@,
        }
    }
}

impl NewPostFormView {
    /// Whether no field was left empty.
    pub open spec fn all_fields_populated(self) -> bool {
        self.title.len() > 0 && self.description.len() > 0 && self.content.len() > 0
    }
}

impl NewPostForm {
    /// Whether no field was left empty.
    pub fn all_fields_populated(&self) -> (populated: bool)
        ensures
            populated == self@.all_fields_populated(),
    {
        !self.title.as_str().is_empty() && !self.description.as_str().is_empty()
            && !self.content.as_str().is_empty()
    }
}

impl NewPostLayoutContext {
    /// The page as first shown: no message, nothing filled in.
    pub fn new(user_info: Result<Option<User>, Error>) -> (context: Result<
        NewPostLayoutContext,
        Error,
    >)
        ensures
            match reply_view(user_info) {
                Ok(found) => context matches Ok(made) && made@ == (NewPostLayoutContextView {
                    base_context: base_context_of(found),
                    previous_title: Seq::empty(),
                    previous_description: Seq::empty(),
                    previous_content: Seq::empty(),
                    error: None,
                    success: None,
                }),
                Err(error) => context matches Err(raised) && raised@ == error,
            },
    {
        match BaseLayoutContext::new(user_info) {
            Ok(base_context) => Ok(
                NewPostLayoutContext {
                    base_context,
                    previous_title: String::new(),
                    previous_description: String::new(),
                    previous_content: String::new(),
                    error: None,
                    success: None,
                },
            ),
            Err(error) => Err(error),
        }
    }

    /// The same page with its three fields filled in again from `data`.
    pub fn with_previous_data(self, data: &NewPostForm) -> (context: Self)
        ensures
            context@ == (NewPostLayoutContextView {
                previous_title: data@.title,
                previous_description: data@.description,
                previous_content: data@.content,
                ..self@
            }),
    {
        let mut context = self;
        context.previous_title = data.title.clone();
        context.previous_content = data.content.clone();
        context.previous_description = data.description.clone();
        context
    }

    /// The same page with `error` as its error message.
    pub fn with_error(self, error: Option<String>) -> (context: Self)
        ensures
            context@ == (NewPostLayoutContextView { error: option_view(error), ..self@ }),
    {
        let mut context = self;
        context.error = error;
        context
    }

    /// The same page with `success` as its success message.
    pub fn with_success(self, success: Option<String>) -> (context: Self)
        ensures
            context@ == (NewPostLayoutContextView { success: option_view(success), ..self@ }),
    {
        let mut context = self;
        context.success = success;
        context
    }
}

/// The message for a visitor who is not logged in.
pub open spec fn login_needed() -> Seq<char> {
    "You need to log in first!"@
}

/// The message for a post that was published.
pub open spec fn post_created() -> Seq<char> {
    "Created a new post!"@
}

/// The page as fetched, for the resolved account `user`: the empty form.  A
/// visitor who is nobody is told at once to log in first.
pub open spec fn new_post_page(user: Option<UserView>) -> NewPostLayoutContextView {
    NewPostLayoutContextView {
        base_context: base_context_of(user),
        previous_title: Seq::empty(),
        previous_description: Seq::empty(),
        previous_content: Seq::empty(),
        error: match user {
            Some(_) => None,
            None => Some(login_needed()),
        },
        success: None,
    }
}

/// Makes the page as fetched for the outcome of resolution; the store's
/// failure where resolution failed.
pub fn get(user_info: Result<Option<User>, Error>) -> (context: Result<
    NewPostLayoutContext,
    Error,
>)
    ensures
        match reply_view(user_info) {
            Ok(found) => context matches Ok(made) && made@ == new_post_page(found),
            Err(error) => context matches Err(raised) && raised@ == error,
        },
{
    let logged_in = match &user_info {
        Ok(Some(_)) => true,
        _ => false,
    };
    let context = match NewPostLayoutContext::new(user_info) {
        Ok(context) => context,
        Err(error) => {
            return Err(error);
        },
    };
    if logged_in {
        Ok(context)
    } else {
        Ok(context.with_error(Some("You need to log in first!".to_owned())))
    }
}

/// Waiting for the outcome of resolving the request's cookies.
pub struct AwaitingIdentity {
    title: String,
    description: String,
    content: String,
}

/// What an `AwaitingIdentity` holds: the submitted form.
pub struct AwaitingIdentityView {
    pub title: Seq<char>,
    pub description: Seq<char>,
    pub content: Seq<char>,
}

impl View for AwaitingIdentity {
    type V = AwaitingIdentityView;

    closed spec fn view(&self) -> AwaitingIdentityView {
        AwaitingIdentityView {
            title: self.title@,
            description: self.description@,
            content: self.content@,
        }
    }
}

/// Waiting for the store to confirm that it keeps the new post.
pub struct AwaitingPostCreated {
    _sealed: (),
}

/// One step of publishing a post.
#[allow(inconsistent_fields)]
pub enum NewPostStep {
    /// Resolve the request's cookies to an account, and answer with
    /// `identified`.
    ResolveIdentity { then: AwaitingIdentity },
    /// Store this post, and answer with `post_created`.
    CreatePost { post: NewPost, then: AwaitingPostCreated },
    /// The submission ended: accepted (`Ok(None)`), refused with a message
    /// for the form, or failed.
    Finished(Result<Option<String>, Error>),
}

/// What a `NewPostStep` holds.
pub enum NewPostStepView {
    ResolveIdentity { then: AwaitingIdentityView },
    CreatePost { post: NewPostView },
    Finished(Result<Option<Seq<char>>, ErrorView>),
}

impl View for NewPostStep {
    type V = NewPostStepView;

    open spec fn view(&self) -> NewPostStepView {
        match *self {
            NewPostStep::ResolveIdentity { then } => NewPostStepView::ResolveIdentity {
                then: then@,
            },
            NewPostStep::CreatePost { post, then } => NewPostStepView::CreatePost { post: post@ },
            NewPostStep::Finished(ending) => NewPostStepView::Finished(reply_view(ending)),
        }
    }
}

/// The first step of publishing: refusal of a form with an empty field, else
/// the resolution of who is asking.
pub open spec fn new_post_start(form: NewPostFormView) -> NewPostStepView {
    if !form.all_fields_populated() {
        NewPostStepView::Finished(Ok(Some(all_fields_required())))
    } else {
        NewPostStepView::ResolveIdentity {
            then: AwaitingIdentityView {
                title: form.title,
                description: form.description,
                content: form.content,
            },
        }
    }
}

/// The step after resolution, given the time `now` that the clock showed:
/// the post is stored under the resolved account and that time; a visitor
/// who is nobody is told to log in; the failure where resolution failed.  No
/// post is stored that could not be shown afterwards: a time without a
/// calendar date fails the submission.
pub open spec fn new_post_after_identity(
    state: AwaitingIdentityView,
    user_info: Result<Option<UserView>, ErrorView>,
    now: Timestamp,
) -> NewPostStepView {
    match user_info {
        Ok(Some(user)) => match creation_time_text(now) {
            Ok(_) => NewPostStepView::CreatePost {
                post: NewPostView {
                    title: state.title,
                    author: user.id,
                    created_on: now,
                    description: state.description,
                    content: state.content,
                },
            },
            Err(error) => NewPostStepView::Finished(Err(error)),
        },
        Ok(None) => NewPostStepView::Finished(Ok(Some(login_needed()))),
        Err(error) => NewPostStepView::Finished(Err(error)),
    }
}

/// The end of publishing once the store has answered the request to keep the
/// post: accepted, or the store's failure.
pub open spec fn new_post_after_creation(reply: Result<(), ErrorView>) -> NewPostStepView {
    match reply {
        Ok(_) => NewPostStepView::Finished(Ok(None)),
        Err(error) => NewPostStepView::Finished(Err(error)),
    }
}

/// Starts publishing from the submitted form.
pub fn post(data: &NewPostForm) -> (step: NewPostStep)
    ensures
        step@ == new_post_start(data@),
{
    if !data.all_fields_populated() {
        return NewPostStep::Finished(Ok(Some("All fields are required!".to_owned())));
    }
    NewPostStep::ResolveIdentity {
        then: AwaitingIdentity {
            title: data.title.clone(),
            description: data.description.clone(),
            content: data.content.clone(),
        },
    }
}

impl AwaitingIdentity {
    /// Takes the outcome of resolution and the time to date the post with.
    pub fn identified_at(self, user_info: Result<Option<User>, Error>, now: Timestamp) -> (step:
        NewPostStep)
        ensures
            step@ == new_post_after_identity(self@, reply_view(user_info), now),
    {
        match user_info {
            Ok(Some(user)) => match human_readable_creation_time(now) {
                Ok(_) => NewPostStep::CreatePost {
                    post: NewPost {
                        author: user.id,
                        created_on: now,
                        title: self.title,
                        description: self.description,
                        content: self.content,
                    },
                    then: AwaitingPostCreated { _sealed: () },
                },
                Err(error) => NewPostStep::Finished(Err(error)),
            },
            Ok(None) => NewPostStep::Finished(Ok(Some("You need to log in first!".to_owned()))),
            Err(error) => NewPostStep::Finished(Err(error)),
        }
    }

    /// Takes the outcome of resolution, and dates the post by the clock where
    /// an account is resolved.  The time is the clock's to say, so the step is
    /// the one that `new_post_after_identity` gives for some reading of the
    /// clock.
    pub fn identified(self, user_info: Result<Option<User>, Error>) -> (step: NewPostStep)
        ensures
            exists|now: Timestamp|
                is_clock_reading(now) && step@ == #[trigger] new_post_after_identity(
                    self@,
                    reply_view(user_info),
                    now,
                ),
    {
        let ghost unread = Timestamp { seconds: 0, nanoseconds: 0 };
        match user_info {
            Ok(Some(user)) => {
                let now = current_timestamp();
                let step = self.identified_at(Ok(Some(user)), now);
                assert(step@ == new_post_after_identity(self@, reply_view(user_info), now));
                step
            },
            Ok(None) => {
                let step = NewPostStep::Finished(
                    Ok(Some("You need to log in first!".to_owned())),
                );
                assert(step@ == new_post_after_identity(self@, reply_view(user_info), unread));
                step
            },
            Err(error) => {
                let step = NewPostStep::Finished(Err(error));
                assert(step@ == new_post_after_identity(self@, reply_view(user_info), unread));
                step
            },
        }
    }
}

impl AwaitingPostCreated {
    /// Takes the store's answer to the request to keep the post.
    pub fn post_created(self, reply: Result<(), Error>) -> (step: NewPostStep)
        ensures
            step@ == new_post_after_creation(receipt_view(reply)),
    {
        match reply {
            Ok(_) => NewPostStep::Finished(Ok(None)),
            Err(error) => NewPostStep::Finished(Err(error)),
        }
    }
}

/// The page shown after a submission, to the resolved account `user`: the
/// form as it was filled in, under the refusal's message or, where the post
/// was published, under the word of that.
pub open spec fn new_post_page_after_post(
    form: NewPostFormView,
    refusal: Option<Seq<char>>,
    user: Option<UserView>,
) -> NewPostLayoutContextView {
    NewPostLayoutContextView {
        base_context: base_context_of(user),
        previous_title: form.title,
        previous_description: form.description,
        previous_content: form.content,
        error: refusal,
        success: match refusal {
            Some(_) => None,
            None => Some(post_created()),
        },
    }
}

/// Makes the page shown after a submission that ended with `refusal`, or was
/// accepted where there is none; the store's failure where resolution failed.
pub fn page_after_post(
    data: &NewPostForm,
    refusal: Option<String>,
    user_info: Result<Option<User>, Error>,
) -> (context: Result<NewPostLayoutContext, Error>)
    ensures
        match reply_view(user_info) {
            Ok(found) => context matches Ok(made) && made@ == new_post_page_after_post(
                data@,
                option_view(refusal),
                found,
            ),
            Err(error) => context matches Err(raised) && raised@ == error,
        },
{
    let context = match NewPostLayoutContext::new(user_info) {
        Ok(context) => context,
        Err(error) => {
            return Err(error);
        },
    };
    match refusal {
        Some(error_message) => Ok(
            context.with_previous_data(data).with_error(Some(error_message)),
        ),
        None => Ok(
            context.with_previous_data(data).with_success(Some("Created a new post!".to_owned())),
        ),
    }
}

} // verus!
