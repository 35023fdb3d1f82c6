//! Showing one post: the page, and the steps from a post's id to what the
//! page shows of it.

use crate::application::{
    base_context_of, reply_view, BaseLayoutContext, BaseLayoutContextView, Error, ErrorView,
};
use crate::models::{Post, PostView, User, UserView};
use crate::timestamp::{creation_time_text, human_readable_creation_time};
use comrak::{markdown_to_html, ComrakOptions};
use vstd::prelude::*;

verus! {

/// The HTML that comrak renders from Markdown text under its default options.
pub uninterp spec fn rendered_markdown(content: Seq<char>) -> Seq<char>;

/// Renders Markdown text as HTML with `comrak::markdown_to_html` under the
/// default options.  The HTML depends on the text alone, so the contract
/// gives it a name and no more.
#[verifier::external_body]
fn render_markdown(content: &str) -> (html: String)
    ensures
        html@ == rendered_markdown(content@),
{
    markdown_to_html(content, &ComrakOptions::default())
}

/// What a page shows of a post in full.
#[derive(Debug, Clone, PartialEq, Eq)]
pub struct FullPostData {
    pub author: String,
    pub human_readable_creation_time: String,
    pub title: String,
    pub description: String,
    pub content: String,
}

/// What a `FullPostData` holds.
pub struct FullPostDataView {
    pub author: Seq<char>,
    pub human_readable_creation_time: Seq<char>,
    pub title: Seq<char>,
    pub description: Seq<char>,
    pub content: Seq<char>,
}

impl View for FullPostData {
    type V = FullPostDataView;

    open spec fn view(&self) -> FullPostDataView {
        FullPostDataView {
            author: self.author@,
            human_readable_creation_time: self.human_readable_creation_time@,
            title: self.title@,
            description: self.description@,
            content: self.content@,
        }
    }
}

/// The view of what a page shows of a post, or of the error in its place.
pub open spec fn full_post_view(outcome: Result<FullPostData, Error>) -> Result<
    FullPostDataView,
    ErrorView,
> {
    match outcome {
        Ok(data) => Ok(data@),
        Err(error) => Err(error@),
    }
}

/// What a page shows of `post`, given the store's answer to the lookup of its
/// author: the author's username, the creation time as a date, title and
/// description as they are, and the content rendered from Markdown to HTML.
/// A post without its author is in error, as is one without a date; a failure
/// of the store stays one.
pub open spec fn full_post_data(
    author: Result<Option<UserView>, ErrorView>,
    post: PostView,
) -> Result<FullPostDataView, ErrorView> {
    match author {
        Ok(Some(user)) => match creation_time_text(post.created_on) {
            Ok(human_readable_creation_time) => Ok(
                FullPostDataView {
                    author: user.username,
                    human_readable_creation_time,
                    title: post.title,
                    description: post.description,
                    content: rendered_markdown(post.content),
                },
            ),
            Err(error) => Err(error),
        },
        Ok(None) => Err(ErrorView::PostHasInvalidUserId),
        Err(error) => Err(error),
    }
}

impl FullPostData {
    /// Makes what a page shows of `post` from the store's answer to the
    /// lookup of its author.
    pub fn from_post(author: Result<Option<User>, Error>, post: Post) -> (data: Result<
        FullPostData,
        Error,
    >)
        ensures
            full_post_view(data) == full_post_data(reply_view(author), post@),
    {
        let author = match author {
            Ok(Some(user)) => user.username,
            Ok(None) => {
                return Err(Error::PostHasInvalidUserId);
            },
            Err(error) => {
                return Err(error);
            },
        };
        let human_readable_creation_time = match human_readable_creation_time(post.created_on) {
            Ok(text) => text,
            Err(error) => {
                return Err(error);
            },
        };
        let content = render_markdown(post.content.as_str());
        Ok(
            FullPostData {
                author,
                title: post.title,
                description: post.description,
                content,
                human_readable_creation_time,
            },
        )
    }
}

/// What the page of one post is rendered from.
#[derive(Debug, Clone, PartialEq, Eq)]
pub struct PostLayoutContext {
    pub base_context: BaseLayoutContext,
    pub post: FullPostData,
}

/// What a `PostLayoutContext` holds.
pub struct PostLayoutContextView {
    pub base_context: BaseLayoutContextView,
    pub post: FullPostDataView,
}

impl View for PostLayoutContext {
    type V = PostLayoutContextView;

    open spec fn view(&self) -> PostLayoutContextView {
        PostLayoutContextView { base_context: self.base_context@, post: self.post@ }
    }
}

impl PostLayoutContext {
    /// The page of a post for the outcome of resolution; the store's failure
    /// where resolution failed.
    pub fn new(post: FullPostData, user_info: Result<Option<User>, Error>) -> (context: Result<
        PostLayoutContext,
        Error,
    >)
        ensures
            match reply_view(user_info) {
                Ok(found) => context matches Ok(made) && made@ == (PostLayoutContextView {
                    base_context: base_context_of(found),
                    post: post@,
                }),
                Err(error) => context matches Err(raised) && raised@ == error,
            },
    {
        match BaseLayoutContext::new(user_info) {
            Ok(base_context) => Ok(PostLayoutContext { base_context, post }),
            Err(error) => Err(error),
        }
    }
}

/// Waiting for the store's answer to the lookup of the post.
pub struct AwaitingPost {
    _sealed: (),
}

/// Waiting for the store's answer to the lookup of the post's author.
pub struct AwaitingAuthor {
    post: Post,
}

/// What an `AwaitingAuthor` holds: the post that was found.
pub struct AwaitingAuthorView {
    pub post: PostView,
}

impl View for AwaitingAuthor {
    type V = AwaitingAuthorView;

    closed spec fn view(&self) -> AwaitingAuthorView {
        AwaitingAuthorView { post: self.post@ }
    }
}

/// One step towards the page of a post.
#[allow(inconsistent_fields)]
pub enum PostStep {
    /// Look the post with this id up, and answer with `post_found`.
    FindPost { id: i32, then: AwaitingPost },
    /// Look the account with this id up, and answer with `author_found`.
    FindAuthor { user_id: i32, then: AwaitingAuthor },
    /// What the page shows of the post, or why there is no page.
    Finished(Result<FullPostData, Error>),
}

/// What a `PostStep` holds.
pub enum PostStepView {
    FindPost { id: i32 },
    FindAuthor { user_id: i32, then: AwaitingAuthorView },
    Finished(Result<FullPostDataView, ErrorView>),
}

impl View for PostStep {
    type V = PostStepView;

    open spec fn view(&self) -> PostStepView {
        match *self {
            PostStep::FindPost { id, then } => PostStepView::FindPost { id },
            PostStep::FindAuthor { user_id, then } => PostStepView::FindAuthor {
                user_id,
                then: then@,
            },
            PostStep::Finished(outcome) => PostStepView::Finished(full_post_view(outcome)),
        }
    }
}

/// The step after the lookup of the post: the lookup of its author; an error
/// where no post has the id; the failure where the store failed.
pub open spec fn post_after_lookup(reply: Result<Option<PostView>, ErrorView>) -> PostStepView {
    match reply {
        Ok(Some(post)) => PostStepView::FindAuthor {
            user_id: post.author,
            then: AwaitingAuthorView { post },
        },
        Ok(None) => PostStepView::Finished(Err(ErrorView::InvalidPostId)),
        Err(error) => PostStepView::Finished(Err(error)),
    }
}

/// The step after the lookup of the author: what the page shows of the post.
pub open spec fn post_after_author(
    state: AwaitingAuthorView,
    reply: Result<Option<UserView>, ErrorView>,
) -> PostStepView {
    PostStepView::Finished(full_post_data(reply, state.post))
}

/// Starts on the page of the post with this id.
pub fn get(id: i32) -> (step: PostStep)
    ensures
        step@ == (PostStepView::FindPost { id }),
{
    PostStep::FindPost { id, then: AwaitingPost { _sealed: () } }
}

impl AwaitingPost {
    /// Takes the store's answer to the lookup of the post.
    pub fn post_found(self, reply: Result<Option<Post>, Error>) -> (step: PostStep)
        ensures
            step@ == post_after_lookup(reply_view(reply)),
    {
        match reply {
            Ok(Some(post)) => PostStep::FindAuthor {
                user_id: post.author,
                then: AwaitingAuthor { post },
            },
            Ok(None) => PostStep::Finished(Err(Error::InvalidPostId)),
            Err(error) => PostStep::Finished(Err(error)),
        }
    }
}

impl AwaitingAuthor {
    /// Takes the store's answer to the lookup of the post's author.
    pub fn author_found(self, reply: Result<Option<User>, Error>) -> (step: PostStep)
        ensures
            step@ == post_after_author(self@, reply_view(reply)),
    {
        PostStep::Finished(FullPostData::from_post(reply, self.post))
    }
}

} // verus!
