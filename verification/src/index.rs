//! The landing page: the latest posts, each with its author's name.

use crate::application::{
    base_context_of, reply_view, BaseLayoutContext, BaseLayoutContextView, Error, ErrorView,
};
use crate::models::{list_view, Post, PostView, User, UserView};
use crate::timestamp::{creation_time_text, human_readable_creation_time};
use vstd::prelude::*;

verus! {

/// How many posts the landing page lists at most.
pub const LATEST_POSTS: i64 = 10;

/// What the landing page shows of a post.
#[derive(Debug, Clone, PartialEq, Eq)]
pub struct ShortPostData {
    pub author: String,
    pub human_readable_creation_time: String,
    pub title: String,
    pub description: String,
}

/// What a `ShortPostData` holds.
pub struct ShortPostDataView {
    pub author: Seq<char>,
    pub human_readable_creation_time: Seq<char>,
    pub title: Seq<char>,
    pub description: Seq<char>,
}

impl View for ShortPostData {
    type V = ShortPostDataView;

    open spec fn view(&self) -> ShortPostDataView {
        ShortPostDataView {
            author: self.author@,
            human_readable_creation_time: self.human_readable_creation_time@,
            title: self.title@,
            description: self.description@,
        }
    }
}

/// The view of what the landing page shows of a post, or of the error in its
/// place.
pub open spec fn short_post_view(outcome: Result<ShortPostData, Error>) -> Result<
    ShortPostDataView,
    ErrorView,
> {
    match outcome {
        Ok(data) => Ok(data@),
        Err(error) => Err(error@),
    }
}

/// What the landing page shows of `post`, given the store's answer to the
/// lookup of its author: the author's username, the creation time as a date,
/// and title and description as they are.  A post without its author is in
/// error, as is one without a date; a failure of the store stays one.
pub open spec fn short_post_data(
    author: Result<Option<UserView>, ErrorView>,
    post: PostView,
) -> Result<ShortPostDataView, ErrorView> {
    match author {
        Ok(Some(user)) => match creation_time_text(post.created_on) {
            Ok(human_readable_creation_time) => Ok(
                ShortPostDataView {
                    author: user.username,
                    human_readable_creation_time,
                    title: post.title,
                    description: post.description,
                },
            ),
            Err(error) => Err(error),
        },
        Ok(None) => Err(ErrorView::PostHasInvalidUserId),
        Err(error) => Err(error),
    }
}

impl ShortPostData {
    /// Makes what the landing page shows of `post` from the store's answer to
    /// the lookup of its author.
    pub fn from_post(author: Result<Option<User>, Error>, post: Post) -> (data: Result<
        ShortPostData,
        Error,
    >)
        ensures
            short_post_view(data) == short_post_data(reply_view(author), post@),
    {
        let author = match author {
            Ok(Some(user)) => user.username,
            Ok(None) => {
                return Err(Error::PostHasInvalidUserId);
            },
            Err(error) => {
                return Err(error);
            },
        };
        let human_readable_creation_time = match human_readable_creation_time(post.created_on) {
            Ok(text) => text,
            Err(error) => {
                return Err(error);
            },
        };
        Ok(
            ShortPostData {
                author,
                title: post.title,
                description: post.description,
                human_readable_creation_time,
            },
        )
    }
}

/// What the landing page is rendered from.
#[derive(Debug, Clone, PartialEq, Eq)]
pub struct IndexLayoutContext {
    pub base_context: BaseLayoutContext,
    pub posts: Vec<ShortPostData>,
}

/// What an `IndexLayoutContext` holds.
pub struct IndexLayoutContextView {
    pub base_context: BaseLayoutContextView,
    pub posts: Seq<ShortPostDataView>,
}

impl View for IndexLayoutContext {
    type V = IndexLayoutContextView;

    open spec fn view(&self) -> IndexLayoutContextView {
        IndexLayoutContextView {
            base_context: self.base_context@,
            posts: list_view(self.posts@),
        }
    }
}

impl IndexLayoutContext {
    /// The landing page for the outcome of resolution; the store's failure
    /// where resolution failed.
    pub fn new(posts: Vec<ShortPostData>, user_info: Result<Option<User>, Error>) -> (context:
        Result<IndexLayoutContext, Error>)
        ensures
            match reply_view(user_info) {
                Ok(found) => context matches Ok(made) && made@ == (IndexLayoutContextView {
                    base_context: base_context_of(found),
                    posts: list_view(posts@),
                }),
                Err(error) => context matches Err(raised) && raised@ == error,
            },
    {
        match BaseLayoutContext::new(user_info) {
            Ok(base_context) => Ok(IndexLayoutContext { base_context, posts }),
            Err(error) => Err(error),
        }
    }
}

/// Waiting for the store's list of the latest posts.
pub struct AwaitingPosts {
    _sealed: (),
}

/// Waiting for the store's answer to the lookup of one post's author.
pub struct AwaitingAuthor {
    current: Post,
    later: Vec<Post>,
    listed: Vec<ShortPostData>,
}

/// What an `AwaitingAuthor` holds: the post whose author is looked up, the
/// posts still to come after it, and what is listed of the posts before it.
pub struct AwaitingAuthorView {
    pub current: PostView,
    pub later: Seq<PostView>,
    pub listed: Seq<ShortPostDataView>,
}

impl View for AwaitingAuthor {
    type V = AwaitingAuthorView;

    closed spec fn view(&self) -> AwaitingAuthorView {
        AwaitingAuthorView {
            current: self.current@,
            later: list_view(self.later@),
            listed: list_view(self.listed@),
        }
    }
}

/// One step towards the landing page.
#[allow(inconsistent_fields)]
pub enum IndexStep {
    /// List this many of the latest posts, newest first, and answer with
    /// `posts_listed`.
    ListPosts { count: i64, then: AwaitingPosts },
    /// Look the account with this id up, and answer with `author_found`.
    FindAuthor { user_id: i32, then: AwaitingAuthor },
    /// What the page shows of the posts, in the store's order; or why there
    /// is no page.
    Finished(Result<Vec<ShortPostData>, Error>),
}

/// What an `IndexStep` holds.
pub enum IndexStepView {
    ListPosts { count: i64 },
    FindAuthor { user_id: i32, then: AwaitingAuthorView },
    Finished(Result<Seq<ShortPostDataView>, ErrorView>),
}

impl View for IndexStep {
    type V = IndexStepView;

    open spec fn view(&self) -> IndexStepView {
        match *self {
            IndexStep::ListPosts { count, then } => IndexStepView::ListPosts { count },
            IndexStep::FindAuthor { user_id, then } => IndexStepView::FindAuthor {
                user_id,
                then: then@,
            },
            IndexStep::Finished(outcome) => IndexStepView::Finished(
                match outcome {
                    Ok(listed) => Ok(list_view(listed@)),
                    Err(error) => Err(error@),
                },
            ),
        }
    }
}

/// The view of the store's list of posts.
pub open spec fn posts_view(reply: Result<Vec<Post>, Error>) -> Result<Seq<PostView>, ErrorView> {
    match reply {
        Ok(posts) => Ok(list_view(posts@)),
        Err(error) => Err(error@),
    }
}

/// The step that goes on to the next post: the lookup of its author, or the
/// end where every post is listed.
pub open spec fn index_next(
    later: Seq<PostView>,
    listed: Seq<ShortPostDataView>,
) -> IndexStepView {
    if later.len() == 0 {
        IndexStepView::Finished(Ok(listed))
    } else {
        IndexStepView::FindAuthor {
            user_id: later[0].author,
            then: AwaitingAuthorView { current: later[0], later: later.drop_first(), listed },
        }
    }
}

/// The step after the store listed the posts: on to the first of them; the
/// failure where the store failed.
pub open spec fn index_after_list(reply: Result<Seq<PostView>, ErrorView>) -> IndexStepView {
    match reply {
        Ok(posts) => index_next(posts, Seq::empty()),
        Err(error) => IndexStepView::Finished(Err(error)),
    }
}

/// The step after the lookup of an author: the post is listed after those
/// before it, and the next post has its turn; a post that cannot be shown
/// ends the page in error.
pub open spec fn index_after_author(
    state: AwaitingAuthorView,
    reply: Result<Option<UserView>, ErrorView>,
) -> IndexStepView {
    match short_post_data(reply, state.current) {
        Ok(data) => index_next(state.later, state.listed.push(data)),
        Err(error) => IndexStepView::Finished(Err(error)),
    }
}

/// Goes on to the next post.
fn next_post(later: Vec<Post>, listed: Vec<ShortPostData>) -> (step: IndexStep)
    ensures
        step@ == index_next(list_view(later@), list_view(listed@)),
{
    let mut later = later;
    if later.len() == 0 {
        return IndexStep::Finished(Ok(listed));
    }
    let ghost before = later@;
    let current = later.remove(0);
    proof {
        assert(list_view(later@) =~= list_view(before).drop_first());
    }
    IndexStep::FindAuthor {
        user_id: current.author,
        then: AwaitingAuthor { current, later, listed },
    }
}

/// Starts on the landing page.
pub fn get() -> (step: IndexStep)
    ensures
        step@ == (IndexStepView::ListPosts { count: LATEST_POSTS }),
{
    IndexStep::ListPosts { count: LATEST_POSTS, then: AwaitingPosts { _sealed: () } }
}

impl AwaitingPosts {
    /// Takes the store's list of the latest posts.
    pub fn posts_listed(self, reply: Result<Vec<Post>, Error>) -> (step: IndexStep)
        ensures
            step@ == index_after_list(posts_view(reply)),
    {
        match reply {
            Ok(posts) => {
                let listed: Vec<ShortPostData> = Vec::new();
                proof {
                    assert(list_view(listed@) =~= Seq::<ShortPostDataView>::empty());
                }
                next_post(posts, listed)
            },
            Err(error) => IndexStep::Finished(Err(error)),
        }
    }
}

impl AwaitingAuthor {
    /// Takes the store's answer to the lookup of the current post's author.
    pub fn author_found(self, reply: Result<Option<User>, Error>) -> (step: IndexStep)
        ensures
            step@ == index_after_author(self@, reply_view(reply)),
    {
        let mut listed = self.listed;
        match ShortPostData::from_post(reply, self.current) {
            Ok(data) => {
                let ghost before = listed@;
                listed.push(data);
                proof {
                    assert(list_view(listed@) =~= list_view(before).push(data@));
                }
                next_post(self.later, listed)
            },
            Err(error) => IndexStep::Finished(Err(error)),
        }
    }
}

} // verus!
