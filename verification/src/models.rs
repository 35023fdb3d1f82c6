//! The records that the store keeps, and the values that stand for them in
//! contracts.

use vstd::prelude::*;

verus! {

/// A registered account.
#[derive(Debug, Clone, PartialEq, Eq)]
pub struct User {
    pub id: i32,
    pub username: String,
    pub password: String,
    pub email: String,
}

/// What a `User` holds.
pub struct UserView {
    pub id: i32,
    pub username: Seq<char>,
    pub password: Seq<char>,
    pub email: Seq<char>,
}

impl View for User {
    type V = UserView;

    open spec fn view(&self) -> UserView {
        UserView {
            id: self.id,
            username: self.username@,
            password: self.password@,
            email: self.email@,
        }
    }
}

/// An account about to be registered; the store assigns its id.
#[derive(Debug, Clone, PartialEq, Eq)]
pub struct NewUser {
    pub username: String,
    pub password: String,
    pub email: String,
}

/// What a `NewUser` holds.
pub struct NewUserView {
    pub username: Seq<char>,
    pub password: Seq<char>,
    pub email: Seq<char>,
}

impl View for NewUser {
    type V = NewUserView;

    open spec fn view(&self) -> NewUserView {
        NewUserView { username: self.username@, password: self.password@, email: self.email@ }
    }
}

/// A login session: the token that names it and the account it belongs to.
#[derive(Debug, Clone, PartialEq, Eq)]
pub struct Session {
    pub session_key: Vec<u8>,
    pub user_id: i32,
}

/// What a `Session` holds.
pub struct SessionView {
    pub session_key: Seq<u8>,
    pub user_id: i32,
}

impl View for Session {
    type V = SessionView;

    open spec fn view(&self) -> SessionView {
        SessionView { session_key: self.session_key@, user_id: self.user_id }
    }
}

/// A point in time: whole seconds since the start of 1970 in UTC, and the
/// nanoseconds past that second.
#[derive(Debug, Clone, Copy, PartialEq, Eq)]
pub struct Timestamp {
    pub seconds: i64,
    pub nanoseconds: u32,
}

/// A published post.
#[derive(Debug, Clone, PartialEq, Eq)]
pub struct Post {
    pub id: i32,
    pub author: i32,
    pub created_on: Timestamp,
    pub title: String,
    pub description: String,
    pub content: String,
}

/// What a `Post` holds.
pub struct PostView {
    pub id: i32,
    pub author: i32,
    pub created_on: Timestamp,
    pub title: Seq<char>,
    pub description: Seq<char>,
    pub content: Seq<char>,
}

impl View for Post {
    type V = PostView;

    open spec fn view(&self) -> PostView {
        PostView {
            id: self.id,
            author: self.author,
            created_on: self.created_on,
            title: self.title@,
            description: self.description@,
            content: self.content@,
        }
    }
}

/// A post about to be published; the store assigns its id.
#[derive(Debug, Clone, PartialEq, Eq)]
pub struct NewPost {
    pub title: String,
    pub author: i32,
    pub created_on: Timestamp,
    pub description: String,
    pub content: String,
}

/// What a `NewPost` holds.
pub struct NewPostView {
    pub title: Seq<char>,
    pub author: i32,
    pub created_on: Timestamp,
    pub description: Seq<char>,
    pub content: Seq<char>,
}

impl View for NewPost {
    type V = NewPostView;

    open spec fn view(&self) -> NewPostView {
        NewPostView {
            title: self.title@,
            author: self.author,
            created_on: self.created_on,
            description: self.description@,
            content: self.content@,
        }
    }
}

/// The view of a value that may be absent.
pub open spec fn option_view<T: View>(value: Option<T>) -> Option<T::V> {
    match value {
        Some(inner) => Some(inner@),
        None => None,
    }
}

/// The views of the items of a list, in order.
pub open spec fn list_view<T: View>(items: Seq<T>) -> Seq<T::V> {
    items.map_values(|item: T| item@)
}

} // verus!
