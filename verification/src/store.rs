//! The store as the flows may take it to be, and what the flows guarantee of
//! a store that answers so.
//!
//! `StoreModel` is a mathematical picture of the accounts, sessions and posts
//! that a store keeps.  The functions named `..._on` play a flow against such
//! a store, answering each step's request from the model and without a
//! failure of the store; the proof functions state what then comes out.

use crate::application::{
    cookie_token, resolution_after_session, resolution_after_user, resolution_from, ErrorView,
    ResolutionView,
};
use crate::cookie::{hex_decoded, hex_encoded, lemma_decode_inverts_encode};
use crate::login::{
    all_fields_required, login_after_email, login_after_session, login_after_username,
    login_start, matched_account, LoginFormView, LoginOutcomeView, LoginStepView,
};
use crate::index::{
    index_after_author, index_after_list, index_next, short_post_data, IndexStepView,
    ShortPostDataView, LATEST_POSTS,
};
use crate::logout::{farewell, logout_after_removal, logout_start, LogoutStepView};
use crate::models::{NewPostView, NewUserView, PostView, SessionView, Timestamp, UserView};
use crate::new_post::{
    login_needed, new_post_after_creation, new_post_after_identity, new_post_page,
    new_post_start, NewPostFormView, NewPostStepView,
};
use crate::password::digest_accepts;
use crate::post::{
    post_after_author, post_after_lookup, rendered_markdown, FullPostDataView, PostStepView,
};
use crate::register::{
    is_digest_outcome, passwords_differ, register_after_creation, register_after_email,
    register_after_identity, register_after_username, register_start, username_in_use,
    RegisterFormView, RegisterStepView,
};
use crate::timestamp::creation_time_text;
use vstd::prelude::*;

verus! {

/// The accounts, sessions and posts that a store keeps.
pub struct StoreModel {
    /// The accounts, oldest first.
    pub users: Seq<UserView>,
    /// For the token of each session, the id of the session's account.
    pub sessions: Map<Seq<u8>, i32>,
    /// The posts, oldest first.
    pub posts: Seq<PostView>,
}

/// Whether the account at position `i` has this id.
pub open spec fn has_id_at(users: Seq<UserView>, i: int, id: i32) -> bool {
    0 <= i < users.len() && users[i].id == id
}

/// Whether the account at position `i` has this username.
pub open spec fn has_username_at(users: Seq<UserView>, i: int, username: Seq<char>) -> bool {
    0 <= i < users.len() && users[i].username == username
}

/// Whether the account at position `i` has this e-mail address.
pub open spec fn has_email_at(users: Seq<UserView>, i: int, email: Seq<char>) -> bool {
    0 <= i < users.len() && users[i].email == email
}

/// Whether the post at position `i` has this id.
pub open spec fn has_post_id_at(posts: Seq<PostView>, i: int, id: i32) -> bool {
    0 <= i < posts.len() && posts[i].id == id
}

impl StoreModel {
    /// No two accounts share an id, a username or an e-mail address.
    pub open spec fn well_formed(self) -> bool {
        forall|i: int, j: int|
            0 <= i < j < self.users.len() ==> {
                &&& (#[trigger] self.users[i]).id != (#[trigger] self.users[j]).id
                &&& self.users[i].username != self.users[j].username
                &&& self.users[i].email != self.users[j].email
            }
    }

    /// The account with this id, if there is one.
    pub open spec fn get_user_by_id(self, id: i32) -> Option<UserView> {
        if exists|i: int| has_id_at(self.users, i, id) {
            Some(self.users[choose|i: int| has_id_at(self.users, i, id)])
        } else {
            None
        }
    }

    /// The account with this username, if there is one.
    pub open spec fn get_user_by_username(self, username: Seq<char>) -> Option<UserView> {
        if exists|i: int| has_username_at(self.users, i, username) {
            Some(self.users[choose|i: int| has_username_at(self.users, i, username)])
        } else {
            None
        }
    }

    /// The account with this e-mail address, if there is one.
    pub open spec fn get_user_by_email(self, email: Seq<char>) -> Option<UserView> {
        if exists|i: int| has_email_at(self.users, i, email) {
            Some(self.users[choose|i: int| has_email_at(self.users, i, email)])
        } else {
            None
        }
    }

    /// The session with this token, if there is one.
    pub open spec fn get_session_by_key(self, session_key: Seq<u8>) -> Option<SessionView> {
        if self.sessions.contains_key(session_key) {
            Some(SessionView { session_key, user_id: self.sessions[session_key] })
        } else {
            None
        }
    }

    /// The store once it keeps `session` too.
    pub open spec fn create_session(self, session: SessionView) -> StoreModel {
        StoreModel {
            sessions: self.sessions.insert(session.session_key, session.user_id),
            ..self
        }
    }

    /// The store without the session of this token; the same store where it
    /// keeps no such session.
    pub open spec fn remove_session_by_key(self, session_key: Seq<u8>) -> StoreModel {
        StoreModel { sessions: self.sessions.remove(session_key), ..self }
    }

    /// The store once it keeps `user` too, under the id it assigned.
    pub open spec fn create_user(self, id: i32, user: NewUserView) -> StoreModel {
        StoreModel {
            users: self.users.push(
                UserView {
                    id,
                    username: user.username,
                    password: user.password,
                    email: user.email,
                },
            ),
            ..self
        }
    }

    /// The post with this id, if there is one.
    pub open spec fn get_post_by_id(self, id: i32) -> Option<PostView> {
        if exists|i: int| has_post_id_at(self.posts, i, id) {
            Some(self.posts[choose|i: int| has_post_id_at(self.posts, i, id)])
        } else {
            None
        }
    }

    /// The store once it keeps `post` too, under the id it assigned.
    pub open spec fn create_post(self, id: i32, post: NewPostView) -> StoreModel {
        StoreModel {
            posts: self.posts.push(
                PostView {
                    id,
                    author: post.author,
                    created_on: post.created_on,
                    title: post.title,
                    description: post.description,
                    content: post.content,
                },
            ),
            ..self
        }
    }

    /// The account that a cookie stands for: the account of the session whose
    /// token the cookie carries.  Nobody, where the cookie is missing or is
    /// not hexadecimal text, where no session has its token, or where the
    /// session's account is gone.
    pub open spec fn identity_of(self, cookie: Option<Seq<char>>) -> Option<UserView> {
        match cookie_token(cookie) {
            Some(session_key) => match self.get_session_by_key(session_key) {
                Some(session) => self.get_user_by_id(session.user_id),
                None => None,
            },
            None => None,
        }
    }
}

/// The step that follows `step` when the store answers its lookup.
pub open spec fn resolution_answered(store: StoreModel, step: ResolutionView) -> ResolutionView {
    match step {
        ResolutionView::NeedSession { session_key, then } => resolution_after_session(
            then,
            Ok(store.get_session_by_key(session_key)),
        ),
        ResolutionView::NeedUser { user_id, then } => resolution_after_user(
            then,
            Ok(store.get_user_by_id(user_id)),
        ),
        ResolutionView::Resolved(_) => step,
    }
}

/// Where resolution of a request's two cookies stands after four answered
/// lookups, which is as many as it can ask for.
pub open spec fn resolution_on(
    store: StoreModel,
    committed: Option<Seq<char>>,
    pending: Option<Seq<char>>,
) -> ResolutionView {
    resolution_answered(
        store,
        resolution_answered(
            store,
            resolution_answered(
                store,
                resolution_answered(store, resolution_from(committed, pending)),
            ),
        ),
    )
}

/// Resolution against a store that does not fail ends, and ends without a
/// failure.  The account is the one that the committed cookie stands for; only
/// where that cookie stands for nobody, it is the one that the pending cookie
/// stands for.  So one of the two cookies decides, never both.
pub proof fn lemma_resolution_takes_committed_first(
    store: StoreModel,
    committed: Option<Seq<char>>,
    pending: Option<Seq<char>>,
)
    ensures
        resolution_on(store, committed, pending) == ResolutionView::Resolved(
            Ok(
                match store.identity_of(committed) {
                    Some(user) => Some(user),
                    None => store.identity_of(pending),
                },
            ),
        ),
{
}

/// A committed cookie that stands for an account decides the identity,
/// whatever the pending cookie holds.
pub proof fn lemma_committed_cookie_wins(
    store: StoreModel,
    committed: Option<Seq<char>>,
    pending: Option<Seq<char>>,
)
    requires
        store.identity_of(committed) is Some,
    ensures
        resolution_on(store, committed, pending) == ResolutionView::Resolved(
            Ok(store.identity_of(committed)),
        ),
{
    lemma_resolution_takes_committed_first(store, committed, pending);
}

/// Cookies whose tokens name no session in the store resolve to nobody,
/// without a failure.
pub proof fn lemma_unknown_tokens_resolve_to_nobody(
    store: StoreModel,
    committed: Option<Seq<char>>,
    pending: Option<Seq<char>>,
)
    requires
        cookie_token(committed) matches Some(session_key) ==> !store.sessions.contains_key(
            session_key,
        ),
        cookie_token(pending) matches Some(session_key) ==> !store.sessions.contains_key(
            session_key,
        ),
    ensures
        resolution_on(store, committed, pending) == ResolutionView::Resolved(Ok(None)),
{
    lemma_resolution_takes_committed_first(store, committed, pending);
}

/// Cookies that are not hexadecimal text resolve to nobody at once: without a
/// failure and without a single lookup.
pub proof fn lemma_malformed_cookies_resolve_to_nobody(
    committed: Option<Seq<char>>,
    pending: Option<Seq<char>>,
)
    requires
        committed matches Some(value) ==> hex_decoded(value) is None,
        pending matches Some(value) ==> hex_decoded(value) is None,
    ensures
        resolution_from(committed, pending) == ResolutionView::Resolved(Ok(None)),
{
}

/// The step that follows `step`, and the store as it then is, when the store
/// carries out the step's deletion.
pub open spec fn logout_answered(store: StoreModel, step: LogoutStepView) -> (
    LogoutStepView,
    StoreModel,
) {
    match step {
        LogoutStepView::RemoveSession { session_key } => (
            logout_after_removal(Ok(())),
            store.remove_session_by_key(session_key),
        ),
        LogoutStepView::Finished(_) => (step, store),
    }
}

/// How a logout with this committed cookie ends, and the store it leaves.
pub open spec fn logout_on(store: StoreModel, committed: Option<Seq<char>>) -> (
    LogoutStepView,
    StoreModel,
) {
    logout_answered(store, logout_start(committed))
}

/// A logout against a store that does not fail ends well, whatever the
/// cookie: with the session cookie cleared and the visitor sent to the
/// landing page.  It leaves accounts and posts alone, and every session but
/// the cookie's own; and on the store it leaves, the same cookie on a new
/// request stands for nobody.
pub proof fn lemma_logout_makes_cookie_stale(store: StoreModel, committed: Option<Seq<char>>)
    ensures
        logout_on(store, committed).0 == LogoutStepView::Finished(Ok(farewell())),
        logout_on(store, committed).1.users == store.users,
        logout_on(store, committed).1.posts == store.posts,
        forall|session_key: Seq<u8>|
            cookie_token(committed) != Some(session_key) ==> #[trigger] logout_on(
                store,
                committed,
            ).1.get_session_by_key(session_key) == store.get_session_by_key(session_key),
        resolution_on(logout_on(store, committed).1, committed, None) == ResolutionView::Resolved(
            Ok(None),
        ),
{
    lemma_resolution_takes_committed_first(logout_on(store, committed).1, committed, None);
}

/// The step that follows `step`, and the store as it then is, when the
/// step's request is answered.  `who` is the account that the request's
/// cookies resolve to; `hashed` is the outcome of hashing the password, should
/// the step come to that; `new_id` is the id that the store assigns, should it
/// come to keep the account.
pub open spec fn register_answered(
    store: StoreModel,
    step: RegisterStepView,
    who: Option<UserView>,
    hashed: Result<Seq<char>, Seq<char>>,
    new_id: i32,
) -> (RegisterStepView, StoreModel) {
    match step {
        RegisterStepView::ResolveIdentity { then } => (
            register_after_identity(then, Ok(who)),
            store,
        ),
        RegisterStepView::CheckUsername { username, then } => (
            register_after_username(then, Ok(store.get_user_by_username(username))),
            store,
        ),
        RegisterStepView::CheckEmail { email, then } => (
            register_after_email(then, Ok(store.get_user_by_email(email)), hashed),
            store,
        ),
        RegisterStepView::CreateUser { user } => (
            register_after_creation(Ok(())),
            store.create_user(new_id, user),
        ),
        RegisterStepView::Finished(_) => (step, store),
    }
}

/// How a registration with this form ends, and the store it leaves, after
/// four answered requests, which is as many as it can make.
pub open spec fn registration_on(
    store: StoreModel,
    form: RegisterFormView,
    who: Option<UserView>,
    hashed: Result<Seq<char>, Seq<char>>,
    new_id: i32,
) -> (RegisterStepView, StoreModel) {
    let first = register_answered(store, register_start(form), who, hashed, new_id);
    let second = register_answered(first.1, first.0, who, hashed, new_id);
    let third = register_answered(second.1, second.0, who, hashed, new_id);
    register_answered(third.1, third.0, who, hashed, new_id)
}

/// A registration under a username that an account already has is refused
/// with a message for the form, and leaves the store as it was.
pub proof fn lemma_taken_username_is_refused(
    store: StoreModel,
    form: RegisterFormView,
    who: Option<UserView>,
    hashed: Result<Seq<char>, Seq<char>>,
    new_id: i32,
)
    requires
        store.get_user_by_username(form.username) is Some,
    ensures
        registration_on(store, form, who, hashed, new_id).0 == RegisterStepView::Finished(
            Ok(
                Some(
                    if !form.all_fields_populated() {
                        all_fields_required()
                    } else if !form.both_passwords_same() {
                        passwords_differ()
                    } else {
                        username_in_use()
                    },
                ),
            ),
        ),
        registration_on(store, form, who, hashed, new_id).1 == store,
{
}

/// A registration that is not accepted leaves the store as it was; an
/// accepted one has added the one account, under the submitted username and
/// e-mail address, and touched no session.
pub proof fn lemma_registration_stores_only_its_account(
    store: StoreModel,
    form: RegisterFormView,
    who: Option<UserView>,
    hashed: Result<Seq<char>, Seq<char>>,
    new_id: i32,
)
    ensures
        registration_on(store, form, who, hashed, new_id).1.sessions == store.sessions,
        registration_on(store, form, who, hashed, new_id).0 != RegisterStepView::Finished(Ok(None))
            ==> registration_on(store, form, who, hashed, new_id).1 == store,
        registration_on(store, form, who, hashed, new_id).0 == RegisterStepView::Finished(Ok(None))
            ==> {
            &&& hashed matches Ok(digest)
            &&& registration_on(store, form, who, hashed, new_id).1.users == store.users.push(
                UserView {
                    id: new_id,
                    username: form.username,
                    password: digest,
                    email: form.email,
                },
            )
        },
{
}

/// Registration keeps the accounts distinct: on a store where no two accounts
/// share an id, a username or an e-mail address, and which assigns an unused
/// id, none do after a registration, however it ends.
pub proof fn lemma_registration_keeps_accounts_distinct(
    store: StoreModel,
    form: RegisterFormView,
    who: Option<UserView>,
    hashed: Result<Seq<char>, Seq<char>>,
    new_id: i32,
)
    requires
        store.well_formed(),
        store.get_user_by_id(new_id) is None,
    ensures
        registration_on(store, form, who, hashed, new_id).1.well_formed(),
{
    let after = registration_on(store, form, who, hashed, new_id);
    lemma_registration_stores_only_its_account(store, form, who, hashed, new_id);
    if after.0 == RegisterStepView::Finished(Ok(None)) {
        assert(store.get_user_by_username(form.username) is None);
        assert(store.get_user_by_email(form.email) is None);
        let last = store.users.len() as int;
        assert forall|i: int, j: int| 0 <= i < j < after.1.users.len() implies {
            &&& (#[trigger] after.1.users[i]).id != (#[trigger] after.1.users[j]).id
            &&& after.1.users[i].username != after.1.users[j].username
            &&& after.1.users[i].email != after.1.users[j].email
        } by {
            if j == last {
                assert(!has_id_at(store.users, i, new_id));
                assert(!has_username_at(store.users, i, form.username));
                assert(!has_email_at(store.users, i, form.email));
            } else {
                assert(after.1.users[i] == store.users[i]);
                assert(after.1.users[j] == store.users[j]);
            }
        }
    }
}

/// Whether a login has ended accepted.
pub open spec fn login_accepted(step: LoginStepView) -> bool {
    match step {
        LoginStepView::Finished(Ok(LoginOutcomeView::LoggedIn { cookie })) => true,
        _ => false,
    }
}

/// The cookie that a caller has staged once it is handed `step`: the cookie
/// of an accepted ending, which is the only step that hands one out; before
/// that, what it had staged already.
pub open spec fn staged_after(step: LoginStepView, staged: Option<Seq<char>>) -> Option<
    Seq<char>,
> {
    match step {
        LoginStepView::Finished(Ok(LoginOutcomeView::LoggedIn { cookie })) => Some(cookie),
        _ => staged,
    }
}

/// The step that follows `step`, and the store as it then is, when the store
/// answers the step's request.  `drawn` is the outcome of drawing a token,
/// should the step come to that.  A store that already keeps a session under
/// the drawn token keeps no second one: it refuses with `collision`, and
/// stays as it was.
pub open spec fn login_replied(
    store: StoreModel,
    step: LoginStepView,
    drawn: Result<Seq<u8>, ErrorView>,
    collision: ErrorView,
) -> (LoginStepView, StoreModel) {
    match step {
        LoginStepView::FindByUsername { username, then } => (
            login_after_username(then, Ok(store.get_user_by_username(username))),
            store,
        ),
        LoginStepView::FindByEmail { email, then } => (
            login_after_email(then, Ok(store.get_user_by_email(email)), drawn),
            store,
        ),
        LoginStepView::StoreSession { session, then } => if store.sessions.contains_key(
            session.session_key,
        ) {
            (login_after_session(then, Err(collision)), store)
        } else {
            (login_after_session(then, Ok(())), store.create_session(session))
        },
        LoginStepView::Finished(_) => (step, store),
    }
}

/// The step that follows `step`, the store as it then is, and the cookie
/// staged by then.
pub open spec fn login_answered(
    store: StoreModel,
    step: LoginStepView,
    staged: Option<Seq<char>>,
    drawn: Result<Seq<u8>, ErrorView>,
    collision: ErrorView,
) -> (LoginStepView, StoreModel, Option<Seq<char>>) {
    let replied = login_replied(store, step, drawn, collision);
    (replied.0, replied.1, staged_after(replied.0, staged))
}

/// How a login with this form ends, the store it leaves and the cookie it
/// has staged, after three answered requests, which is as many as it can
/// make.
pub open spec fn login_on(
    store: StoreModel,
    form: LoginFormView,
    drawn: Result<Seq<u8>, ErrorView>,
    collision: ErrorView,
) -> (LoginStepView, StoreModel, Option<Seq<char>>) {
    let first = login_answered(store, login_start(form), None, drawn, collision);
    let second = login_answered(first.1, first.0, first.2, drawn, collision);
    login_answered(second.1, second.0, second.2, drawn, collision)
}

/// The account that a login with this form is for, on this store: the one
/// with the submitted name as its username, else the one with it as its
/// e-mail address.
pub open spec fn login_account(store: StoreModel, form: LoginFormView) -> Option<UserView> {
    matched_account(
        store.get_user_by_username(form.username_or_email),
        store.get_user_by_email(form.username_or_email),
    )
}

/// A login is refused or fails without a trace: unless it ends accepted, the
/// store is as it was.  An accepted login was for an account whose digest
/// accepts the submitted password, and it has added exactly one session: the
/// drawn token, which no session had, now names that account.
pub proof fn lemma_login_stores_only_its_session(
    store: StoreModel,
    form: LoginFormView,
    drawn: Result<Seq<u8>, ErrorView>,
    collision: ErrorView,
)
    ensures
        login_on(store, form, drawn, collision).1.users == store.users,
        login_on(store, form, drawn, collision).1.posts == store.posts,
        !login_accepted(login_on(store, form, drawn, collision).0) ==> login_on(
            store,
            form,
            drawn,
            collision,
        ).1 == store,
        login_accepted(login_on(store, form, drawn, collision).0) ==> {
            &&& form.all_fields_populated()
            &&& drawn matches Ok(session_key)
            &&& !store.sessions.contains_key(session_key)
            &&& login_account(store, form) matches Some(user)
            &&& digest_accepts(user.password, form.password)
            &&& login_on(store, form, drawn, collision).1.sessions == store.sessions.insert(
                session_key,
                user.id,
            )
        },
{
    let first = login_answered(store, login_start(form), None, drawn, collision);
    let second = login_answered(first.1, first.0, first.2, drawn, collision);
    let third = login_answered(second.1, second.0, second.2, drawn, collision);
    assert(first.1 == store && second.1 == store);
    if login_accepted(third.0) {
        assert(second.0 is StoreSession);
        assert(first.0 is FindByEmail);
    }
}

/// The cookie follows the session, never the other way round.  A login that
/// does not end accepted has staged no cookie: not where the form or the
/// password is refused, not where a lookup or the draw fails, and not where
/// the store refuses or fails to keep the session.  A login that ends
/// accepted has staged the drawn token in lowercase hexadecimal, and by then
/// the store keeps the session of that token.
pub proof fn lemma_cookie_is_staged_only_for_a_stored_session(
    store: StoreModel,
    form: LoginFormView,
    drawn: Result<Seq<u8>, ErrorView>,
    collision: ErrorView,
)
    ensures
        !login_accepted(login_on(store, form, drawn, collision).0) ==> login_on(
            store,
            form,
            drawn,
            collision,
        ).2 is None,
        login_accepted(login_on(store, form, drawn, collision).0) ==> {
            &&& drawn matches Ok(session_key)
            &&& login_on(store, form, drawn, collision).2 == Some(hex_encoded(session_key))
            &&& login_on(store, form, drawn, collision).0 == LoginStepView::Finished(
                Ok(LoginOutcomeView::LoggedIn { cookie: hex_encoded(session_key) }),
            )
            &&& login_on(store, form, drawn, collision).1.get_session_by_key(session_key) is Some
        },
{
    let first = login_answered(store, login_start(form), None, drawn, collision);
    let second = login_answered(first.1, first.0, first.2, drawn, collision);
    let third = login_answered(second.1, second.0, second.2, drawn, collision);
    assert(first.2 is None);
    assert(second.2 is None) by {
        assert(!(first.0 is StoreSession));
    }
    if login_accepted(third.0) {
        assert(second.0 is StoreSession);
        assert(first.0 is FindByEmail);
    }
}

/// An account registered once logs in.  Take a form that passes every
/// test, with a username and an e-mail address that no account has yet.
/// Against a store that does not fail and that assigns an unused id, and
/// where hashing gave a digest, the registration is accepted.  A login under
/// the same username and password, whose drawn token no session has yet, is
/// accepted too.  On the store it leaves, the staged cookie resolves to an
/// account with the registered username: as the pending cookie of a request
/// without a committed one, and as the committed cookie of any later request.
pub proof fn lemma_registered_account_logs_in(
    store: StoreModel,
    form: RegisterFormView,
    who: Option<UserView>,
    hashed: Result<Seq<char>, Seq<char>>,
    new_id: i32,
    session_key: Seq<u8>,
    collision: ErrorView,
    later_pending: Option<Seq<char>>,
)
    requires
        form.all_fields_populated(),
        form.both_passwords_same(),
        store.get_user_by_username(form.username) is None,
        store.get_user_by_email(form.email) is None,
        store.get_user_by_id(new_id) is None,
        is_digest_outcome(form.password, hashed),
        hashed is Ok,
        !store.sessions.contains_key(session_key),
    ensures
        ({
            let registered = registration_on(store, form, who, hashed, new_id);
            let credentials = LoginFormView {
                username_or_email: form.username,
                password: form.password,
            };
            let logged_in = login_on(registered.1, credentials, Ok(session_key), collision);
            &&& registered.0 == RegisterStepView::Finished(Ok(None))
            &&& logged_in.0 == LoginStepView::Finished(
                Ok(LoginOutcomeView::LoggedIn { cookie: hex_encoded(session_key) }),
            )
            &&& logged_in.2 == Some(hex_encoded(session_key))
            &&& resolution_on(logged_in.1, None, logged_in.2) matches ResolutionView::Resolved(
                Ok(Some(user)),
            )
            &&& user.username == form.username
            &&& resolution_on(logged_in.1, logged_in.2, later_pending)
                == ResolutionView::Resolved(Ok(Some(user)))
        }),
{
    let digest = hashed->Ok_0;
    let registered = registration_on(store, form, who, hashed, new_id);
    let credentials = LoginFormView { username_or_email: form.username, password: form.password };
    let account = UserView {
        id: new_id,
        username: form.username,
        password: digest,
        email: form.email,
    };
    let enrolled = store.create_user(
        new_id,
        NewUserView { username: form.username, password: digest, email: form.email },
    );
    assert(registered.0 == RegisterStepView::Finished(Ok(None)));
    assert(registered.1 == enrolled);
    let last = store.users.len() as int;
    assert(has_username_at(enrolled.users, last, form.username));
    assert forall|i: int| has_username_at(enrolled.users, i, form.username) implies i == last by {
        if i != last {
            assert(has_username_at(store.users, i, form.username));
        }
    }
    assert(enrolled.get_user_by_username(form.username) == Some(account));
    assert(has_id_at(enrolled.users, last, new_id));
    assert forall|i: int| has_id_at(enrolled.users, i, new_id) implies i == last by {
        if i != last {
            assert(has_id_at(store.users, i, new_id));
        }
    }
    assert(enrolled.get_user_by_id(new_id) == Some(account));
    let logged_in = login_on(enrolled, credentials, Ok(session_key), collision);
    let kept = enrolled.create_session(SessionView { session_key, user_id: new_id });
    assert(logged_in.1 == kept);
    assert(logged_in.2 == Some(hex_encoded(session_key)));
    lemma_decode_inverts_encode(session_key);
    assert(kept.get_session_by_key(session_key) == Some(
        SessionView { session_key, user_id: new_id },
    ));
    assert(kept.users == enrolled.users);
    assert(kept.get_user_by_id(new_id) == Some(account));
    assert(kept.identity_of(logged_in.2) == Some(account));
    lemma_resolution_takes_committed_first(kept, None, logged_in.2);
    lemma_resolution_takes_committed_first(kept, logged_in.2, later_pending);
}

/// The step that follows `step`, and the store as it then is, when the
/// step's request is answered.  `who` is the account that the request's
/// cookies resolve to, `now` the time that the clock shows, and `new_id` the
/// id that the store assigns, should it come to keep the post.
pub open spec fn new_post_answered(
    store: StoreModel,
    step: NewPostStepView,
    who: Option<UserView>,
    now: Timestamp,
    new_id: i32,
) -> (NewPostStepView, StoreModel) {
    match step {
        NewPostStepView::ResolveIdentity { then } => (
            new_post_after_identity(then, Ok(who), now),
            store,
        ),
        NewPostStepView::CreatePost { post } => (
            new_post_after_creation(Ok(())),
            store.create_post(new_id, post),
        ),
        NewPostStepView::Finished(_) => (step, store),
    }
}

/// How publishing this form ends, and the store it leaves, after two answered
/// requests, which is as many as it can make.
pub open spec fn publishing_on(
    store: StoreModel,
    form: NewPostFormView,
    who: Option<UserView>,
    now: Timestamp,
    new_id: i32,
) -> (NewPostStepView, StoreModel) {
    let first = new_post_answered(store, new_post_start(form), who, now, new_id);
    new_post_answered(first.1, first.0, who, now, new_id)
}

/// Where the page of a post stands after two answered lookups, which is as
/// many as it can ask for.
pub open spec fn post_page_on(store: StoreModel, id: i32) -> PostStepView {
    match post_after_lookup(Ok(store.get_post_by_id(id))) {
        PostStepView::FindAuthor { user_id, then } => post_after_author(
            then,
            Ok(store.get_user_by_id(user_id)),
        ),
        step => step,
    }
}

/// Nobody publishes: a visitor whose cookies resolve to no account is told to
/// log in, or that a field is empty, and the store stays as it was.
pub proof fn lemma_nobody_publishes(
    store: StoreModel,
    form: NewPostFormView,
    now: Timestamp,
    new_id: i32,
)
    ensures
        publishing_on(store, form, None, now, new_id).0 == NewPostStepView::Finished(
            Ok(
                Some(
                    if form.all_fields_populated() {
                        login_needed()
                    } else {
                        crate::login::all_fields_required()
                    },
                ),
            ),
        ),
        publishing_on(store, form, None, now, new_id).1 == store,
{
}

/// After a logout the visitor is nobody again.  On the store that a logout
/// leaves, a request with the same cookie resolves to nobody; publishing as
/// nobody is refused and stores nothing; and the page for writing a post, as
/// fetched by nobody, says to log in first.
pub proof fn lemma_logged_out_visitor_cannot_publish(
    store: StoreModel,
    committed: Option<Seq<char>>,
    form: NewPostFormView,
    now: Timestamp,
    new_id: i32,
)
    requires
        form.all_fields_populated(),
    ensures
        ({
            let left = logout_on(store, committed).1;
            &&& resolution_on(left, committed, None) == ResolutionView::Resolved(Ok(None))
            &&& publishing_on(left, form, None, now, new_id).0 == NewPostStepView::Finished(
                Ok(Some(login_needed())),
            )
            &&& publishing_on(left, form, None, now, new_id).1 == left
            &&& new_post_page(None).error == Some(login_needed())
        }),
{
    lemma_logout_makes_cookie_stale(store, committed);
    lemma_nobody_publishes(logout_on(store, committed).1, form, now, new_id);
}

/// A published post is shown under its author's name, to whoever asks.  Take
/// a form without an empty field, from a visitor whose cookies resolve to an
/// account of the store, against a store that does not fail and that assigns
/// an unused id.  The post is accepted exactly where its time has a calendar
/// date.  Wherever it is accepted, the page of that id, on the store that is
/// left, shows the author's username, the date, title and description as
/// submitted, and the content rendered from Markdown; and no cookie is needed
/// to be shown it.
pub proof fn lemma_published_post_is_shown(
    store: StoreModel,
    form: NewPostFormView,
    author: UserView,
    now: Timestamp,
    new_id: i32,
)
    requires
        form.all_fields_populated(),
        store.get_user_by_id(author.id) == Some(author),
        store.get_post_by_id(new_id) is None,
    ensures
        publishing_on(store, form, Some(author), now, new_id).0 == NewPostStepView::Finished(
            Ok(None),
        ) <==> creation_time_text(now) is Ok,
        publishing_on(store, form, Some(author), now, new_id).0 == NewPostStepView::Finished(
            Ok(None),
        ) ==> post_page_on(publishing_on(store, form, Some(author), now, new_id).1, new_id)
            == PostStepView::Finished(
            Ok(
                FullPostDataView {
                    author: author.username,
                    human_readable_creation_time: creation_time_text(now)->Ok_0,
                    title: form.title,
                    description: form.description,
                    content: rendered_markdown(form.content),
                },
            ),
        ),
        publishing_on(store, form, Some(author), now, new_id).0 != NewPostStepView::Finished(
            Ok(None),
        ) ==> publishing_on(store, form, Some(author), now, new_id).1 == store,
        resolution_from(None, None) == ResolutionView::Resolved(Ok(None)),
{
    if creation_time_text(now) is Ok {
        let after = publishing_on(store, form, Some(author), now, new_id).1;
        let written = PostView {
            id: new_id,
            author: author.id,
            created_on: now,
            title: form.title,
            description: form.description,
            content: form.content,
        };
        let last = store.posts.len() as int;
        assert(after.posts == store.posts.push(written));
        assert(has_post_id_at(after.posts, last, new_id));
        assert forall|i: int| has_post_id_at(after.posts, i, new_id) implies i == last by {
            if i != last {
                assert(has_post_id_at(store.posts, i, new_id));
            }
        }
        assert(after.get_post_by_id(new_id) == Some(written));
        assert(after.users == store.users);
        assert(after.get_user_by_id(author.id) == Some(author));
    }
}

/// The step that follows `step` when the store answers its request, and lists
/// `listing` when it is asked for the latest posts.
pub open spec fn index_answered(
    store: StoreModel,
    listing: Seq<PostView>,
    step: IndexStepView,
) -> IndexStepView {
    match step {
        IndexStepView::ListPosts { count } => index_after_list(Ok(listing)),
        IndexStepView::FindAuthor { user_id, then } => index_after_author(
            then,
            Ok(store.get_user_by_id(user_id)),
        ),
        IndexStepView::Finished(_) => step,
    }
}

/// Where the landing page stands after `requests` more answered requests.
pub open spec fn index_run(
    store: StoreModel,
    listing: Seq<PostView>,
    step: IndexStepView,
    requests: nat,
) -> IndexStepView
    decreases requests,
{
    if requests == 0 {
        step
    } else {
        index_run(store, listing, index_answered(store, listing, step), (requests - 1) as nat)
    }
}

/// Where the landing page stands once the store has listed `listing` and
/// answered one lookup for each post of it, which is as many requests as the
/// page can make.
pub open spec fn index_on(store: StoreModel, listing: Seq<PostView>) -> IndexStepView {
    index_run(
        store,
        listing,
        IndexStepView::ListPosts { count: LATEST_POSTS },
        listing.len() + 1,
    )
}

/// What the landing page shows of a post of the store.
pub open spec fn listed_post(store: StoreModel, post: PostView) -> Result<
    ShortPostDataView,
    ErrorView,
> {
    short_post_data(Ok(store.get_user_by_id(post.author)), post)
}

/// What the landing page shows of each post of `listing`, in order.
pub open spec fn listed_posts(store: StoreModel, listing: Seq<PostView>) -> Seq<
    ShortPostDataView,
> {
    Seq::new(listing.len(), |i: int| listed_post(store, listing[i])->Ok_0)
}

/// From any post onwards, the landing page goes through the posts in order.
proof fn lemma_index_goes_on(
    store: StoreModel,
    listing: Seq<PostView>,
    later: Seq<PostView>,
    listed: Seq<ShortPostDataView>,
)
    requires
        forall|i: int| 0 <= i < later.len() ==> (#[trigger] listed_post(store, later[i])) is Ok,
    ensures
        index_run(store, listing, index_next(later, listed), later.len())
            == IndexStepView::Finished(Ok(listed + listed_posts(store, later))),
    decreases later.len(),
{
    if later.len() == 0 {
        assert(listed + listed_posts(store, later) =~= listed);
    } else {
        let shown = listed_post(store, later[0]);
        assert(shown is Ok);
        let rest = later.drop_first();
        assert forall|i: int| 0 <= i < rest.len() implies (#[trigger] listed_post(
            store,
            rest[i],
        )) is Ok by {
            assert(rest[i] == later[i + 1]);
        }
        lemma_index_goes_on(store, listing, rest, listed.push(shown->Ok_0));
        assert(index_answered(store, listing, index_next(later, listed)) == index_next(
            rest,
            listed.push(shown->Ok_0),
        ));
        assert(listed.push(shown->Ok_0) + listed_posts(store, rest) =~= listed + listed_posts(
            store,
            later,
        )) by {
            assert forall|i: int| 0 <= i < rest.len() implies listed_posts(store, rest)[i]
                == listed_posts(store, later)[i + 1] by {
                assert(rest[i] == later[i + 1]);
            }
        }
    }
}

/// The landing page shows the posts that the store lists, in the store's
/// order and each under its author's name, where every one of them can be
/// shown: where its author is an account of the store and its creation time
/// has a date.
pub proof fn lemma_index_lists_in_order(store: StoreModel, listing: Seq<PostView>)
    requires
        forall|i: int| 0 <= i < listing.len() ==> (#[trigger] listed_post(store, listing[i])) is Ok,
    ensures
        index_on(store, listing) == IndexStepView::Finished(Ok(listed_posts(store, listing))),
{
    lemma_index_goes_on(store, listing, listing, Seq::empty());
    assert(Seq::<ShortPostDataView>::empty() + listed_posts(store, listing) =~= listed_posts(
        store,
        listing,
    ));
    assert(index_answered(store, listing, IndexStepView::ListPosts { count: LATEST_POSTS })
        == index_next(listing, Seq::empty()));
}

} // verus!
