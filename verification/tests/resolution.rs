use postboard::application::{BaseLayoutContext, Error, Resolution};
use postboard::models::{Session, User};

struct Store {
    users: Vec<User>,
    sessions: Vec<Session>,
    calls: Vec<String>,
    failing: bool,
}

impl Store {
    fn new() -> Store {
        Store { users: Vec::new(), sessions: Vec::new(), calls: Vec::new(), failing: false }
    }

    fn with_user(mut self, id: i32, username: &str) -> Store {
        self.users.push(User {
            id,
            username: username.to_string(),
            password: String::from("digest"),
            email: format!("{}@x.com", username),
        });
        self
    }

    fn with_session(mut self, session_key: &[u8], user_id: i32) -> Store {
        self.sessions.push(Session { session_key: session_key.to_vec(), user_id });
        self
    }

    fn get_session_by_key(&mut self, session_key: &[u8]) -> Result<Option<Session>, Error> {
        self.calls.push(format!("session {:?}", session_key));
        if self.failing {
            return Err(Error::FailedOnADatabaseQuery(String::from("connection lost")));
        }
        Ok(self.sessions.iter().find(|session| session.session_key == session_key).cloned())
    }

    fn get_user_by_id(&mut self, id: i32) -> Result<Option<User>, Error> {
        self.calls.push(format!("user {}", id));
        if self.failing {
            return Err(Error::FailedOnADatabaseQuery(String::from("connection lost")));
        }
        Ok(self.users.iter().find(|user| user.id == id).cloned())
    }
}

fn resolve(
    store: &mut Store,
    committed: Option<&str>,
    pending: Option<&str>,
) -> Result<Option<User>, Error> {
    let mut step = BaseLayoutContext::get_valid_user_info(
        committed.map(String::from),
        pending.map(String::from),
    );
    loop {
        step = match step {
            Resolution::NeedSession { session_key, then } => {
                then.session_found(store.get_session_by_key(&session_key))
            }
            Resolution::NeedUser { user_id, then } => then.user_found(store.get_user_by_id(user_id)),
            Resolution::Resolved(outcome) => return outcome,
        };
    }
}

fn username(outcome: Result<Option<User>, Error>) -> Option<String> {
    outcome.unwrap().map(|user| user.username)
}

#[test]
fn no_cookie_is_nobody_without_a_lookup() {
    let mut store = Store::new().with_user(1, "alice").with_session(&[1, 2], 1);
    assert_eq!(resolve(&mut store, None, None), Ok(None));
    assert!(store.calls.is_empty());
}

#[test]
fn cookie_that_is_not_hex_is_nobody() {
    let mut store = Store::new().with_user(1, "alice").with_session(&[1, 2], 1);
    assert_eq!(resolve(&mut store, Some("zz"), None), Ok(None));
    assert_eq!(resolve(&mut store, None, Some("zz")), Ok(None));
    assert_eq!(resolve(&mut store, Some("zz"), Some("zz")), Ok(None));
    assert!(store.calls.is_empty());
}

#[test]
fn cookie_of_odd_length_is_nobody() {
    let mut store = Store::new().with_user(1, "alice").with_session(&[1, 2], 1);
    assert_eq!(resolve(&mut store, Some("010"), None), Ok(None));
    assert_eq!(resolve(&mut store, Some("0102 "), None), Ok(None));
    assert_eq!(resolve(&mut store, Some("é"), None), Ok(None));
    assert!(store.calls.is_empty());
}

#[test]
fn cookie_is_decoded_two_digits_to_a_byte() {
    let step = BaseLayoutContext::get_valid_user_info(Some(String::from("000a10ff")), None);
    match step {
        Resolution::NeedSession { session_key, .. } => assert_eq!(session_key, vec![0, 10, 16, 255]),
        _ => panic!("a session lookup was due"),
    }
}

#[test]
fn cookie_digits_may_be_of_either_case() {
    let step = BaseLayoutContext::get_valid_user_info(Some(String::from("aBCdEf09")), None);
    match step {
        Resolution::NeedSession { session_key, .. } => {
            assert_eq!(session_key, vec![0xab, 0xcd, 0xef, 0x09])
        }
        _ => panic!("a session lookup was due"),
    }
}

#[test]
fn empty_cookie_carries_the_empty_token() {
    let mut store = Store::new().with_user(1, "alice");
    assert_eq!(resolve(&mut store, Some(""), None), Ok(None));
    assert_eq!(store.calls, vec![String::from("session []")]);
}

#[test]
fn unknown_token_is_nobody_without_error() {
    let mut store = Store::new().with_user(1, "alice").with_session(&[1, 2], 1);
    assert_eq!(resolve(&mut store, Some("0a0b"), None), Ok(None));
    assert_eq!(resolve(&mut store, None, Some("0a0b")), Ok(None));
    assert_eq!(resolve(&mut store, Some("0a0b"), Some("0c0d")), Ok(None));
}

#[test]
fn known_token_resolves_to_its_account() {
    let mut store = Store::new().with_user(1, "alice").with_user(2, "bob").with_session(&[1, 2], 2);
    assert_eq!(username(resolve(&mut store, Some("0102"), None)), Some(String::from("bob")));
    assert_eq!(store.calls, vec![String::from("session [1, 2]"), String::from("user 2")]);
}

#[test]
fn committed_cookie_wins_over_pending() {
    let mut store = Store::new()
        .with_user(1, "alice")
        .with_user(2, "bob")
        .with_session(&[0xaa], 1)
        .with_session(&[0xbb], 2);
    assert_eq!(username(resolve(&mut store, Some("aa"), Some("bb"))), Some(String::from("alice")));
    assert_eq!(store.calls, vec![String::from("session [170]"), String::from("user 1")]);
}

#[test]
fn pending_cookie_is_tried_when_committed_is_absent() {
    let mut store = Store::new().with_user(2, "bob").with_session(&[0xbb], 2);
    assert_eq!(username(resolve(&mut store, None, Some("bb"))), Some(String::from("bob")));
}

#[test]
fn pending_cookie_is_tried_when_committed_is_malformed() {
    let mut store = Store::new().with_user(2, "bob").with_session(&[0xbb], 2);
    assert_eq!(username(resolve(&mut store, Some("zz"), Some("bb"))), Some(String::from("bob")));
}

#[test]
fn pending_cookie_is_tried_when_committed_is_stale() {
    let mut store = Store::new().with_user(2, "bob").with_session(&[0xbb], 2);
    assert_eq!(username(resolve(&mut store, Some("aa"), Some("bb"))), Some(String::from("bob")));
    assert_eq!(
        store.calls,
        vec![String::from("session [170]"), String::from("session [187]"), String::from("user 2")]
    );
}

#[test]
fn session_of_a_missing_account_is_nobody() {
    let mut store = Store::new().with_session(&[0xaa], 9);
    assert_eq!(resolve(&mut store, Some("aa"), None), Ok(None));
    assert_eq!(store.calls, vec![String::from("session [170]"), String::from("user 9")]);
}

#[test]
fn pending_cookie_is_tried_when_committed_account_is_missing() {
    let mut store = Store::new().with_user(2, "bob").with_session(&[0xaa], 9).with_session(&[0xbb], 2);
    assert_eq!(username(resolve(&mut store, Some("aa"), Some("bb"))), Some(String::from("bob")));
    assert_eq!(
        store.calls,
        vec![
            String::from("session [170]"),
            String::from("user 9"),
            String::from("session [187]"),
            String::from("user 2")
        ]
    );
}

#[test]
fn store_failure_on_session_lookup_is_a_failure() {
    let mut store = Store::new().with_user(2, "bob").with_session(&[0xbb], 2);
    store.failing = true;
    assert_eq!(
        resolve(&mut store, Some("aa"), Some("bb")),
        Err(Error::FailedOnADatabaseQuery(String::from("connection lost")))
    );
    assert_eq!(store.calls, vec![String::from("session [170]")]);
}

#[test]
fn store_failure_on_account_lookup_is_a_failure() {
    let step = BaseLayoutContext::get_valid_user_info(Some(String::from("aa")), Some(String::from("bb")));
    let step = match step {
        Resolution::NeedSession { then, .. } => {
            then.session_found(Ok(Some(Session { session_key: vec![0xaa], user_id: 4 })))
        }
        _ => panic!("a session lookup was due"),
    };
    let step = match step {
        Resolution::NeedUser { user_id, then } => {
            assert_eq!(user_id, 4);
            then.user_found(Err(Error::FailedOnADatabaseQuery(String::from("timeout"))))
        }
        _ => panic!("an account lookup was due"),
    };
    match step {
        Resolution::Resolved(outcome) => {
            assert_eq!(outcome, Err(Error::FailedOnADatabaseQuery(String::from("timeout"))))
        }
        _ => panic!("resolution was due to end"),
    }
}

#[test]
fn base_context_carries_the_username() {
    let user = User {
        id: 3,
        username: String::from("carol"),
        password: String::from("digest"),
        email: String::from("c@x.com"),
    };
    assert_eq!(
        BaseLayoutContext::new(Ok(Some(user))),
        Ok(BaseLayoutContext { username: Some(String::from("carol")) })
    );
    assert_eq!(BaseLayoutContext::new(Ok(None)), Ok(BaseLayoutContext { username: None }));
    assert_eq!(
        BaseLayoutContext::new(Err(Error::UnableToConnectToDatabase)),
        Err(Error::UnableToConnectToDatabase)
    );
}
