use postboard::application::{error_message, BaseLayoutContext, Error};
use postboard::database::{diesel_result, diesel_result_to_option, QueryOutcome};
use postboard::index::{IndexLayoutContext, ShortPostData};
use postboard::login::{self, LoginForm, LoginLayoutContext, LoginOutcome};
use postboard::models::{Timestamp, User};
use postboard::new_post::{self, NewPostForm, NewPostLayoutContext};
use postboard::post::{FullPostData, PostLayoutContext};
use postboard::register::{self, RegisterForm, RegisterLayoutContext};
use postboard::timestamp::human_readable_creation_time;

fn alice() -> User {
    User {
        id: 1,
        username: String::from("alice"),
        password: String::from("digest"),
        email: String::from("a@x.com"),
    }
}

fn nobody() -> BaseLayoutContext {
    BaseLayoutContext { username: None }
}

fn text(value: &str) -> Option<String> {
    Some(value.to_string())
}

#[test]
fn error_messages_are_worded_per_kind() {
    assert_eq!(
        error_message(&Error::MissingDatabaseUrl),
        "Missing database URL in the server configuration"
    );
    assert_eq!(
        error_message(&Error::UnableToConnectToDatabase),
        "Unable to connect to the provided database URL"
    );
    assert_eq!(
        error_message(&Error::FailedOnADatabaseQuery(String::from("timeout"))),
        "Failed on a database query: timeout"
    );
    assert_eq!(
        error_message(&Error::FailedOnABcryptFunction(String::from("Invalid hash: x"))),
        "Failed on a bcrypt function: Invalid hash: x"
    );
    assert_eq!(error_message(&Error::RandError(String::from("error code 7"))), "Rand error: error code 7");
    assert_eq!(
        error_message(&Error::PostHasInvalidUserId),
        "A post refers to an author that does not exist"
    );
    assert_eq!(
        error_message(&Error::PostHasInvalidCreationTime),
        "A post carries an invalid creation time"
    );
    assert_eq!(error_message(&Error::InvalidPostId), "No post exists with that id");
}

#[test]
fn error_message_keeps_an_empty_detail() {
    assert_eq!(error_message(&Error::RandError(String::new())), "Rand error: ");
}

#[test]
fn not_found_is_absence_and_other_failures_are_errors() {
    assert_eq!(diesel_result_to_option(QueryOutcome::Found(5)), Ok(Some(5)));
    assert_eq!(diesel_result_to_option(QueryOutcome::<i32>::NotFound), Ok(None));
    assert_eq!(
        diesel_result_to_option(QueryOutcome::<i32>::Failed(String::from("syntax"))),
        Err(Error::FailedOnADatabaseQuery(String::from("syntax")))
    );
}

#[test]
fn statement_outcome_keeps_rows_and_wraps_failures() {
    assert_eq!(diesel_result(Ok(vec![1, 2])), Ok(vec![1, 2]));
    assert_eq!(diesel_result(Ok(())), Ok(()));
    assert_eq!(
        diesel_result::<()>(Err(String::from("duplicate"))),
        Err(Error::FailedOnADatabaseQuery(String::from("duplicate")))
    );
}

#[test]
fn creation_time_is_written_day_month_year_time() {
    assert_eq!(
        human_readable_creation_time(Timestamp { seconds: 1_431_648_000, nanoseconds: 0 }),
        Ok(String::from("15. 05. 2015. 00:00:00"))
    );
    assert_eq!(
        human_readable_creation_time(Timestamp { seconds: 951_782_399, nanoseconds: 999_999_999 }),
        Ok(String::from("28. 02. 2000. 23:59:59"))
    );
    assert_eq!(
        human_readable_creation_time(Timestamp { seconds: -1, nanoseconds: 0 }),
        Ok(String::from("31. 12. 1969. 23:59:59"))
    );
}

#[test]
fn creation_time_beyond_the_calendar_is_an_error() {
    assert_eq!(
        human_readable_creation_time(Timestamp { seconds: i64::MAX, nanoseconds: 0 }),
        Err(Error::PostHasInvalidCreationTime)
    );
    assert_eq!(
        human_readable_creation_time(Timestamp { seconds: 0, nanoseconds: u32::MAX }),
        Err(Error::PostHasInvalidCreationTime)
    );
}

#[test]
fn login_form_needs_both_fields() {
    let form = |name: &str, password: &str| LoginForm {
        username_or_email: name.to_string(),
        password: password.to_string(),
    };
    assert!(form("a", "b").all_fields_populated());
    assert!(!form("", "b").all_fields_populated());
    assert!(!form("a", "").all_fields_populated());
    assert!(!form("", "").all_fields_populated());
    assert!(form(" ", " ").all_fields_populated());
}

#[test]
fn register_form_needs_all_four_fields() {
    let form = |username: &str, email: &str, password: &str, repeat: &str| RegisterForm {
        username: username.to_string(),
        email: email.to_string(),
        password: password.to_string(),
        password_repeat: repeat.to_string(),
    };
    assert!(form("u", "e", "p", "q").all_fields_populated());
    assert!(!form("", "e", "p", "q").all_fields_populated());
    assert!(!form("u", "", "p", "q").all_fields_populated());
    assert!(!form("u", "e", "", "q").all_fields_populated());
    assert!(!form("u", "e", "p", "").all_fields_populated());
    assert!(form("u", "e", "p", "p").both_passwords_same());
    assert!(!form("u", "e", "p", "P").both_passwords_same());
    assert!(form("u", "e", "", "").both_passwords_same());
}

#[test]
fn name_is_free_where_the_lookup_found_nobody() {
    assert_eq!(RegisterForm::username_is_free(Ok(None)), Ok(true));
    assert_eq!(RegisterForm::username_is_free(Ok(Some(alice()))), Ok(false));
    assert_eq!(
        RegisterForm::username_is_free(Err(Error::UnableToConnectToDatabase)),
        Err(Error::UnableToConnectToDatabase)
    );
    assert_eq!(RegisterForm::email_is_free(Ok(None)), Ok(true));
    assert_eq!(RegisterForm::email_is_free(Ok(Some(alice()))), Ok(false));
    assert_eq!(
        RegisterForm::email_is_free(Err(Error::UnableToConnectToDatabase)),
        Err(Error::UnableToConnectToDatabase)
    );
}

#[test]
fn new_post_form_needs_all_three_fields() {
    let form = |title: &str, description: &str, content: &str| NewPostForm {
        title: title.to_string(),
        description: description.to_string(),
        content: content.to_string(),
    };
    assert!(form("t", "d", "c").all_fields_populated());
    assert!(!form("", "d", "c").all_fields_populated());
    assert!(!form("t", "", "c").all_fields_populated());
    assert!(!form("t", "d", "").all_fields_populated());
}

#[test]
fn login_page_starts_blank_and_takes_each_part() {
    let page = LoginLayoutContext::new(Ok(Some(alice()))).unwrap();
    assert_eq!(
        page,
        LoginLayoutContext {
            base_context: BaseLayoutContext { username: text("alice") },
            previous_username_or_email: None,
            error: None,
            success: None,
        }
    );
    let page = page.with_previous_username_or_email(text("al")).with_error(text("no")).with_success(text("yes"));
    assert_eq!(
        page,
        LoginLayoutContext {
            base_context: BaseLayoutContext { username: text("alice") },
            previous_username_or_email: text("al"),
            error: text("no"),
            success: text("yes"),
        }
    );
    let page = page.with_error(None);
    assert_eq!(page.error, None);
    assert_eq!(page.success, text("yes"));
    assert_eq!(
        LoginLayoutContext::new(Err(Error::UnableToConnectToDatabase)),
        Err(Error::UnableToConnectToDatabase)
    );
}

#[test]
fn login_page_after_a_refusal_shows_the_name_and_never_the_password() {
    let form = LoginForm { username_or_email: String::from("al"), password: String::from("hunter2") };
    let refused = LoginOutcome::Refused {
        message: String::from("Invalid username/e-mail or password provided."),
    };
    let accepted = LoginOutcome::LoggedIn { cookie: String::from("0a0b") };
    let page = login::page_after_post(&form, &refused, Ok(None));
    assert_eq!(
        page,
        Ok(LoginLayoutContext {
            base_context: nobody(),
            previous_username_or_email: text("al"),
            error: text("Invalid username/e-mail or password provided."),
            success: None,
        })
    );
    let page = login::page_after_post(&form, &accepted, Ok(Some(alice())));
    assert_eq!(
        page,
        Ok(LoginLayoutContext {
            base_context: BaseLayoutContext { username: text("alice") },
            previous_username_or_email: None,
            error: None,
            success: text("Logged in successfully!"),
        })
    );
    assert_eq!(
        login::page_after_post(&form, &accepted, Err(Error::UnableToConnectToDatabase)),
        Err(Error::UnableToConnectToDatabase)
    );
}

#[test]
fn register_page_starts_blank_and_takes_each_part() {
    let page = RegisterLayoutContext::new(Ok(None)).unwrap();
    assert_eq!(
        page,
        RegisterLayoutContext {
            base_context: nobody(),
            previous_username: None,
            previous_email: None,
            error: None,
            success: None,
        }
    );
    let page = page
        .with_previous_username(text("u"))
        .with_previous_email(text("e"))
        .with_error(text("no"))
        .with_success(text("yes"));
    assert_eq!(
        page,
        RegisterLayoutContext {
            base_context: nobody(),
            previous_username: text("u"),
            previous_email: text("e"),
            error: text("no"),
            success: text("yes"),
        }
    );
}

#[test]
fn register_page_after_a_refusal_shows_name_and_address() {
    let form = RegisterForm {
        username: String::from("u"),
        email: String::from("e"),
        password: String::from("p"),
        password_repeat: String::from("q"),
    };
    assert_eq!(
        register::page_after_post(&form, text("Password attempts don't match!"), Ok(None)),
        Ok(RegisterLayoutContext {
            base_context: nobody(),
            previous_username: text("u"),
            previous_email: text("e"),
            error: text("Password attempts don't match!"),
            success: None,
        })
    );
    assert_eq!(
        register::page_after_post(&form, None, Ok(None)),
        Ok(RegisterLayoutContext {
            base_context: nobody(),
            previous_username: None,
            previous_email: None,
            error: None,
            success: text("Account successfully registered!"),
        })
    );
}

#[test]
fn new_post_page_starts_blank_and_takes_each_part() {
    let page = NewPostLayoutContext::new(Ok(None)).unwrap();
    assert_eq!(
        page,
        NewPostLayoutContext {
            base_context: nobody(),
            previous_title: String::new(),
            previous_description: String::new(),
            previous_content: String::new(),
            error: None,
            success: None,
        }
    );
    let form = NewPostForm {
        title: String::from("t"),
        description: String::from("d"),
        content: String::from("c"),
    };
    let page = page.with_previous_data(&form).with_error(text("no")).with_success(text("yes"));
    assert_eq!(
        page,
        NewPostLayoutContext {
            base_context: nobody(),
            previous_title: String::from("t"),
            previous_description: String::from("d"),
            previous_content: String::from("c"),
            error: text("no"),
            success: text("yes"),
        }
    );
}

#[test]
fn fetched_new_post_page_tells_nobody_to_log_in() {
    assert_eq!(
        new_post::get(Ok(None)),
        Ok(NewPostLayoutContext {
            base_context: nobody(),
            previous_title: String::new(),
            previous_description: String::new(),
            previous_content: String::new(),
            error: text("You need to log in first!"),
            success: None,
        })
    );
    assert_eq!(
        new_post::get(Ok(Some(alice()))),
        Ok(NewPostLayoutContext {
            base_context: BaseLayoutContext { username: text("alice") },
            previous_title: String::new(),
            previous_description: String::new(),
            previous_content: String::new(),
            error: None,
            success: None,
        })
    );
    assert_eq!(
        new_post::get(Err(Error::UnableToConnectToDatabase)),
        Err(Error::UnableToConnectToDatabase)
    );
}

#[test]
fn new_post_page_after_a_submission_keeps_the_form() {
    let form = NewPostForm {
        title: String::from("t"),
        description: String::from("d"),
        content: String::from("c"),
    };
    assert_eq!(
        new_post::page_after_post(&form, text("You need to log in first!"), Ok(None)),
        Ok(NewPostLayoutContext {
            base_context: nobody(),
            previous_title: String::from("t"),
            previous_description: String::from("d"),
            previous_content: String::from("c"),
            error: text("You need to log in first!"),
            success: None,
        })
    );
    assert_eq!(
        new_post::page_after_post(&form, None, Ok(Some(alice()))),
        Ok(NewPostLayoutContext {
            base_context: BaseLayoutContext { username: text("alice") },
            previous_title: String::from("t"),
            previous_description: String::from("d"),
            previous_content: String::from("c"),
            error: None,
            success: text("Created a new post!"),
        })
    );
}

#[test]
fn post_and_landing_pages_carry_the_resolved_name() {
    let data = FullPostData {
        author: String::from("bob"),
        human_readable_creation_time: String::from("01. 01. 1970. 00:00:00"),
        title: String::from("t"),
        description: String::from("d"),
        content: String::from("<p>c</p>\n"),
    };
    let page = PostLayoutContext::new(data.clone(), Ok(Some(alice()))).unwrap();
    assert_eq!(page.base_context.username, text("alice"));
    assert_eq!(page.post, data);
    assert_eq!(
        PostLayoutContext::new(data, Err(Error::UnableToConnectToDatabase)),
        Err(Error::UnableToConnectToDatabase)
    );
    let listed = vec![ShortPostData {
        author: String::from("bob"),
        human_readable_creation_time: String::from("01. 01. 1970. 00:00:00"),
        title: String::from("t"),
        description: String::from("d"),
    }];
    let page = IndexLayoutContext::new(listed.clone(), Ok(None)).unwrap();
    assert_eq!(page.base_context, nobody());
    assert_eq!(page.posts, listed);
    assert_eq!(
        IndexLayoutContext::new(listed, Err(Error::UnableToConnectToDatabase)),
        Err(Error::UnableToConnectToDatabase)
    );
}
