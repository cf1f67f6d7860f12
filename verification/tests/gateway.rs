//! The error taxonomy and responder, moderation classification, ownership,
//! pagination, configuration, and the end-to-end gateway scenario.

use question_and_answer::account::{Account, AccountId, NewAccount, Session};
use question_and_answer::authentication::{auth, login, register};
use question_and_answer::config::{Config, ProcessEnv};
use question_and_answer::errors::{log_severity, return_error, APILayerError, DbErrorKind, Error, Severity};
use question_and_answer::moderation::{classify_moderation_response, combine_moderation};
use question_and_answer::ownership::{authorize_mutation, is_owner};
use question_and_answer::pagination::{extract_pagination, Pagination};
use question_and_answer::parse::{parse_u16, parse_u32};
use question_and_answer::question::{NewQuestion, Question, QuestionId};
use question_and_answer::answer::NewAnswer;
use question_and_answer::routes::{add_answer, add_question, get_questions, update_question};

const KEY: [u8; 32] = [7u8; 32];
const NONCE: [u8; 24] = [9u8; 24];
const SALT: &[u8] = b"0123456789abcdef";

fn pairs(ps: &[(&str, &str)]) -> Vec<(String, String)> {
    ps.iter()
        .map(|(k, v)| (k.to_string(), v.to_string()))
        .collect()
}

// ---- number parsing ----

#[test]
fn parse_u32_accepts_plain_decimals() {
    assert_eq!(parse_u32("0"), Some(0));
    assert_eq!(parse_u32("123"), Some(123));
    assert_eq!(parse_u32("0023505"), Some(23505));
    assert_eq!(parse_u32("4294967295"), Some(u32::MAX));
}

#[test]
fn parse_u32_rejects_everything_else() {
    assert_eq!(parse_u32(""), None);
    assert_eq!(parse_u32("12a"), None);
    assert_eq!(parse_u32("-1"), None);
    assert_eq!(parse_u32("+5"), None);
    assert_eq!(parse_u32(" 5"), None);
    assert_eq!(parse_u32("4294967296"), None);
    assert_eq!(parse_u32("99999999999999999999"), None);
}

#[test]
fn parse_u16_confines_to_u16() {
    assert_eq!(parse_u16("8080"), Some(8080));
    assert_eq!(parse_u16("65535"), Some(65535));
    assert_eq!(parse_u16("65536"), None);
}

// ---- pagination ----

#[test]
fn extract_pagination_reads_both_parameters() {
    let params = pairs(&[("limit", "10"), ("offset", "5")]);
    assert_eq!(
        extract_pagination(&params),
        Ok(Pagination {
            limit: Some(10),
            offset: 5
        })
    );
}

#[test]
fn extract_pagination_takes_the_first_occurrence_of_a_key() {
    let params = pairs(&[("limit", "1"), ("offset", "0"), ("limit", "9")]);
    assert_eq!(
        extract_pagination(&params),
        Ok(Pagination {
            limit: Some(1),
            offset: 0
        })
    );
}

#[test]
fn extract_pagination_requires_both_parameters() {
    let params = pairs(&[("limit", "10")]);
    assert_eq!(extract_pagination(&params), Err(Error::MissingParameters));
    let params = pairs(&[("offset", "5")]);
    assert_eq!(extract_pagination(&params), Err(Error::MissingParameters));
}

#[test]
fn extract_pagination_rejects_bad_numbers() {
    let params = pairs(&[("limit", "ten"), ("offset", "5")]);
    assert_eq!(extract_pagination(&params), Err(Error::ParseError));
    let params = pairs(&[("limit", "10"), ("offset", "-3")]);
    assert_eq!(extract_pagination(&params), Err(Error::ParseError));
}

#[test]
fn listing_without_parameters_uses_the_default_window() {
    assert_eq!(
        get_questions(&vec![]),
        Ok(Pagination {
            limit: None,
            offset: 0
        })
    );
    assert_eq!(
        get_questions(&pairs(&[("limit", "1"), ("offset", "0")])),
        Ok(Pagination {
            limit: Some(1),
            offset: 0
        })
    );
}

// ---- error taxonomy and responder ----

#[test]
fn responder_maps_every_kind_to_its_status_and_message() {
    let cases: Vec<(Error, u16, &str)> = vec![
        (Error::ParseError, 422, "Cannot parse parameter"),
        (Error::MissingParameters, 422, "Missing parameter."),
        (Error::WrongPassword, 401, "Wrong email/password combination."),
        (Error::ArgonLibraryError, 422, "Cannot verify password."),
        (
            Error::DatabaseQueryError(DbErrorKind::Other),
            422,
            "Cannot update data",
        ),
        (Error::ReqwestAPIError, 500, "Internal server error"),
        (
            Error::MiddlewareReqwestAPIError,
            500,
            "Internal server error",
        ),
        (
            Error::ClientError(APILayerError {
                status: 403,
                message: "bad key".to_string(),
            }),
            500,
            "Internal server error",
        ),
        (
            Error::ServerError(APILayerError {
                status: 503,
                message: "down".to_string(),
            }),
            500,
            "Internal server error",
        ),
        (Error::CannotDecryptToken, 401, "Cannot decrypt token"),
        (
            Error::Unauthorized,
            401,
            "No permission to change underlying resource",
        ),
        (
            Error::CorsForbidden("origin not allowed".to_string()),
            403,
            "origin not allowed",
        ),
        (
            Error::BodyDeserializeError("missing field".to_string()),
            422,
            "missing field",
        ),
        (Error::RouteNotFound, 404, "Route not found"),
    ];
    for (e, status, message) in cases {
        assert_eq!(return_error(&e), (status, message.to_string()));
    }
}

#[test]
fn moderation_failures_share_one_generic_message() {
    let client = return_error(&Error::ClientError(APILayerError {
        status: 401,
        message: "invalid api key".to_string(),
    }));
    let server = return_error(&Error::ServerError(APILayerError {
        status: 503,
        message: "scheduled maintenance".to_string(),
    }));
    let transport = return_error(&Error::ReqwestAPIError);
    let middleware = return_error(&Error::MiddlewareReqwestAPIError);
    assert_eq!(client, (500, "Internal server error".to_string()));
    assert_eq!(server, client);
    assert_eq!(transport, client);
    assert_eq!(middleware, client);
    assert!(!client.1.contains("api key"));
}

#[test]
fn duplicate_key_gets_its_own_message() {
    let dup = Error::DatabaseQueryError(DbErrorKind::Database {
        code: Some("23505".to_string()),
    });
    let other = Error::DatabaseQueryError(DbErrorKind::Database {
        code: Some("23503".to_string()),
    });
    let missing = Error::DatabaseQueryError(DbErrorKind::Database { code: None });
    assert_eq!(return_error(&dup), (422, "Account already exists".to_string()));
    assert_eq!(return_error(&other), (422, "Cannot update data".to_string()));
    assert_eq!(return_error(&missing), (422, "Cannot update data".to_string()));
    assert_ne!(return_error(&dup).1, return_error(&other).1);
}

// ---- moderation gateway ----

#[test]
fn moderation_success_yields_the_censored_text() {
    assert_eq!(
        classify_moderation_response(200, Some("a ****".to_string()), String::new()),
        Ok("a ****".to_string())
    );
}

#[test]
fn moderation_unreadable_success_body_is_client_library_failure() {
    assert_eq!(
        classify_moderation_response(200, None, String::new()),
        Err(Error::ReqwestAPIError)
    );
}

#[test]
fn moderation_4xx_is_client_failure_with_provider_detail() {
    assert_eq!(
        classify_moderation_response(401, None, "invalid api key".to_string()),
        Err(Error::ClientError(APILayerError {
            status: 401,
            message: "invalid api key".to_string()
        }))
    );
}

#[test]
fn moderation_5xx_and_others_are_server_failures() {
    assert_eq!(
        classify_moderation_response(503, None, "unavailable".to_string()),
        Err(Error::ServerError(APILayerError {
            status: 503,
            message: "unavailable".to_string()
        }))
    );
    assert_eq!(
        classify_moderation_response(301, None, String::new()),
        Err(Error::ServerError(APILayerError {
            status: 301,
            message: String::new()
        }))
    );
}

#[test]
fn both_fields_clean_yields_the_pair() {
    assert_eq!(
        combine_moderation(Ok("Hi".to_string()), Ok("World".to_string())),
        Ok(("Hi".to_string(), "World".to_string()))
    );
}

#[test]
fn either_failed_field_fails_the_whole_request() {
    let e = Error::ServerError(APILayerError {
        status: 500,
        message: "down".to_string(),
    });
    assert_eq!(
        combine_moderation(Err(e.clone()), Ok("World".to_string())),
        Err(e.clone())
    );
    assert_eq!(
        combine_moderation(Ok("Hi".to_string()), Err(e.clone())),
        Err(e.clone())
    );
    assert_eq!(
        combine_moderation(Err(Error::ReqwestAPIError), Err(e)),
        Err(Error::ReqwestAPIError)
    );
}

#[test]
fn no_partial_resource_when_content_moderation_fails() {
    let session = Session {
        exp: 10,
        account_id: AccountId(1),
    };
    let failure = Error::ServerError(APILayerError {
        status: 500,
        message: "down".to_string(),
    });
    // title came back clean, content failed: the whole request fails
    let r = add_question(
        &session,
        Ok("clean title".to_string()),
        Err(failure.clone()),
        None,
    );
    assert_eq!(r, Err(failure.clone()));
    // same for an update: the stored question is never half-replaced
    let stored = Question {
        id: QuestionId(3),
        title: "old".to_string(),
        content: "old".to_string(),
        tags: None,
    };
    assert_eq!(
        update_question(stored, Ok("clean title".to_string()), Err(failure.clone())),
        Err(failure)
    );
}

#[test]
fn clean_update_replaces_both_fields_and_keeps_the_rest() {
    let stored = Question {
        id: QuestionId(3),
        title: "old title".to_string(),
        content: "old content".to_string(),
        tags: Some(vec!["faq".to_string()]),
    };
    assert_eq!(
        update_question(
            stored,
            Ok("new title".to_string()),
            Ok("new content".to_string())
        ),
        Ok(Question {
            id: QuestionId(3),
            title: "new title".to_string(),
            content: "new content".to_string(),
            tags: Some(vec!["faq".to_string()]),
        })
    );
}

#[test]
fn answer_content_is_moderated_before_insertion() {
    assert_eq!(
        add_answer(Ok("a **** answer".to_string()), QuestionId(7)),
        Ok(NewAnswer {
            content: "a **** answer".to_string(),
            question_id: QuestionId(7)
        })
    );
    let failure = Error::ClientError(APILayerError {
        status: 401,
        message: "invalid api key".to_string(),
    });
    assert_eq!(
        add_answer(Err(failure.clone()), QuestionId(7)),
        Err(failure)
    );
}

// ---- ownership ----

#[test]
fn owner_and_only_owner_passes_the_gate() {
    assert!(is_owner(Some(AccountId(1)), &AccountId(1)));
    assert!(!is_owner(Some(AccountId(1)), &AccountId(2)));
    assert!(!is_owner(None, &AccountId(1)));

    let owner = Session {
        exp: 10,
        account_id: AccountId(1),
    };
    let intruder = Session {
        exp: 10,
        account_id: AccountId(2),
    };
    assert_eq!(authorize_mutation(Some(AccountId(1)), &owner), Ok(()));
    assert_eq!(
        authorize_mutation(Some(AccountId(1)), &intruder),
        Err(Error::Unauthorized)
    );
    // absence of the resource is indistinguishable from not owning it
    assert_eq!(
        authorize_mutation(None, &intruder),
        Err(Error::Unauthorized)
    );
}

// ---- configuration ----

fn cli_defaults() -> Config {
    Config {
        log_level: "warn".to_string(),
        port: 8080,
        db_user: "omid".to_string(),
        db_password: "password".to_string(),
        db_host: "localhost".to_string(),
        db_port: 5432,
        db_name: "rustwebdev".to_string(),
    }
}

fn full_env() -> ProcessEnv {
    ProcessEnv {
        bad_words_api_key: Some("yes".to_string()),
        token_key: Some("yes".to_string()),
        port: None,
        db_user: Some("user".to_string()),
        db_password: Some("pass".to_string()),
        db_host: Some("localhost".to_string()),
        db_port: Some("5432".to_string()),
        db_name: Some("rustwebdev".to_string()),
    }
}

#[test]
fn config_assembles_from_environment_overrides() {
    let expected = Config {
        log_level: "warn".to_string(),
        port: 8080,
        db_user: "user".to_string(),
        db_password: "pass".to_string(),
        db_host: "localhost".to_string(),
        db_port: 5432,
        db_name: "rustwebdev".to_string(),
    };
    assert_eq!(Config::new(cli_defaults(), full_env()), Ok(expected));
}

#[test]
fn config_without_the_secrets_is_fatal() {
    let mut env = full_env();
    env.bad_words_api_key = None;
    assert_eq!(
        Config::new(cli_defaults(), env),
        Err(Error::MissingParameters)
    );
    let mut env = full_env();
    env.token_key = None;
    assert_eq!(
        Config::new(cli_defaults(), env),
        Err(Error::MissingParameters)
    );
    let mut env = full_env();
    env.db_password = None;
    assert_eq!(
        Config::new(cli_defaults(), env),
        Err(Error::MissingParameters)
    );
}

#[test]
fn config_rejects_unparseable_ports() {
    let mut env = full_env();
    env.port = Some("eighty".to_string());
    assert_eq!(Config::new(cli_defaults(), env), Err(Error::ParseError));
    let mut env = full_env();
    env.db_port = Some("543210".to_string());
    assert_eq!(Config::new(cli_defaults(), env), Err(Error::ParseError));
}

// ---- end-to-end scenario ----

/// The simulated identity store: what the persistence layer does around
/// the verified core, reduced to a vector with a unique-email rule.
struct StoreSim {
    accounts: Vec<Account>,
    questions: Vec<(Question, AccountId)>,
}

impl StoreSim {
    fn add_account(&mut self, account: Account) -> Result<AccountId, Error> {
        if self.accounts.iter().any(|a| a.email == account.email) {
            return Err(Error::DatabaseQueryError(DbErrorKind::Database {
                code: Some("23505".to_string()),
            }));
        }
        let id = AccountId(self.accounts.len() as i32 + 1);
        self.accounts.push(Account {
            id: Some(id),
            ..account
        });
        Ok(id)
    }

    fn get_account(&self, email: &str) -> Result<Account, Error> {
        self.accounts
            .iter()
            .find(|a| a.email == email)
            .cloned()
            .ok_or(Error::DatabaseQueryError(DbErrorKind::Other))
    }

    fn add_question(&mut self, new: NewQuestion, owner: AccountId) -> Question {
        let q = Question {
            id: QuestionId(self.questions.len() as i32 + 1),
            title: new.title,
            content: new.content,
            tags: new.tags,
        };
        self.questions.push((q.clone(), owner));
        q
    }
}

/// A moderation provider that echoes its input unchanged, as a 2xx reply.
fn echo_moderation(text: &str) -> Result<String, Error> {
    classify_moderation_response(200, Some(text.to_string()), String::new())
}

#[test]
fn end_to_end_register_login_create_and_tampered_token() {
    let mut store = StoreSim {
        accounts: Vec::new(),
        questions: Vec::new(),
    };
    let now = 1_000;

    // register alice@example.com / secret
    let record = register(
        NewAccount {
            email: "alice@example.com".to_string(),
            password: "secret".to_string(),
        },
        SALT,
    )
    .unwrap();
    store.add_account(record).unwrap();

    // login returns a token
    let token = login(
        store.get_account("alice@example.com"),
        "secret",
        &KEY,
        &NONCE,
        now,
        3_600,
    )
    .unwrap();

    // create a question with the token in the authorization header
    let session = auth(&KEY, Some(&token), now).unwrap();
    let title = echo_moderation("Hi");
    let content = echo_moderation("World");
    let (clean, owner) = add_question(&session, title, content, None).unwrap();
    let created = store.add_question(clean, owner);
    assert_eq!(created.title, "Hi");
    assert_eq!(created.content, "World");
    assert_eq!(store.questions.len(), 1);
    assert_eq!(store.questions[0].1, AccountId(1));

    // the same request with a tampered token is a 401 and creates nothing
    let mut chars: Vec<char> = token.chars().collect();
    chars[0] = if chars[0] == '0' { '1' } else { '0' };
    let tampered: String = chars.into_iter().collect();
    let rejected = auth(&KEY, Some(&tampered), now).unwrap_err();
    let (status, _) = return_error(&rejected);
    assert_eq!(status, 401);
    assert_eq!(store.questions.len(), 1);
}

#[test]
fn registering_the_same_email_twice_is_the_distinct_conflict() {
    let mut store = StoreSim {
        accounts: Vec::new(),
        questions: Vec::new(),
    };
    let first = register(
        NewAccount {
            email: "alice@example.com".to_string(),
            password: "secret".to_string(),
        },
        SALT,
    )
    .unwrap();
    store.add_account(first).unwrap();

    let second = register(
        NewAccount {
            email: "alice@example.com".to_string(),
            password: "other".to_string(),
        },
        SALT,
    )
    .unwrap();
    let conflict = store.add_account(second).unwrap_err();
    let (status, message) = return_error(&conflict);
    assert_eq!((status, message.as_str()), (422, "Account already exists"));
    // distinct from the generic persistence failure
    let generic = return_error(&Error::DatabaseQueryError(DbErrorKind::Other));
    assert_eq!(generic.0, 422);
    assert_ne!(message, generic.1);
}

#[test]
fn non_owner_update_is_rejected_without_mutation() {
    let mut store = StoreSim {
        accounts: Vec::new(),
        questions: Vec::new(),
    };
    let owner = Session {
        exp: 10_000,
        account_id: AccountId(1),
    };
    let (q, owner_id) = add_question(
        &owner,
        echo_moderation("Hi"),
        echo_moderation("World"),
        None,
    )
    .unwrap();
    let stored = store.add_question(q, owner_id);

    // account 2 tries to update account 1's question
    let intruder = Session {
        exp: 10_000,
        account_id: AccountId(2),
    };
    let recorded_owner = Some(store.questions[0].1);
    let gate = authorize_mutation(recorded_owner, &intruder);
    assert_eq!(gate, Err(Error::Unauthorized));
    let (status, _) = return_error(&gate.unwrap_err());
    assert_eq!(status, 401);
    // the stored question is untouched
    assert_eq!(store.questions[0].0, stored);
}

#[test]
fn failures_log_at_a_severity_matching_their_origin() {
    assert_eq!(log_severity(&Error::WrongPassword), Severity::Warn);
    assert_eq!(log_severity(&Error::Unauthorized), Severity::Warn);
    assert_eq!(log_severity(&Error::RouteNotFound), Severity::Warn);
    assert_eq!(
        log_severity(&Error::DatabaseQueryError(DbErrorKind::Other)),
        Severity::Error
    );
    assert_eq!(log_severity(&Error::ReqwestAPIError), Severity::Error);
    assert_eq!(
        log_severity(&Error::ServerError(APILayerError {
            status: 500,
            message: String::new()
        })),
        Severity::Error
    );
}
