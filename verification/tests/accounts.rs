use agent_rs_web::auth::{
    checked, create_user, create_user_statement, credentials_statement, hash_to_check,
    load_user_by_id, new_user, normalize_email, session_clear, session_clear_statement,
    session_current_user, session_set_user, session_set_user_statement, session_user_id,
    session_user_id_statement, verify_credentials, SessionStatement, User, UserStatement,
    ABSENT_USER_HASH, PASSWORD_COST,
};
use agent_rs_web::error::{AppError, DbError, DbErrorKind};
use agent_rs_web::ident::Uuid;
use agent_rs_web::routes::login::{
    connection_required, error_msg, login_action, login_statement, pool_required, session_required,
    signed_in,
};
use agent_rs_web::routes::signup::{password_required, signup_action, signup_statement};
use agent_rs_web::routes::{doing, logout_action, ssr_auth, ssr_conn};
use std::collections::HashMap;

fn user(hash: &str) -> User {
    User {
        id: Uuid { value: 9 },
        email: "a@b.c".to_string(),
        password_hash: hash.to_string(),
        created_at: 0,
    }
}

fn refused(kind: DbErrorKind) -> Result<User, DbError> {
    Err(DbError { kind, text: "t".to_string() })
}

fn text<T>(s: &str) -> Result<T, String> {
    Err(s.to_string())
}

#[test]
fn emails_are_stored_in_one_spelling() {
    assert_eq!(normalize_email("  Ann@Example.COM\t"), "ann@example.com");
    assert_eq!(normalize_email(&normalize_email(" X@Y ")), normalize_email(" X@Y "));
    assert_eq!(normalize_email("É@x"), "É@x");
    assert_eq!(
        credentials_statement(" A@b.C "),
        UserStatement::ByEmail { email: "a@b.c".to_string() }
    );
    assert_eq!(login_statement("A@b.c"), credentials_statement("a@b.c "));
}

#[test]
fn grpc_ids_have_no_hyphens() {
    assert_eq!(user("h").grpc_id(), "00000000000000000000000000000009");
}

#[test]
fn a_signup_is_followed_by_a_login() {
    let row = match signup_statement(" A@B.c", "correct horse") {
        Ok(UserStatement::Insert(row)) => row,
        other => panic!("{other:?}"),
    };
    assert_eq!(row.email, "a@b.c");
    assert_eq!(row.password_hash.len(), 60);
    assert!(row.password_hash.starts_with(&format!("$2b${PASSWORD_COST}$")));
    let stored = user(&row.password_hash);
    assert_eq!(login_action(Ok(stored.clone()), "correct horse"), Ok(stored));
}

#[test]
fn the_same_password_is_hashed_with_fresh_salt() {
    let a = create_user_statement("a", "password").unwrap().password_hash;
    let b = create_user_statement("a", "password").unwrap().password_hash;
    assert_ne!(a, b);
}

#[test]
fn a_wrong_password_and_an_unknown_email_read_the_same() {
    let hash = bcrypt::hash("secret12", 4).unwrap();
    let wrong = verify_credentials(Ok(user(&hash)), "secret13");
    assert_eq!(wrong, Err(AppError::Validation("Invalid email or password.".to_string())));
    assert_eq!(verify_credentials(Ok(user(&hash)), "secret12"), Ok(user(&hash)));
    assert_eq!(verify_credentials(refused(DbErrorKind::NotFound), "secret12"), wrong);
}

#[test]
fn a_damaged_hash_is_a_password_error() {
    assert!(matches!(verify_credentials(Ok(user("junk")), "x"), Err(AppError::Password(_))));
    assert_eq!(
        verify_credentials(refused(DbErrorKind::Other), "x"),
        Err(AppError::Db("t".to_string()))
    );
    assert_eq!(checked(user("h"), Ok(true)), Ok(user("h")));
    assert!(matches!(checked(user("h"), Ok(false)), Err(AppError::Validation(_))));
    assert_eq!(
        checked(user("h"), Err("e".to_string())),
        Err(AppError::Password("e".to_string()))
    );
}

#[test]
fn the_hash_of_nobody_is_well_formed() {
    assert!(bcrypt::verify("anything", ABSENT_USER_HASH).is_ok());
}

#[test]
fn every_login_has_a_hash_to_check() {
    assert_eq!(hash_to_check(&Some(user("h"))), "h");
    assert_eq!(hash_to_check(&None), ABSENT_USER_HASH);
}

/// What a statement makes of a session, and what it answers.
fn run(session: &mut HashMap<&'static str, Uuid>, s: SessionStatement) -> Option<Uuid> {
    match s {
        SessionStatement::Read { key } => session.get(key).copied(),
        SessionStatement::Insert { key, id } => {
            session.insert(key, id);
            None
        }
        SessionStatement::Flush => {
            session.clear();
            None
        }
    }
}

#[test]
fn the_session_knows_the_user_who_was_set_last() {
    let mut session = HashMap::new();
    let mut other = user("h");
    other.id = Uuid { value: 10 };
    let who = |session: &mut HashMap<&'static str, Uuid>| {
        session_user_id(Ok(run(session, session_user_id_statement())))
    };
    assert_eq!(who(&mut session), None);
    run(&mut session, session_set_user_statement(&other));
    assert_eq!(who(&mut session), Some(other.id));
    run(&mut session, session_set_user_statement(&user("h")));
    assert_eq!(who(&mut session), Some(user("h").id));
    run(&mut session, session_clear_statement());
    assert_eq!(who(&mut session), None);
    assert_eq!(
        session_set_user_statement(&other),
        SessionStatement::Insert { key: "user_id", id: other.id }
    );
}

#[test]
fn a_taken_email_is_a_validation_failure() {
    assert_eq!(create_user(Ok(user("h"))), Ok(user("h")));
    assert_eq!(
        create_user(refused(DbErrorKind::UniqueViolation)),
        Err(AppError::Validation("Email address is already registered.".to_string()))
    );
    assert_eq!(create_user(refused(DbErrorKind::Other)), Err(AppError::Db("t".to_string())));
    assert_eq!(
        signup_action(refused(DbErrorKind::UniqueViolation)),
        text("Email address is already registered.")
    );
    assert_eq!(signup_action(refused(DbErrorKind::Other)), text("database error: t"));
    assert_eq!(signup_action(Ok(user("h"))), Ok(user("h")));
}

#[test]
fn a_failed_hash_makes_no_row() {
    assert_eq!(
        new_user("a", Err("no".to_string())),
        Err(AppError::Password("no".to_string()))
    );
    assert_eq!(new_user(" A ", Ok("h".to_string())).unwrap().email, "a");
}

#[test]
fn sessions_know_their_user() {
    let id = Uuid { value: 4 };
    assert_eq!(session_user_id(Ok(Some(id))), Some(id));
    assert_eq!(session_user_id(Ok(None)), None);
    assert_eq!(session_user_id(text("down")), None);
    assert_eq!(session_current_user(Ok(Some(id))), Ok(UserStatement::ById { id }));
    assert_eq!(session_current_user(Ok(None)), Err(AppError::Unauthenticated));
    assert_eq!(session_current_user(text("down")), Err(AppError::Internal("down".to_string())));
    assert_eq!(load_user_by_id(Ok(user("h"))), Ok(user("h")));
    assert_eq!(load_user_by_id(refused(DbErrorKind::NotFound)), Err(AppError::Unauthenticated));
    assert_eq!(load_user_by_id(refused(DbErrorKind::Other)), Err(AppError::Db("t".to_string())));
    assert_eq!(session_set_user(Ok(())), Ok(()));
    assert_eq!(session_clear(text("x")), Err(AppError::Internal("x".to_string())));
}

#[test]
fn short_passwords_are_refused() {
    assert_eq!(password_required("1234567"), text("Password must be at least 8 characters."));
    assert_eq!(password_required("12345678"), Ok(()));
    assert_eq!(password_required("éééé"), Ok(()));
    assert!(password_required("").is_err());
}

#[test]
fn account_actions_stop_at_the_first_failure() {
    assert_eq!(pool_required(true), Ok(()));
    assert_eq!(pool_required(false), text("internal error: db pool missing from context"));
    assert_eq!(session_required(Ok(())), Ok(()));
    assert_eq!(session_required(text("x")), text("internal error: session extract failed: x"));
    assert_eq!(connection_required(Ok(())), Ok(()));
    assert_eq!(connection_required(text("x")), text("database error: x"));
    assert_eq!(signed_in(Ok(())), Ok("/chat"));
    assert_eq!(signed_in(text("x")), text("internal error: x"));
    assert_eq!(login_action(refused(DbErrorKind::Other), "p"), text("database error: t"));
}

#[test]
fn logging_out_leads_to_the_login_page() {
    assert_eq!(logout_action(Ok(Ok(()))), Ok("/login"));
    assert_eq!(logout_action(Ok(text("x"))), text("internal error: x"));
    assert_eq!(logout_action(text("x")), text("internal error: session extract failed: x"));
}

#[test]
fn server_functions_need_a_user_and_a_connection() {
    let id = Uuid { value: 4 };
    assert_eq!(ssr_auth(Ok(Ok(Some(id)))), Ok(id));
    assert_eq!(ssr_auth(Ok(Ok(None))), text("unauthenticated"));
    assert_eq!(ssr_auth(Ok(text("down"))), text("unauthenticated"));
    assert_eq!(ssr_auth(text("x")), text("session extract: x"));
    assert_eq!(ssr_conn(Some(Ok(()))), Ok(()));
    assert_eq!(ssr_conn(None), text("DbPool context missing"));
    assert_eq!(ssr_conn(Some(text("x"))), text("db conn: x"));
    assert_eq!(doing("list", Ok(1)), Ok(1));
    assert_eq!(doing::<u8>("list", Err(AppError::Unauthenticated)), text("list: not authenticated"));
}

#[test]
fn the_prefix_of_the_framework_is_not_shown() {
    assert_eq!(error_msg("server error: Invalid email or password."), "Invalid email or password.");
    assert_eq!(error_msg("server error: server error: x"), "x");
    assert_eq!(error_msg("x server error: y"), "x server error: y");
    assert_eq!(error_msg("server error:"), "server error:");
    assert_eq!(error_msg(""), "");
}
