use potassium_shot::api::{CreateUserFlow, DeleteUserFlow, LoginFlow, PromoteUserFlow};
use potassium_shot::db::{
    done_from, is_admin_from, text_from, user_id_from, AddLoginToken, AddUser, Next, PromoteUser,
    Query, QueryKind, RemoveUser, Reply,
};
use potassium_shot::error::ApiError;
use potassium_shot::pswd::{hash_password, password_verify_variable_time};
use potassium_shot::time::Timestamp;
use potassium_shot::types::{LoginToken, UserId};

fn token(s: &str) -> LoginToken {
    LoginToken::try_new(s.to_string()).unwrap()
}

fn ask<F, T>(n: Next<F, T>) -> (F, Query) {
    match n {
        Next::Ask(f, q) => (f, q),
        _ => panic!("expected a query"),
    }
}

fn finished<F, T>(n: Next<F, T>) -> Result<T, ApiError> {
    match n {
        Next::Finished(r) => r,
        _ => panic!("expected the end"),
    }
}

#[test]
fn replies_fit_their_queries() {
    assert!(Reply::Id(1).fits(QueryKind::InsertUser));
    assert!(Reply::Failed("x".to_string()).fits(QueryKind::AnyUser));
    assert!(!Reply::Done.fits(QueryKind::UserName));
    assert!(Reply::MaybeId(None).fits(QueryKind::AdminRow));
    assert!(Reply::Text("n".to_string()).fits(QueryKind::PasswordHash));
    assert_eq!(Query::CleanupTokens.kind(), QueryKind::CleanupTokens);
}

#[test]
fn single_query_outcomes() {
    assert_eq!(user_id_from(Reply::Id(5)).unwrap(), UserId(5));
    assert!(matches!(user_id_from(Reply::Failed("gone".to_string())), Err(ApiError::Database(m)) if m == "gone"));
    assert_eq!(text_from(Reply::Text("bob".to_string())).unwrap(), "bob");
    assert_eq!(is_admin_from(Reply::MaybeId(Some(3))).unwrap(), true);
    assert_eq!(is_admin_from(Reply::MaybeId(None)).unwrap(), false);
    assert!(done_from(Reply::Done).is_ok());
}

#[test]
fn first_user_is_promoted() {
    let (s, q) = ask(AddUser::start("alice".to_string(), "h".to_string()));
    assert!(matches!(q, Query::AnyUser));
    let (s, q) = ask(s.on_reply(Reply::MaybeId(None)));
    assert!(matches!(q, Query::InsertUser { ref name, ref password_hash } if name == "alice" && password_hash == "h"));
    let (s, q) = ask(s.on_reply(Reply::Id(1)));
    assert!(matches!(q, Query::InsertAdmin(UserId(1))));
    let (s, q) = ask(s.on_reply(Reply::Done));
    assert!(matches!(q, Query::UserName(UserId(1))));
    assert_eq!(finished(s.on_reply(Reply::Text("alice".to_string()))).unwrap(), UserId(1));
}

#[test]
fn later_users_are_not_promoted() {
    let (s, _) = ask(AddUser::start("bob".to_string(), "h".to_string()));
    let (s, _) = ask(s.on_reply(Reply::MaybeId(Some(1))));
    assert_eq!(finished(s.on_reply(Reply::Id(2))).unwrap(), UserId(2));
}

#[test]
fn add_user_stops_at_a_failed_insert() {
    let (s, _) = ask(AddUser::start("bob".to_string(), "h".to_string()));
    let (s, _) = ask(s.on_reply(Reply::MaybeId(None)));
    let r = finished(s.on_reply(Reply::Failed("UNIQUE constraint failed".to_string())));
    assert_eq!(r.unwrap_err().message(), "UNIQUE constraint failed");
}

#[test]
fn promote_and_remove_and_store_token() {
    let (p, q) = ask(PromoteUser::start(UserId(4)));
    assert!(matches!(q, Query::InsertAdmin(UserId(4))));
    let (p, q) = ask(p.on_reply(Reply::Done));
    assert!(matches!(q, Query::UserName(UserId(4))));
    assert!(finished(p.on_reply(Reply::Text("d".to_string()))).is_ok());

    let (r, q) = ask(RemoveUser::start(UserId(4)));
    assert!(matches!(q, Query::UserName(UserId(4))));
    let (r, q) = ask(r.on_reply(Reply::Text("d".to_string())));
    assert!(matches!(q, Query::DeleteUser(UserId(4))));
    assert!(finished(r.on_reply(Reply::Done)).is_ok());

    let (r, _) = ask(RemoveUser::start(UserId(9)));
    assert!(finished(r.on_reply(Reply::Failed("no rows".to_string()))).is_err());

    let exp = Timestamp { secs: 10, nanos: 0 };
    let (t, q) = ask(AddLoginToken::start(UserId(4), token("aaaaaaaaaaaaaaaaaaaa"), exp));
    assert!(matches!(q, Query::InsertLoginToken { user: UserId(4), ref token, expiration } if token.as_str() == "aaaaaaaaaaaaaaaaaaaa" && expiration == exp));
    let (t, _) = ask(t.on_reply(Reply::Done));
    assert!(finished(t.on_reply(Reply::Text("d".to_string()))).is_ok());
}

#[test]
fn create_user_hashes_then_adds() {
    let (f, q) = ask(CreateUserFlow::start("carol".to_string(), "pw"));
    assert!(matches!(q, Query::AnyUser));
    let (f, q) = ask(f.on_reply(Reply::MaybeId(Some(1))));
    let stored = match q {
        Query::InsertUser { name, password_hash } => {
            assert_eq!(name, "carol");
            password_hash
        }
        _ => panic!("expected an insert"),
    };
    assert_eq!(password_verify_variable_time("pw", &stored).unwrap(), true);
    assert!(finished(f.on_reply(Reply::Id(3))).is_ok());
}

#[test]
fn create_user_reports_a_hashing_error() {
    let e = password_verify_variable_time("pw", "nope").unwrap_err();
    let r = finished(CreateUserFlow::start_with("d".to_string(), Err(e)));
    assert!(matches!(r, Err(ApiError::PasswordHash(_))));
}

fn run_login(password_ok: bool) -> (Result<LoginToken, ApiError>, LoginToken) {
    let hash = hash_password("right").unwrap();
    let exp = Timestamp { secs: 300, nanos: 5 };
    let (f, q) = ask(LoginFlow::start("alice".to_string(), false));
    assert!(matches!(q, Query::UserByName(ref n) if n == "alice"));
    let (f, q) = ask(f.on_reply(Reply::Id(1)));
    assert!(matches!(q, Query::PasswordHash(UserId(1))));
    let (f, q) = ask(f.on_reply_with(Reply::Text(hash.clone()), Some((token("tttttttttttttttttttt"), exp))));
    let stored = match q {
        Query::InsertLoginToken { user, token, expiration } => {
            assert_eq!(user, UserId(1));
            assert_eq!(expiration, exp);
            token
        }
        _ => panic!("expected the token to be stored"),
    };
    let (f, q) = ask(f.on_reply(Reply::Done));
    assert!(matches!(q, Query::UserName(UserId(1))));
    let (f, h) = match f.on_reply(Reply::Text("alice".to_string())) {
        Next::Check(f, h) => (f, h),
        _ => panic!("expected a password check"),
    };
    assert_eq!(h, hash);
    let pw = if password_ok { "right" } else { "wrong" };
    let check = password_verify_variable_time(pw, &h);
    (finished(f.on_password_checked(check)), stored)
}

#[test]
fn login_answers_the_stored_token() {
    let (r, stored) = run_login(true);
    assert_eq!(r.unwrap(), stored);
    assert_eq!(stored.as_str(), "tttttttttttttttttttt");
}

#[test]
fn login_with_wrong_password_still_stores_the_token() {
    let (r, stored) = run_login(false);
    assert_eq!(r.unwrap_err().message(), "Wrong password.");
    assert_eq!(stored.as_str(), "tttttttttttttttttttt");
}

#[test]
fn login_of_unknown_user_fails() {
    let (f, _) = ask(LoginFlow::start("nobody".to_string(), false));
    let r = finished(f.on_reply(Reply::Failed("no rows returned by a query that expected to return at least one row".to_string())));
    assert!(matches!(r, Err(ApiError::Database(_))));
}

#[test]
fn login_draws_a_fresh_token_when_the_hash_arrives() {
    let (f, _) = ask(LoginFlow::start("a".to_string(), true));
    let (f, _) = ask(f.on_reply(Reply::Id(3)));
    let (_, q) = ask(f.on_reply(Reply::Text("$argon2id$...".to_string())));
    match q {
        Query::InsertLoginToken { user, token, expiration } => {
            assert_eq!(user, UserId(3));
            assert_eq!(token.as_str().chars().count(), 20);
            assert!(expiration.secs > 1_600_000_000 + 1_296_000);
        }
        _ => panic!("expected the token to be stored"),
    }
}

fn delete_until_check(hash: &str) -> DeleteUserFlow {
    let (f, q) = ask(DeleteUserFlow::start(token("kkkkkkkkkkkkkkkkkkkk")));
    assert!(matches!(q, Query::UserByToken(ref t) if t.as_str() == "kkkkkkkkkkkkkkkkkkkk"));
    let (f, q) = ask(f.on_reply(Reply::Id(8)));
    assert!(matches!(q, Query::PasswordHash(UserId(8))));
    match f.on_reply(Reply::Text(hash.to_string())) {
        Next::Check(f, h) => {
            assert_eq!(h, hash);
            f
        }
        _ => panic!("expected a password check"),
    }
}

#[test]
fn delete_user_with_right_password() {
    let hash = hash_password("pw").unwrap();
    let f = delete_until_check(&hash);
    let (f, q) = ask(f.on_password_checked(password_verify_variable_time("pw", &hash)));
    assert!(matches!(q, Query::UserName(UserId(8))));
    let (f, q) = ask(f.on_reply(Reply::Text("eve".to_string())));
    assert!(matches!(q, Query::DeleteUser(UserId(8))));
    assert!(finished(f.on_reply(Reply::Done)).is_ok());
}

#[test]
fn delete_user_with_wrong_password() {
    let hash = hash_password("pw").unwrap();
    let f = delete_until_check(&hash);
    let r = finished(f.on_password_checked(password_verify_variable_time("nope", &hash)));
    assert_eq!(r.unwrap_err().message(), "Wrong password.");
}

#[test]
fn delete_user_with_unknown_token() {
    let (f, _) = ask(DeleteUserFlow::start(token("kkkkkkkkkkkkkkkkkkkk")));
    assert!(finished(f.on_reply(Reply::Failed("no rows".to_string()))).is_err());
}

#[test]
fn admins_may_promote() {
    let (f, q) = ask(PromoteUserFlow::start(token("aaaaaaaaaaaaaaaaaaaa"), UserId(2)));
    assert!(matches!(q, Query::UserByToken(_)));
    let (f, q) = ask(f.on_reply(Reply::Id(1)));
    assert!(matches!(q, Query::AdminRow(UserId(1))));
    let (f, q) = ask(f.on_reply(Reply::MaybeId(Some(1))));
    assert!(matches!(q, Query::InsertAdmin(UserId(2))));
    let (f, _) = ask(f.on_reply(Reply::Done));
    assert!(finished(f.on_reply(Reply::Text("bob".to_string()))).is_ok());
}

#[test]
fn non_admins_may_not_promote() {
    let (f, _) = ask(PromoteUserFlow::start(token("aaaaaaaaaaaaaaaaaaaa"), UserId(2)));
    let (f, _) = ask(f.on_reply(Reply::Id(5)));
    let r = finished(f.on_reply(Reply::MaybeId(None)));
    assert_eq!(
        r.unwrap_err().message(),
        "Must be an admin to promote other users to admin."
    );
}

#[test]
fn promoting_an_existing_admin_fails_in_the_database() {
    let (f, _) = ask(PromoteUserFlow::start(token("aaaaaaaaaaaaaaaaaaaa"), UserId(1)));
    let (f, _) = ask(f.on_reply(Reply::Id(1)));
    let (f, _) = ask(f.on_reply(Reply::MaybeId(Some(1))));
    let r = finished(f.on_reply(Reply::Failed("UNIQUE constraint failed: admins.user".to_string())));
    assert!(matches!(r, Err(ApiError::Database(_))));
}
