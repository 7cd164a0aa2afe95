use potassium_shot::constants::{TOKEN_EXPIRATION_BASE_SECS, TOKEN_EXPIRATION_LONG_SECS};
use potassium_shot::env::{db_path, listen_addr, listen_port, plugins_path, EnvOverride};
use potassium_shot::error::ApiError;
use potassium_shot::plugins::{
    is_plugin_file, plugin_extension, plugin_fn_decl, plugin_name, plugin_route_path, same_text,
};
use potassium_shot::pswd::{fixed_delay_applies, hash_password, password_verify_variable_time};
use potassium_shot::time::{expiration_from, token_expiration, Timestamp};
use potassium_shot::types::{LoginToken, LoginTokenError, UserId, TOKEN_ALPHABET};

#[test]
fn login_token_accepts_exactly_twenty_chars() {
    let t = LoginToken::try_new("abcdefghijklmnopqrst".to_string()).unwrap();
    assert_eq!(t.as_str(), "abcdefghijklmnopqrst");
    assert_eq!(t.clone(), t);
    assert_eq!(t.into_inner(), "abcdefghijklmnopqrst".to_string());
}

#[test]
fn login_token_counts_characters_not_bytes() {
    let s = "éééééééééééééééééééé".to_string();
    assert_eq!(s.len(), 40);
    assert!(LoginToken::try_new(s).is_ok());
}

#[test]
fn login_token_too_short_or_too_long() {
    assert_eq!(
        LoginToken::try_new("abcdefghijklmnopqrs".to_string()).unwrap_err(),
        LoginTokenError::LenCharMinViolated
    );
    assert_eq!(
        LoginToken::try_new(String::new()).unwrap_err(),
        LoginTokenError::LenCharMinViolated
    );
    assert_eq!(
        LoginToken::try_new("abcdefghijklmnopqrstu".to_string()).unwrap_err(),
        LoginTokenError::LenCharMaxViolated
    );
}

#[test]
fn generated_tokens_are_twenty_alphanumeric_chars() {
    let a = LoginToken::generate();
    let b = LoginToken::generate();
    assert_eq!(a.as_str().chars().count(), 20);
    assert!(a.as_str().chars().all(|c| TOKEN_ALPHABET.contains(c)));
    assert!(b.as_str().chars().all(|c| c.is_ascii_alphanumeric()));
    assert_ne!(a, b);
}

#[test]
fn tokens_from_draws_pick_by_remainder() {
    let draws: Vec<u32> = (0..20).map(|i| i as u32).collect();
    assert_eq!(LoginToken::from_draws(&draws).as_str(), "ABCDEFGHIJKLMNOPQRST");
    let draws: Vec<u32> = vec![61, 62, 63, 123, 124, 25, 26, 51, 52, 4_000_000_000, 0, 0, 0, 0, 0, 0, 0, 0, 0, 1];
    assert_eq!(LoginToken::from_draws(&draws).as_str(), "9AB9AZaz0CAAAAAAAAAB");
}

#[test]
fn empty_password_hashes() {
    let h = hash_password("").unwrap();
    assert_eq!(password_verify_variable_time("", &h).unwrap(), true);
}

#[test]
fn user_ids_compare_by_value() {
    assert_eq!(UserId(7), UserId(7));
    assert_ne!(UserId(7), UserId(8));
}

#[test]
fn expiration_is_now_plus_lifetime() {
    let now = Timestamp { secs: 1_700_000_000, nanos: 123 };
    assert_eq!(
        expiration_from(now, false),
        Timestamp { secs: 1_700_000_300, nanos: 123 }
    );
    assert_eq!(
        expiration_from(now, true),
        Timestamp { secs: 1_701_296_000, nanos: 123 }
    );
    assert_eq!(TOKEN_EXPIRATION_BASE_SECS, 5 * 60);
    assert_eq!(TOKEN_EXPIRATION_LONG_SECS, 24 * 15 * 3600);
}

#[test]
fn token_expiration_lies_ahead() {
    let e = token_expiration(false);
    let f = token_expiration(true);
    assert!(e.secs > 1_600_000_000);
    assert!(f.secs >= e.secs + TOKEN_EXPIRATION_LONG_SECS - TOKEN_EXPIRATION_BASE_SECS);
}

#[test]
fn env_override_prefers_the_variable() {
    let o = EnvOverride::new("SOME_VAR", "fallback");
    assert_eq!(o.varname(), "SOME_VAR");
    assert_eq!(o.get(Some("set".to_string())), "set");
    assert_eq!(o.get(None), "fallback");
}

#[test]
fn server_settings_names_and_defaults() {
    assert_eq!(db_path().varname(), "POTASSIUM_SHOT_API_DB_PATH");
    assert_eq!(db_path().get(None), "/usr/share/potassium-shot-api/db.sqlite");
    assert_eq!(plugins_path().varname(), "POTASSIUM_SHOT_API_PLUGINS_PATH");
    assert_eq!(plugins_path().get(None), "/usr/share/potassium-shot-api/plugins");
    assert_eq!(listen_addr().get(None), "0.0.0.0");
    assert_eq!(listen_port().varname(), "POTASSIUM_SHOT_API_LISTEN_PORT");
    assert_eq!(listen_port().get(None), "8080");
}

#[test]
fn hashed_password_verifies() {
    let h = hash_password("hunter2").unwrap();
    assert!(h.starts_with("$argon2id$v=19$m=19456,t=2,p=1$"));
    let rest = &h["$argon2id$v=19$m=19456,t=2,p=1$".len()..];
    let salt = rest.split('$').next().unwrap();
    assert_eq!(salt.len(), 22);
    assert!("AQgw".contains(salt.chars().last().unwrap()));
    assert_ne!(h, "hunter2");
    assert_eq!(password_verify_variable_time("hunter2", &h).unwrap(), true);
    assert_eq!(password_verify_variable_time("hunter3", &h).unwrap(), false);
}

#[test]
fn hashing_twice_uses_fresh_salts() {
    let a = hash_password("same").unwrap();
    let b = hash_password("same").unwrap();
    assert_ne!(a, b);
}

#[test]
fn malformed_hash_is_an_error() {
    let r = password_verify_variable_time("pw", "not a phc string");
    assert!(r.is_err());
    assert!(fixed_delay_applies(&r));
}

#[test]
fn a_string_without_leading_dollar_is_no_hash() {
    let r = password_verify_variable_time("pw", "not-a-hash");
    assert!(r.is_err());
    assert!(fixed_delay_applies(&r));
    assert!(password_verify_variable_time("pw", "").is_err());
}

#[test]
fn only_a_match_skips_the_fixed_delay() {
    assert!(!fixed_delay_applies(&Ok(true)));
    assert!(fixed_delay_applies(&Ok(false)));
}

#[test]
fn error_messages() {
    assert_eq!(ApiError::WrongPassword.message(), "Wrong password.");
    assert_eq!(
        ApiError::NotAdmin.message(),
        "Must be an admin to promote other users to admin."
    );
    assert_eq!(
        ApiError::Database("no rows returned".to_string()).message(),
        "no rows returned"
    );
    let e = password_verify_variable_time("pw", "not a phc string").unwrap_err();
    assert!(!ApiError::PasswordHash(e).message().is_empty());
}

#[test]
fn plugin_names_lose_lib_prefixes() {
    assert_eq!(plugin_name("libfoo"), "foo");
    assert_eq!(plugin_name("liblibfoo"), "foo");
    assert_eq!(plugin_name("lib"), "");
    assert_eq!(plugin_name("foo"), "foo");
    assert_eq!(plugin_name("li"), "li");
    assert_eq!(plugin_name("foolib"), "foolib");
    assert_eq!(plugin_name(""), "");
}

#[test]
fn plugin_files_have_the_system_extension() {
    assert!(is_plugin_file(Some("so"), "so"));
    assert!(!is_plugin_file(Some("dll"), "so"));
    assert!(!is_plugin_file(Some("s"), "so"));
    assert!(!is_plugin_file(Some("soo"), "so"));
    assert!(!is_plugin_file(None, "so"));
    assert!(is_plugin_file(Some("dylib"), "dylib"));
}

#[test]
fn plugin_extensions_per_system() {
    assert_eq!(plugin_extension("linux"), Some("so"));
    assert_eq!(plugin_extension("freebsd"), Some("so"));
    assert_eq!(plugin_extension("openbsd"), Some("so"));
    assert_eq!(plugin_extension("netbsd"), Some("so"));
    assert_eq!(plugin_extension("windows"), Some("dll"));
    assert_eq!(plugin_extension("macos"), Some("dylib"));
    assert_eq!(plugin_extension("ios"), None);
}

#[test]
fn same_text_compares_characters() {
    assert!(same_text("abc", "abc"));
    assert!(!same_text("abc", "abd"));
    assert!(!same_text("abc", "ab"));
    assert!(same_text("", ""));
}

#[test]
fn plugin_function_signatures() {
    assert_eq!(
        plugin_fn_decl("user_deleted", &vec!["potassium_shot::types::UserId"]),
        "user_deleted(potassium_shot::types::UserId)"
    );
    assert_eq!(plugin_fn_decl("f", &vec!["i32", "u8"]), "f(i32, u8)");
    assert_eq!(plugin_fn_decl("init", &vec![]), "ini)");
    assert_eq!(plugin_fn_decl("", &vec![]), ")");
}

#[test]
fn plugin_routes() {
    assert_eq!(plugin_route_path("chat", "/send"), "/chat/send");
    assert_eq!(plugin_route_path("", ""), "/");
}
