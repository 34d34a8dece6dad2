//! The bearer guard.

use std::time::{SystemTime, UNIX_EPOCH};
use yonder_auth::bearer::{authorize, bearer_value};
use yonder_auth::claims::Claims;
use yonder_auth::codec::encode;
use yonder_auth::error::AuthenticationError;
use yonder_auth::text::{same_text, strip_prefix};

const SECRET: &str = "a shared signing secret";
const NOW: i64 = 1_800_000_000;

fn claims(exp: i64) -> Claims {
    Claims { sub: "subject-1".to_owned(), email: "alice@example.com".to_owned(), exp }
}

fn token(exp: i64) -> String {
    encode(&claims(exp), SECRET).unwrap()
}

fn decoding(detail: &str) -> AuthenticationError {
    AuthenticationError::Decoding(detail.to_owned())
}

#[test]
fn a_bearer_token_authorizes() {
    let value = format!("Bearer {}", token(NOW + 1));
    assert_eq!(Claims::from_authorization(&value, SECRET, NOW), Ok(claims(NOW + 1)));
    assert_eq!(Claims::from_request(Some(&value), SECRET, NOW), Ok(claims(NOW + 1)));
}

#[test]
fn garbage_after_the_prefix_is_a_decoding_failure() {
    assert_eq!(
        Claims::from_authorization("Bearer garbage", SECRET, NOW),
        Err(decoding("InvalidToken"))
    );
    assert_eq!(Claims::from_authorization("Bearer ", SECRET, NOW), Err(decoding("InvalidToken")));
}

#[test]
fn a_value_without_the_prefix_presents_no_credential() {
    let bare = token(NOW + 1);
    assert_eq!(Claims::from_authorization(&bare, SECRET, NOW), Err(AuthenticationError::Missing));
    for value in ["", "Bearer", "bearer x", "Basic dXNlcg==", " Bearer x", "BearerX"] {
        assert_eq!(
            Claims::from_authorization(value, SECRET, NOW),
            Err(AuthenticationError::Missing),
            "{:?}",
            value
        );
    }
}

#[test]
fn a_request_without_the_header_presents_no_credential() {
    assert_eq!(Claims::from_request(None, SECRET, NOW), Err(AuthenticationError::Missing));
}

#[test]
fn an_expired_bearer_token_is_rejected_as_expired() {
    let value = format!("Bearer {}", token(NOW));
    assert_eq!(Claims::from_authorization(&value, SECRET, NOW), Err(AuthenticationError::Expired));
}

#[test]
fn a_bearer_token_under_another_secret_is_a_decoding_failure() {
    let value = format!("Bearer {}", token(NOW + 1));
    assert_eq!(
        Claims::from_authorization(&value, "another secret", NOW),
        Err(decoding("InvalidSignature"))
    );
}

#[test]
fn whitespace_around_the_token_is_trimmed() {
    let value = format!("Bearer  \t{} \n", token(NOW + 1));
    assert_eq!(Claims::from_authorization(&value, SECRET, NOW), Ok(claims(NOW + 1)));
}

#[test]
fn bearer_value_presents_a_token() {
    assert_eq!(bearer_value("abc"), "Bearer abc");
    assert_eq!(bearer_value(""), "Bearer ");
    let value = bearer_value(&token(NOW + 1));
    assert_eq!(Claims::from_authorization(&value, SECRET, NOW), Ok(claims(NOW + 1)));
}

#[test]
fn authorize_judges_by_the_clock() {
    let now = SystemTime::now().duration_since(UNIX_EPOCH).unwrap().as_secs() as i64;
    let live = format!("Bearer {}", token(now + 600));
    assert_eq!(authorize(Some(&live), SECRET), Ok(claims(now + 600)));
    let stale = format!("Bearer {}", token(now - 600));
    assert_eq!(authorize(Some(&stale), SECRET), Err(AuthenticationError::Expired));
    assert_eq!(authorize(None, SECRET), Err(AuthenticationError::Missing));
    assert_eq!(authorize(Some("Bearer garbage"), SECRET), Err(decoding("InvalidToken")));
}

#[test]
fn strip_prefix_gives_the_rest() {
    assert_eq!(strip_prefix("Bearer abc", "Bearer "), Some("abc"));
    assert_eq!(strip_prefix("Bearer ", "Bearer "), Some(""));
    assert_eq!(strip_prefix("abc", ""), Some("abc"));
    assert_eq!(strip_prefix("", ""), Some(""));
    assert_eq!(strip_prefix("Bearer", "Bearer "), None);
    assert_eq!(strip_prefix("Bearex abc", "Bearer "), None);
    assert_eq!(strip_prefix("", "B"), None);
    assert_eq!(strip_prefix("\u{e9}t\u{e9} chaud", "\u{e9}t\u{e9} "), Some("chaud"));
    assert_eq!(strip_prefix("\u{e9}", "e"), None);
}

#[test]
fn same_text_compares_texts() {
    assert!(same_text("google", "google"));
    assert!(same_text("", ""));
    assert!(!same_text("google", "Google"));
    assert!(!same_text("google", "googl"));
}

#[test]
fn a_bare_token_is_presented_as_it_is() {
    let bare = token(NOW + 1);
    assert_eq!(bare.trim(), bare);
    assert_eq!(
        Claims::from_authorization(&bearer_value(&bare), SECRET, NOW),
        Claims::from_token_with_secret(&bare, SECRET, NOW)
    );
}

#[test]
fn trimming_takes_white_space_from_both_ends_only() {
    let inner = token(NOW + 1);
    for (before, after) in [("", " "), (" ", ""), ("\t\n ", "\r\n"), ("\u{a0}\u{3000}", "\u{2028}\u{85}")] {
        let value = format!("Bearer {}{}{}", before, inner, after);
        assert_eq!(Claims::from_authorization(&value, SECRET, NOW), Ok(claims(NOW + 1)), "{:?}", value);
    }
    // White space inside the token is not trimmed away.
    let (head, tail) = inner.split_at(10);
    let broken = format!("Bearer {} {}", head, tail);
    assert!(matches!(
        Claims::from_authorization(&broken, SECRET, NOW),
        Err(AuthenticationError::Decoding(_))
    ));
    // What is not white space is not trimmed either.
    let fenced = format!("Bearer _{}", inner);
    assert!(matches!(
        Claims::from_authorization(&fenced, SECRET, NOW),
        Err(AuthenticationError::Decoding(_))
    ));
}
