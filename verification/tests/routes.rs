//! What the routes answer, and paging.

use yonder_auth::claims::Claims;
use yonder_auth::guard::{conclude, receive, Account, GuardState};
use yonder_auth::issuer::issue_at;
use yonder_auth::paging::{
    get_groups, groups_list, resolve_window, Group, PageWindow, Pagination, DEFAULT_PAGE,
    DEFAULT_PER_PAGE, MAX_PER_PAGE,
};
use yonder_auth::refresh::{RefreshAction, RequestContext};
use yonder_auth::routes::{
    acknowledge, group_member_add, group_member_remove, group_members_list, group_show, groups_add,
    groups_remove, index, index_anonymous, me_show, user_show, user_update, users_add, users_list,
    ApiResponse,
};
use yonder_auth::session::{save, Carrier, Lifecycle, ProviderKind, SessionRecord};

fn claims() -> Claims {
    Claims { sub: "subject-1".to_owned(), email: "alice@example.com".to_owned(), exp: 1 }
}

const FOUND: &str = "User 'alice@example.com' found!";

#[test]
fn the_routes_acknowledge_the_caller() {
    assert_eq!(acknowledge("a@b"), "User 'a@b' found!");
    assert_eq!(acknowledge(""), "User '' found!");
    assert_eq!(groups_add(claims()), FOUND);
    assert_eq!(groups_remove(claims()), FOUND);
    assert_eq!(group_members_list(claims(), "g1"), FOUND);
    assert_eq!(group_member_add(claims(), "g1"), FOUND);
    assert_eq!(group_member_remove(claims(), "g1"), FOUND);
    assert_eq!(users_list(claims()), FOUND);
    assert_eq!(users_add(claims()), FOUND);
    assert_eq!(user_show(claims(), "u1"), FOUND);
    assert_eq!(user_update(claims(), "u1"), FOUND);
}

#[test]
fn group_show_names_the_group() {
    assert_eq!(group_show(claims(), "g1"), "User 'alice@example.com,g1' found!");
    assert_eq!(group_show(claims(), ""), "User 'alice@example.com,' found!");
}

/// The account of a request that the guard has authenticated.
fn account() -> Account {
    let token = issue_at("subject-1".to_owned(), "alice@example.com".to_owned(), 60, "secret", 0).unwrap();
    let record =
        SessionRecord::new(ProviderKind::Google, token, "refresh".to_owned(), Lifecycle::LoggedIn);
    let mut carrier = Carrier::empty();
    save(&mut carrier, &record);
    carrier.profile =
        Some("{\"id\":\"7\",\"given_name\":\"Alice\",\"family_name\":\"Liddell\"}".to_owned());
    let state = receive(&carrier);
    let outcome = match RequestContext::new().ensure_fresh(record, "secret", 0).1 {
        RefreshAction::Done(outcome) => outcome,
        other => panic!("an outcome was expected, not {:?}", other),
    };
    match conclude(&mut carrier, state, outcome) {
        GuardState::Authenticated(account) => account,
        other => panic!("an identity was expected, not {:?}", other),
    }
}

#[test]
fn index_greets_the_account() {
    assert_eq!(
        index(account()),
        "Hi, Alice Liddell (7)! Your state is: logged_in, Email is: alice@example.com"
    );
}

#[test]
fn index_anonymous_points_to_the_login() {
    assert_eq!(index_anonymous(), "Please login (/auth/google/login)");
}

#[test]
fn me_show_answers_with_the_record_or_not_found() {
    assert_eq!(
        me_show(Some("{\"result\":{}}".to_owned())),
        ApiResponse { json: "{\"result\":{}}".to_owned(), status: 200 }
    );
    let missing = me_show(None);
    assert_eq!(missing.status, 404);
    assert_eq!(missing, ApiResponse::not_found());
    let body: serde_json::Value = serde_json::from_str(&missing.json).unwrap();
    assert_eq!(body["error"]["short"].as_str(), Some("NotFound"));
    assert_eq!(body["error"]["long"].as_str(), Some("resource not found"));
    assert_eq!(ApiResponse::found("[]".to_owned()).status, 200);
    assert_eq!(ApiResponse::lookup(None), ApiResponse::not_found());
    assert_eq!(ApiResponse::lookup(Some("[]".to_owned())), ApiResponse::found("[]".to_owned()));
}

fn window(page: i32, per_page: i32, total_pages: i32) -> PageWindow {
    PageWindow { page, per_page, total_pages }
}

#[test]
fn the_defaults_are_the_first_page_of_ten() {
    assert_eq!(DEFAULT_PAGE, 1);
    assert_eq!(DEFAULT_PER_PAGE, 10);
    assert_eq!(MAX_PER_PAGE, 100);
    assert_eq!(resolve_window(None, None, Some(Pagination { total_pages: 5 })), window(1, 10, 5));
    assert_eq!(resolve_window(None, None, None), window(1, 10, 1));
}

#[test]
fn the_page_is_kept_between_the_first_and_the_last() {
    let count = Some(Pagination { total_pages: 5 });
    assert_eq!(resolve_window(Some(3), None, count).page, 3);
    assert_eq!(resolve_window(Some(5), None, count).page, 5);
    assert_eq!(resolve_window(Some(6), None, count).page, 5);
    assert_eq!(resolve_window(Some(i32::MAX), None, count).page, 5);
    assert_eq!(resolve_window(Some(0), None, count).page, 1);
    assert_eq!(resolve_window(Some(-4), None, count).page, 1);
    assert_eq!(resolve_window(Some(i32::MIN), None, count).page, 1);
    // Without a count there is one page.
    assert_eq!(resolve_window(Some(2), None, None).page, 1);
    // With no pages at all, the last page is page nought.
    assert_eq!(resolve_window(Some(1), None, Some(Pagination { total_pages: 0 })).page, 0);
    assert_eq!(resolve_window(Some(0), None, Some(Pagination { total_pages: 0 })).page, 1);
}

#[test]
fn the_page_size_is_kept_between_ten_and_a_hundred() {
    assert_eq!(resolve_window(None, Some(9), None).per_page, 10);
    assert_eq!(resolve_window(None, Some(10), None).per_page, 10);
    assert_eq!(resolve_window(None, Some(55), None).per_page, 55);
    assert_eq!(resolve_window(None, Some(100), None).per_page, 100);
    assert_eq!(resolve_window(None, Some(101), None).per_page, 100);
    assert_eq!(resolve_window(None, Some(i32::MIN), None).per_page, 10);
    assert_eq!(resolve_window(None, Some(i32::MAX), None).per_page, 100);
}

#[test]
fn only_a_superuser_is_shown_the_list() {
    let count = Some(Pagination { total_pages: 5 });
    assert_eq!(groups_list(Some(true), Some(2), Some(20), count), Some(window(2, 20, 5)));
    assert_eq!(groups_list(Some(false), Some(2), Some(20), count), None);
    assert_eq!(groups_list(None, Some(2), Some(20), count), None);
}

#[test]
fn a_window_gives_limit_and_offset() {
    assert_eq!(window(1, 10, 5).limit(), 10);
    assert_eq!(window(1, 10, 5).offset(), 0);
    assert_eq!(window(3, 25, 5).limit(), 25);
    assert_eq!(window(3, 25, 5).offset(), 50);
    assert_eq!(window(0, 10, 0).offset(), -10);
    assert_eq!(window(i32::MAX, 100, i32::MAX).offset(), (i32::MAX as i64 - 1) * 100);
    assert_eq!(window(i32::MIN, i32::MIN, 0).offset(), (i32::MIN as i64 - 1) * (i32::MIN as i64));
}

#[test]
fn get_groups_links_the_neighbouring_pages() {
    let rows = vec![Group { id: "g1".to_owned(), name: "staff".to_owned() }];
    let listing = get_groups(rows.clone(), 3, 5);
    assert_eq!(listing.result, rows);
    assert_eq!(listing.prev_page, 2);
    assert_eq!(listing.next_page, 3);
    assert_eq!(listing.last_page, 5);

    let first = get_groups(vec![], 1, 5);
    assert_eq!((first.prev_page, first.next_page, first.last_page), (1, 1, 5));
    let second = get_groups(vec![], 2, 5);
    assert_eq!(second.prev_page, 1);
    let beyond = get_groups(vec![], 9, 5);
    assert_eq!((beyond.prev_page, beyond.next_page, beyond.last_page), (8, 5, 5));
    let lowest = get_groups(vec![], i32::MIN, 5);
    assert_eq!((lowest.prev_page, lowest.next_page), (1, i32::MIN));
}
