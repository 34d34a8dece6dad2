//! What the routes answer once a request has its guard behind it.
//!
//! Dispatching, parsing and sending are the web framework's. Here is only
//! what each route says.

use crate::claims::Claims;
use crate::guard::Account;
use crate::session::lifecycle_tag;
use vstd::prelude::*;
use vstd::string::*;

verus! {

/// The line that acknowledges an authorized caller.
pub open spec fn found_line(email: Seq<char>) -> Seq<char> {
    "User '"@ + email + "' found!"@
}

/// The line that acknowledges an authorized caller who asked for a group.
pub open spec fn found_in_group_line(email: Seq<char>, id: Seq<char>) -> Seq<char> {
    "User '"@ + email + ","@ + id + "' found!"@
}

/// Acknowledges an authorized caller by email.
pub fn acknowledge(email: &str) -> (line: String)
    ensures
        line@ == found_line(email@),
{
    "User '".to_owned().concat(email).concat("' found!")
}

/// `POST /groups`.
pub fn groups_add(claims: Claims) -> (body: String)
    ensures
        body@ == found_line(claims@.email),
{
    acknowledge(claims.email.as_str())
}

/// `DELETE /groups`.
pub fn groups_remove(claims: Claims) -> (body: String)
    ensures
        body@ == found_line(claims@.email),
{
    acknowledge(claims.email.as_str())
}

/// `GET /groups/<id>`.
pub fn group_show(claims: Claims, id: &str) -> (body: String)
    ensures
        body@ == found_in_group_line(claims@.email, id@),
{
    "User '".to_owned().concat(claims.email.as_str()).concat(",").concat(id).concat("' found!")
}

/// `GET /groups/<id>/members`.
pub fn group_members_list(claims: Claims, _id: &str) -> (body: String)
    ensures
        body@ == found_line(claims@.email),
{
    acknowledge(claims.email.as_str())
}

/// `POST /groups/<id>/members`.
pub fn group_member_add(claims: Claims, _id: &str) -> (body: String)
    ensures
        body@ == found_line(claims@.email),
{
    acknowledge(claims.email.as_str())
}

/// `DELETE /groups/<id>/members`.
pub fn group_member_remove(claims: Claims, _id: &str) -> (body: String)
    ensures
        body@ == found_line(claims@.email),
{
    acknowledge(claims.email.as_str())
}

/// `GET /users`.
pub fn users_list(claims: Claims) -> (body: String)
    ensures
        body@ == found_line(claims@.email),
{
    acknowledge(claims.email.as_str())
}

/// `POST /users`.
pub fn users_add(claims: Claims) -> (body: String)
    ensures
        body@ == found_line(claims@.email),
{
    acknowledge(claims.email.as_str())
}

/// `GET /users/<id>`.
pub fn user_show(claims: Claims, _id: &str) -> (body: String)
    ensures
        body@ == found_line(claims@.email),
{
    acknowledge(claims.email.as_str())
}

/// `PUT /users/<id>`.
pub fn user_update(claims: Claims, _id: &str) -> (body: String)
    ensures
        body@ == found_line(claims@.email),
{
    acknowledge(claims.email.as_str())
}

/// The greeting of the web client's front page for an authenticated
/// account.
pub open spec fn greeting(
    given_name: Seq<char>,
    family_name: Seq<char>,
    id: Seq<char>,
    state: Seq<char>,
    email: Seq<char>,
) -> Seq<char> {
    "Hi, "@ + given_name + " "@ + family_name + " ("@ + id + ")! Your state is: "@ + state
        + ", Email is: "@ + email
}

/// `GET /` of the web client, for a request with an identity.
pub fn index(account: Account) -> (body: String)
    ensures
        body@ == greeting(
            account@.user.given_name,
            account@.user.family_name,
            account@.user.id,
            lifecycle_tag(account@.state),
            account@.id,
        ),
{
    let user = account.user();
    "Hi, ".to_owned().concat(user.given_name.as_str()).concat(" ").concat(
        user.family_name.as_str(),
    ).concat(" (").concat(user.id.as_str()).concat(")! Your state is: ").concat(
        account.state().tag(),
    ).concat(", Email is: ").concat(account.id())
}

/// `GET /` of the web client, for a request without an identity.
pub fn index_anonymous() -> (body: &'static str)
    ensures
        body@ == "Please login (/auth/google/login)"@,
{
    "Please login (/auth/google/login)"
}

/// An answer of the user service: a JSON body and an HTTP status.
#[derive(Debug, Clone, PartialEq, Eq)]
pub struct ApiResponse {
    pub json: String,
    pub status: u16,
}

/// The body that says that a resource was not found.
pub open spec fn not_found_body() -> Seq<char> {
    "{\"error\":{\"long\":\"resource not found\",\"short\":\"NotFound\"}}"@
}

impl ApiResponse {
    /// The answer for a resource that was found, with its JSON text.
    pub fn found(json: String) -> (response: ApiResponse)
        ensures
            response.json@ == json@,
            response.status == 200,
    {
        ApiResponse { json, status: 200 }
    }

    /// The answer for a resource that was not found.
    pub fn not_found() -> (response: ApiResponse)
        ensures
            response.json@ == not_found_body(),
            response.status == 404,
    {
        ApiResponse {
            json: "{\"error\":{\"long\":\"resource not found\",\"short\":\"NotFound\"}}".to_owned(),
            status: 404,
        }
    }

    /// The answer to a lookup: what was found, or that nothing was.
    pub fn lookup(found: Option<String>) -> (response: ApiResponse)
        ensures
            match found {
                Some(json) => response.json@ == json@ && response.status == 200,
                None => response.json@ == not_found_body() && response.status == 404,
            },
    {
        match found {
            Some(json) => ApiResponse::found(json),
            None => ApiResponse::not_found(),
        }
    }
}

/// `GET /users/me`: the caller's own record as the lookup found it, or the
/// answer that it was not found.
pub fn me_show(found: Option<String>) -> (response: ApiResponse)
    ensures
        match found {
            Some(json) => response.json@ == json@ && response.status == 200,
            None => response.json@ == not_found_body() && response.status == 404,
        },
{
    ApiResponse::lookup(found)
}

} // verus!
