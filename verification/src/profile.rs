//! The profile that the user service keeps for an email.
//!
//! The core looks a profile up and carries it along; it never takes it as
//! proof of identity.

use crate::json::{json_members, json_strings, member_text, parse_json, parsed_json, string_member};
use vstd::prelude::*;

verus! {

/// The profile of an account, as far as this crate reads it.
#[derive(Debug, Clone, PartialEq, Eq)]
pub struct User {
    pub id: String,
    pub given_name: String,
    pub family_name: String,
}

/// The mathematical value of a [`User`].
pub struct UserView {
    pub id: Seq<char>,
    pub given_name: Seq<char>,
    pub family_name: Seq<char>,
}

impl View for User {
    type V = UserView;

    open spec fn view(&self) -> UserView {
        UserView { id: self.id@, given_name: self.given_name@, family_name: self.family_name@ }
    }
}

/// The profile that a cached profile text holds: the text must be a JSON
/// document with string members `id`, `given_name` and `family_name`.
pub open spec fn profile_of(text: Seq<char>) -> Option<UserView> {
    match parsed_json(text) {
        None => None,
        Some(document) => if json_strings(document).contains_key("id"@) && json_strings(
            document,
        ).contains_key("given_name"@) && json_strings(document).contains_key("family_name"@) {
            Some(
                UserView {
                    id: json_strings(document)["id"@],
                    given_name: json_strings(document)["given_name"@],
                    family_name: json_strings(document)["family_name"@],
                },
            )
        } else {
            None
        },
    }
}

/// The mathematical value of an optional profile.
pub open spec fn user_view(user: Option<User>) -> Option<UserView> {
    match user {
        Some(user) => Some(user@),
        None => None,
    }
}

impl User {
    /// Reads a cached profile.
    pub fn parse(text: &str) -> (user: Option<User>)
        ensures
            user_view(user) == profile_of(text@),
    {
        let document = parse_json(text)?;
        let id = string_member(&document, "id")?;
        let given_name = string_member(&document, "given_name")?;
        let family_name = string_member(&document, "family_name")?;
        Some(User { id, given_name, family_name })
    }

    /// A copy of this profile.
    pub fn duplicate(&self) -> (copy: User)
        ensures
            copy@ == self@,
    {
        User {
            id: self.id.clone(),
            given_name: self.given_name.clone(),
            family_name: self.family_name.clone(),
        }
    }
}

/// The user service's answer to a lookup of one record: the record, as the
/// JSON text of the answer's `result` member.
#[derive(Debug, Clone, PartialEq, Eq)]
pub struct SingleApiResponse {
    pub result: String,
}

/// The `result` member of an answer's body, if the body is a JSON document
/// that has one.
pub open spec fn result_of(body: Seq<char>) -> Option<Seq<char>> {
    match parsed_json(body) {
        None => None,
        Some(document) => if json_members(document).contains_key("result"@) {
            Some(json_members(document)["result"@])
        } else {
            None
        },
    }
}

impl SingleApiResponse {
    /// Reads an answer's body.
    pub fn parse(body: &str) -> (response: Option<SingleApiResponse>)
        ensures
            match response {
                Some(response) => result_of(body@) == Some(response.result@),
                None => result_of(body@) is None,
            },
    {
        let document = parse_json(body)?;
        let result = member_text(&document, "result")?;
        Some(SingleApiResponse { result })
    }
}

} // verus!
