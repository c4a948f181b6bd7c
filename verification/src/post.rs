//! The forum-post record and its decoder.

use vstd::prelude::*;
use crate::json::{
    JsonField, get_i64, get_opt_i64, get_opt_string, get_string, spec_first, spec_opt_i64,
    spec_opt_string, spec_req_i64, spec_req_string,
};

verus! {

/// A post in a forum thread.
#[derive(Debug, Clone, PartialEq)]
pub struct Post {
    pub author: String,
    pub avatar: String,
    pub body: String,
    pub created_at: String,
    pub edit_reason: Option<String>,
    pub edited_at: Option<String>,
    pub id: i64,
    pub updated_at: String,
    pub user_id: Option<i64>,
}

/// The post record described by an object's members, if well shaped.
pub open spec fn spec_post(fields: Seq<JsonField>) -> Option<Post> {
    let author = spec_req_string(spec_first(fields, "author"@));
    let avatar = spec_req_string(spec_first(fields, "avatar"@));
    let body = spec_req_string(spec_first(fields, "body"@));
    let created_at = spec_req_string(spec_first(fields, "created_at"@));
    let edit_reason = spec_opt_string(spec_first(fields, "edit_reason"@));
    let edited_at = spec_opt_string(spec_first(fields, "edited_at"@));
    let id = spec_req_i64(spec_first(fields, "id"@));
    let updated_at = spec_req_string(spec_first(fields, "updated_at"@));
    let user_id = spec_opt_i64(spec_first(fields, "user_id"@));
    if author is Some && avatar is Some && body is Some && created_at is Some
        && edit_reason is Some && edited_at is Some && id is Some && updated_at is Some
        && user_id is Some {
        Some(Post {
            author: author->Some_0,
            avatar: avatar->Some_0,
            body: body->Some_0,
            created_at: created_at->Some_0,
            edit_reason: edit_reason->Some_0,
            edited_at: edited_at->Some_0,
            id: id->Some_0,
            updated_at: updated_at->Some_0,
            user_id: user_id->Some_0,
        })
    } else {
        None
    }
}

/// Decodes the post record out of an object's members.
pub fn decode_post_fields(fields: &Vec<JsonField>) -> (r: Option<Post>)
    ensures
        r == spec_post(fields@),
{
    let author = match get_string(fields, "author") {
        Some(s) => s,
        None => {
            return None;
        },
    };
    let avatar = match get_string(fields, "avatar") {
        Some(s) => s,
        None => {
            return None;
        },
    };
    let body = match get_string(fields, "body") {
        Some(s) => s,
        None => {
            return None;
        },
    };
    let created_at = match get_string(fields, "created_at") {
        Some(s) => s,
        None => {
            return None;
        },
    };
    let edit_reason = match get_opt_string(fields, "edit_reason") {
        Some(o) => o,
        None => {
            return None;
        },
    };
    let edited_at = match get_opt_string(fields, "edited_at") {
        Some(o) => o,
        None => {
            return None;
        },
    };
    let id = match get_i64(fields, "id") {
        Some(n) => n,
        None => {
            return None;
        },
    };
    let updated_at = match get_string(fields, "updated_at") {
        Some(s) => s,
        None => {
            return None;
        },
    };
    let user_id = match get_opt_i64(fields, "user_id") {
        Some(o) => o,
        None => {
            return None;
        },
    };
    Some(Post {
        author,
        avatar,
        body,
        created_at,
        edit_reason,
        edited_at,
        id,
        updated_at,
        user_id,
    })
}

} // verus!
