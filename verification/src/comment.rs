//! The comment record and its payload decoder.
//!
//! `comment:create` and `comment:update` frames carry `{comment: {...}}`;
//! the decoder checks every required member and hands back the typed
//! record, or nothing when the shape is wrong.

use vstd::prelude::*;
use crate::json::{
    JsonField, JsonValue, get_i64, get_opt_i64, get_string, spec_first, spec_opt_i64,
    spec_req_i64, spec_req_string, take_field,
};

verus! {

/// A comment on an image.
pub struct Comment {
    pub author: String,
    pub avatar: String,
    pub body: String,
    pub created_at: String,
    pub edit_reason: JsonValue,
    pub edited_at: JsonValue,
    pub id: i64,
    pub image_id: i64,
    pub updated_at: String,
    pub user_id: Option<i64>,
}

/// The comment record described by an object's members, if well shaped.
pub open spec fn spec_comment(fields: Seq<JsonField>) -> Option<Comment> {
    let author = spec_req_string(spec_first(fields, "author"@));
    let avatar = spec_req_string(spec_first(fields, "avatar"@));
    let body = spec_req_string(spec_first(fields, "body"@));
    let created_at = spec_req_string(spec_first(fields, "created_at"@));
    let edit_reason = spec_first(fields, "edit_reason"@);
    let edited_at = spec_first(fields, "edited_at"@);
    let id = spec_req_i64(spec_first(fields, "id"@));
    let image_id = spec_req_i64(spec_first(fields, "image_id"@));
    let updated_at = spec_req_string(spec_first(fields, "updated_at"@));
    let user_id = spec_opt_i64(spec_first(fields, "user_id"@));
    if author is Some && avatar is Some && body is Some && created_at is Some
        && edit_reason is Some && edited_at is Some && id is Some && image_id is Some
        && updated_at is Some && user_id is Some {
        Some(Comment {
            author: author->Some_0,
            avatar: avatar->Some_0,
            body: body->Some_0,
            created_at: created_at->Some_0,
            edit_reason: edit_reason->Some_0,
            edited_at: edited_at->Some_0,
            id: id->Some_0,
            image_id: image_id->Some_0,
            updated_at: updated_at->Some_0,
            user_id: user_id->Some_0,
        })
    } else {
        None
    }
}

/// The comment carried by a `{comment: {...}}` payload, if well shaped.
pub open spec fn spec_comment_payload(payload: JsonValue) -> Option<Comment> {
    match payload {
        JsonValue::Obj(outer) => match spec_first(outer@, "comment"@) {
            Some(JsonValue::Obj(inner)) => spec_comment(inner@),
            _ => None,
        },
        _ => None,
    }
}

/// Decodes the comment record out of an object's members.
pub fn decode_comment_fields(fields: Vec<JsonField>) -> (r: Option<Comment>)
    ensures
        r == spec_comment(fields@),
{
    let author = match get_string(&fields, "author") {
        Some(s) => s,
        None => {
            return None;
        },
    };
    let avatar = match get_string(&fields, "avatar") {
        Some(s) => s,
        None => {
            return None;
        },
    };
    let body = match get_string(&fields, "body") {
        Some(s) => s,
        None => {
            return None;
        },
    };
    let created_at = match get_string(&fields, "created_at") {
        Some(s) => s,
        None => {
            return None;
        },
    };
    let id = match get_i64(&fields, "id") {
        Some(n) => n,
        None => {
            return None;
        },
    };
    let image_id = match get_i64(&fields, "image_id") {
        Some(n) => n,
        None => {
            return None;
        },
    };
    let updated_at = match get_string(&fields, "updated_at") {
        Some(s) => s,
        None => {
            return None;
        },
    };
    let user_id = match get_opt_i64(&fields, "user_id") {
        Some(o) => o,
        None => {
            return None;
        },
    };
    proof {
        reveal_strlit("edit_reason");
        reveal_strlit("edited_at");
        assert(("edit_reason"@).len() == 11);
        assert(("edited_at"@).len() == 9);
    }
    let mut f = fields;
    let edit_reason = match take_field(&mut f, "edit_reason") {
        Some(v) => v,
        None => {
            return None;
        },
    };
    let edited_at = match take_field(&mut f, "edited_at") {
        Some(v) => v,
        None => {
            return None;
        },
    };
    Some(Comment {
        author,
        avatar,
        body,
        created_at,
        edit_reason,
        edited_at,
        id,
        image_id,
        updated_at,
        user_id,
    })
}

/// Decodes the comment out of a `{comment: {...}}` payload.
pub fn decode_comment(payload: JsonValue) -> (r: Option<Comment>)
    ensures
        r == spec_comment_payload(payload),
{
    proof {
        reveal_strlit("comment");
    }
    let mut outer = match payload {
        JsonValue::Obj(f) => f,
        _ => {
            return None;
        },
    };
    match take_field(&mut outer, "comment") {
        Some(JsonValue::Obj(inner)) => decode_comment_fields(inner),
        _ => None,
    }
}

} // verus!
