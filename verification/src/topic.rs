//! The forum-topic record and its decoder.

use vstd::prelude::*;
use crate::json::{
    JsonField, get_bool, get_i64, get_string, spec_first, spec_req_bool, spec_req_i64,
    spec_req_string,
};

verus! {

/// A discussion thread in a forum.
#[derive(Debug, Clone, PartialEq)]
pub struct Topic {
    pub author: String,
    pub last_replied_to_at: String,
    pub locked: bool,
    pub post_count: i64,
    pub slug: String,
    pub sticky: bool,
    pub title: String,
    pub user_id: i64,
    pub view_count: i64,
}

/// The topic record described by an object's members, if well shaped.
pub open spec fn spec_topic(fields: Seq<JsonField>) -> Option<Topic> {
    let author = spec_req_string(spec_first(fields, "author"@));
    let last_replied_to_at = spec_req_string(spec_first(fields, "last_replied_to_at"@));
    let locked = spec_req_bool(spec_first(fields, "locked"@));
    let post_count = spec_req_i64(spec_first(fields, "post_count"@));
    let slug = spec_req_string(spec_first(fields, "slug"@));
    let sticky = spec_req_bool(spec_first(fields, "sticky"@));
    let title = spec_req_string(spec_first(fields, "title"@));
    let user_id = spec_req_i64(spec_first(fields, "user_id"@));
    let view_count = spec_req_i64(spec_first(fields, "view_count"@));
    if author is Some && last_replied_to_at is Some && locked is Some && post_count is Some
        && slug is Some && sticky is Some && title is Some && user_id is Some
        && view_count is Some {
        Some(Topic {
            author: author->Some_0,
            last_replied_to_at: last_replied_to_at->Some_0,
            locked: locked->Some_0,
            post_count: post_count->Some_0,
            slug: slug->Some_0,
            sticky: sticky->Some_0,
            title: title->Some_0,
            user_id: user_id->Some_0,
            view_count: view_count->Some_0,
        })
    } else {
        None
    }
}

/// Decodes the topic record out of an object's members.
pub fn decode_topic_fields(fields: &Vec<JsonField>) -> (r: Option<Topic>)
    ensures
        r == spec_topic(fields@),
{
    let author = match get_string(fields, "author") {
        Some(s) => s,
        None => {
            return None;
        },
    };
    let last_replied_to_at = match get_string(fields, "last_replied_to_at") {
        Some(s) => s,
        None => {
            return None;
        },
    };
    let locked = match get_bool(fields, "locked") {
        Some(b) => b,
        None => {
            return None;
        },
    };
    let post_count = match get_i64(fields, "post_count") {
        Some(n) => n,
        None => {
            return None;
        },
    };
    let slug = match get_string(fields, "slug") {
        Some(s) => s,
        None => {
            return None;
        },
    };
    let sticky = match get_bool(fields, "sticky") {
        Some(b) => b,
        None => {
            return None;
        },
    };
    let title = match get_string(fields, "title") {
        Some(s) => s,
        None => {
            return None;
        },
    };
    let user_id = match get_i64(fields, "user_id") {
        Some(n) => n,
        None => {
            return None;
        },
    };
    let view_count = match get_i64(fields, "view_count") {
        Some(n) => n,
        None => {
            return None;
        },
    };
    Some(Topic {
        author,
        last_replied_to_at,
        locked,
        post_count,
        slug,
        sticky,
        title,
        user_id,
        view_count,
    })
}

} // verus!
