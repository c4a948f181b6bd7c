//! The forum record and its decoder.

use vstd::prelude::*;
use crate::json::{
    JsonField, get_i64, get_string, spec_first, spec_req_i64, spec_req_string,
};

verus! {

/// A discussion forum.
#[derive(Debug, Clone, PartialEq)]
pub struct Forum {
    pub description: String,
    pub name: String,
    pub post_count: i64,
    pub short_name: String,
    pub topic_count: i64,
}

/// The forum record described by an object's members, if well shaped.
pub open spec fn spec_forum(fields: Seq<JsonField>) -> Option<Forum> {
    let description = spec_req_string(spec_first(fields, "description"@));
    let name = spec_req_string(spec_first(fields, "name"@));
    let post_count = spec_req_i64(spec_first(fields, "post_count"@));
    let short_name = spec_req_string(spec_first(fields, "short_name"@));
    let topic_count = spec_req_i64(spec_first(fields, "topic_count"@));
    if description is Some && name is Some && post_count is Some && short_name is Some
        && topic_count is Some {
        Some(Forum {
            description: description->Some_0,
            name: name->Some_0,
            post_count: post_count->Some_0,
            short_name: short_name->Some_0,
            topic_count: topic_count->Some_0,
        })
    } else {
        None
    }
}

/// Decodes the forum record out of an object's members.
pub fn decode_forum_fields(fields: &Vec<JsonField>) -> (r: Option<Forum>)
    ensures
        r == spec_forum(fields@),
{
    let description = match get_string(fields, "description") {
        Some(s) => s,
        None => {
            return None;
        },
    };
    let name = match get_string(fields, "name") {
        Some(s) => s,
        None => {
            return None;
        },
    };
    let post_count = match get_i64(fields, "post_count") {
        Some(n) => n,
        None => {
            return None;
        },
    };
    let short_name = match get_string(fields, "short_name") {
        Some(s) => s,
        None => {
            return None;
        },
    };
    let topic_count = match get_i64(fields, "topic_count") {
        Some(n) => n,
        None => {
            return None;
        },
    };
    Some(Forum { description, name, post_count, short_name, topic_count })
}

} // verus!
