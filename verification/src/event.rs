//! The event decoder: from `(topic, event, payload)` to a typed domain
//! event.
//!
//! Only the `firehose` topic carries domain events; every other topic is
//! protocol traffic and is ignored. Under `firehose`, `phx_reply` is the
//! acknowledged no-op, each recognized event name decodes its payload
//! into the matching variant, an ill-shaped payload is a reportable,
//! non-fatal error, and an unknown event name is ignored.

use vstd::prelude::*;
use crate::comment::{Comment, decode_comment, spec_comment_payload};
use crate::forum::{Forum, decode_forum_fields, spec_forum};
use crate::image::{Image, SpecImage, decode_image_fields, spec_image};
use crate::json::{
    JsonValue, get_field, get_string, get_string_vec, get_u64, spec_first, spec_req_string,
    spec_req_string_seq, spec_req_u64, str_is,
};
use crate::post::{Post, decode_post_fields, spec_post};
use crate::topic::{Topic, decode_topic_fields, spec_topic};

verus! {

/// A typed domain event, one variant per recognized event name.
pub enum FirehoseEvent {
    CommentCreated(Comment),
    CommentUpdated(Comment),
    ImageCreated(Image),
    ImageUpdated(Image),
    ImageDescriptionUpdated { image_id: u64, added: String, removed: String },
    ImageProcessed { image_id: u64 },
    ImageSourceUpdated { image_id: u64, added: Vec<String>, removed: Vec<String> },
    ImageTagUpdated { image_id: u64, added: Vec<String>, removed: Vec<String> },
    PostCreated { forum: Forum, topic: Topic, post: Post },
}

/// The mathematical form of a domain event: vectors as sequences.
pub enum SpecEvent {
    CommentCreated(Comment),
    CommentUpdated(Comment),
    ImageCreated(SpecImage),
    ImageUpdated(SpecImage),
    ImageDescriptionUpdated { image_id: u64, added: String, removed: String },
    ImageProcessed { image_id: u64 },
    ImageSourceUpdated { image_id: u64, added: Seq<String>, removed: Seq<String> },
    ImageTagUpdated { image_id: u64, added: Seq<String>, removed: Seq<String> },
    PostCreated { forum: Forum, topic: Topic, post: Post },
}

impl FirehoseEvent {
    /// The mathematical form of this event.
    pub open spec fn deep(self) -> SpecEvent {
        match self {
            FirehoseEvent::CommentCreated(c) => SpecEvent::CommentCreated(c),
            FirehoseEvent::CommentUpdated(c) => SpecEvent::CommentUpdated(c),
            FirehoseEvent::ImageCreated(img) => SpecEvent::ImageCreated(img.deep()),
            FirehoseEvent::ImageUpdated(img) => SpecEvent::ImageUpdated(img.deep()),
            FirehoseEvent::ImageDescriptionUpdated { image_id, added, removed } =>
                SpecEvent::ImageDescriptionUpdated { image_id, added, removed },
            FirehoseEvent::ImageProcessed { image_id } =>
                SpecEvent::ImageProcessed { image_id },
            FirehoseEvent::ImageSourceUpdated { image_id, added, removed } =>
                SpecEvent::ImageSourceUpdated { image_id, added: added@, removed: removed@ },
            FirehoseEvent::ImageTagUpdated { image_id, added, removed } =>
                SpecEvent::ImageTagUpdated { image_id, added: added@, removed: removed@ },
            FirehoseEvent::PostCreated { forum, topic, post } =>
                SpecEvent::PostCreated { forum, topic, post },
        }
    }
}

/// What the event decoder makes of a classified frame.
pub enum Decoded {
    /// A domain event to hand to the matching handler hook.
    Event(FirehoseEvent),
    /// `phx_reply` under the firehose topic: acknowledged, no handler.
    Ack,
    /// A topic other than `firehose`: protocol traffic, no handler.
    OtherTopic,
    /// An unknown event name under `firehose`: reported, no handler.
    Unknown,
    /// A recognized event name whose payload is ill shaped: reported,
    /// no handler, never fatal.
    BadPayload,
}

/// The mathematical form of a decode result.
pub enum SpecDecoded {
    Event(SpecEvent),
    Ack,
    OtherTopic,
    Unknown,
    BadPayload,
}

impl Decoded {
    /// The mathematical form of this decode result.
    pub open spec fn deep(self) -> SpecDecoded {
        match self {
            Decoded::Event(e) => SpecDecoded::Event(e.deep()),
            Decoded::Ack => SpecDecoded::Ack,
            Decoded::OtherTopic => SpecDecoded::OtherTopic,
            Decoded::Unknown => SpecDecoded::Unknown,
            Decoded::BadPayload => SpecDecoded::BadPayload,
        }
    }
}

/// The `{image_id, added, removed}` payload with string texts.
pub open spec fn spec_desc_update(payload: JsonValue) -> Option<(u64, String, String)> {
    match payload {
        JsonValue::Obj(fields) => {
            let image_id = spec_req_u64(spec_first(fields@, "image_id"@));
            let added = spec_req_string(spec_first(fields@, "added"@));
            let removed = spec_req_string(spec_first(fields@, "removed"@));
            if image_id is Some && added is Some && removed is Some {
                Some((image_id->Some_0, added->Some_0, removed->Some_0))
            } else {
                None
            }
        },
        _ => None,
    }
}

/// The `{image_id}` payload.
pub open spec fn spec_image_id(payload: JsonValue) -> Option<u64> {
    match payload {
        JsonValue::Obj(fields) => spec_req_u64(spec_first(fields@, "image_id"@)),
        _ => None,
    }
}

/// The `{image_id, added: [string], removed: [string]}` payload.
pub open spec fn spec_lists_update(payload: JsonValue) -> Option<(u64, Seq<String>, Seq<String>)> {
    match payload {
        JsonValue::Obj(fields) => {
            let image_id = spec_req_u64(spec_first(fields@, "image_id"@));
            let added = spec_req_string_seq(spec_first(fields@, "added"@));
            let removed = spec_req_string_seq(spec_first(fields@, "removed"@));
            if image_id is Some && added is Some && removed is Some {
                Some((image_id->Some_0, added->Some_0, removed->Some_0))
            } else {
                None
            }
        },
        _ => None,
    }
}

/// The `{image: {...}}` payload.
pub open spec fn spec_image_payload(payload: JsonValue) -> Option<SpecImage> {
    match payload {
        JsonValue::Obj(outer) => match spec_first(outer@, "image"@) {
            Some(JsonValue::Obj(inner)) => spec_image(inner@),
            _ => None,
        },
        _ => None,
    }
}

/// The `{forum: {...}, topic: {...}, post: {...}}` payload.
pub open spec fn spec_post_payload(payload: JsonValue) -> Option<(Forum, Topic, Post)> {
    match payload {
        JsonValue::Obj(fields) => {
            let forum = match spec_first(fields@, "forum"@) {
                Some(JsonValue::Obj(inner)) => spec_forum(inner@),
                _ => None,
            };
            let topic = match spec_first(fields@, "topic"@) {
                Some(JsonValue::Obj(inner)) => spec_topic(inner@),
                _ => None,
            };
            let post = match spec_first(fields@, "post"@) {
                Some(JsonValue::Obj(inner)) => spec_post(inner@),
                _ => None,
            };
            if forum is Some && topic is Some && post is Some {
                Some((forum->Some_0, topic->Some_0, post->Some_0))
            } else {
                None
            }
        },
        _ => None,
    }
}

/// The decode of a `(topic, event, payload)` triple.
pub open spec fn spec_decode(topic: Seq<char>, event: Seq<char>, payload: JsonValue) -> SpecDecoded {
    if topic != "firehose"@ {
        SpecDecoded::OtherTopic
    } else if event == "phx_reply"@ {
        SpecDecoded::Ack
    } else if event == "comment:create"@ {
        match spec_comment_payload(payload) {
            Some(c) => SpecDecoded::Event(SpecEvent::CommentCreated(c)),
            None => SpecDecoded::BadPayload,
        }
    } else if event == "comment:update"@ {
        match spec_comment_payload(payload) {
            Some(c) => SpecDecoded::Event(SpecEvent::CommentUpdated(c)),
            None => SpecDecoded::BadPayload,
        }
    } else if event == "image:create"@ {
        match spec_image_payload(payload) {
            Some(img) => SpecDecoded::Event(SpecEvent::ImageCreated(img)),
            None => SpecDecoded::BadPayload,
        }
    } else if event == "image:update"@ {
        match spec_image_payload(payload) {
            Some(img) => SpecDecoded::Event(SpecEvent::ImageUpdated(img)),
            None => SpecDecoded::BadPayload,
        }
    } else if event == "image:description_update"@ {
        match spec_desc_update(payload) {
            Some((image_id, added, removed)) => SpecDecoded::Event(
                SpecEvent::ImageDescriptionUpdated { image_id, added, removed },
            ),
            None => SpecDecoded::BadPayload,
        }
    } else if event == "image:process"@ {
        match spec_image_id(payload) {
            Some(image_id) => SpecDecoded::Event(SpecEvent::ImageProcessed { image_id }),
            None => SpecDecoded::BadPayload,
        }
    } else if event == "image:source_update"@ {
        match spec_lists_update(payload) {
            Some((image_id, added, removed)) => SpecDecoded::Event(
                SpecEvent::ImageSourceUpdated { image_id, added, removed },
            ),
            None => SpecDecoded::BadPayload,
        }
    } else if event == "image:tag_update"@ {
        match spec_lists_update(payload) {
            Some((image_id, added, removed)) => SpecDecoded::Event(
                SpecEvent::ImageTagUpdated { image_id, added, removed },
            ),
            None => SpecDecoded::BadPayload,
        }
    } else if event == "post:create"@ {
        match spec_post_payload(payload) {
            Some((forum, topic, post)) => SpecDecoded::Event(
                SpecEvent::PostCreated { forum, topic, post },
            ),
            None => SpecDecoded::BadPayload,
        }
    } else {
        SpecDecoded::Unknown
    }
}

/// Decodes the `{image_id, added, removed}` payload with string texts.
fn decode_desc_update(payload: &JsonValue) -> (r: Option<(u64, String, String)>)
    ensures
        r == spec_desc_update(*payload),
{
    let fields = match payload {
        JsonValue::Obj(fields) => fields,
        _ => {
            return None;
        },
    };
    let image_id = match get_u64(fields, "image_id") {
        Some(n) => n,
        None => {
            return None;
        },
    };
    let added = match get_string(fields, "added") {
        Some(s) => s,
        None => {
            return None;
        },
    };
    let removed = match get_string(fields, "removed") {
        Some(s) => s,
        None => {
            return None;
        },
    };
    Some((image_id, added, removed))
}

/// Decodes the `{image_id}` payload.
fn decode_image_id(payload: &JsonValue) -> (r: Option<u64>)
    ensures
        r == spec_image_id(*payload),
{
    match payload {
        JsonValue::Obj(fields) => get_u64(fields, "image_id"),
        _ => None,
    }
}

/// Decodes the `{image_id, added: [string], removed: [string]}` payload.
fn decode_lists_update(payload: &JsonValue) -> (r: Option<(u64, Vec<String>, Vec<String>)>)
    ensures
        match spec_lists_update(*payload) {
            Some((image_id, added, removed)) => r matches Some(t) && t.0 == image_id
                && t.1@ == added && t.2@ == removed,
            None => r is None,
        },
{
    let fields = match payload {
        JsonValue::Obj(fields) => fields,
        _ => {
            return None;
        },
    };
    let image_id = match get_u64(fields, "image_id") {
        Some(n) => n,
        None => {
            return None;
        },
    };
    let added = match get_string_vec(fields, "added") {
        Some(v) => v,
        None => {
            return None;
        },
    };
    let removed = match get_string_vec(fields, "removed") {
        Some(v) => v,
        None => {
            return None;
        },
    };
    Some((image_id, added, removed))
}

/// Decodes the `{image: {...}}` payload.
fn decode_image_payload(payload: &JsonValue) -> (r: Option<Image>)
    ensures
        match spec_image_payload(*payload) {
            Some(si) => r matches Some(img) && img.deep() == si,
            None => r is None,
        },
{
    let fields = match payload {
        JsonValue::Obj(fields) => fields,
        _ => {
            return None;
        },
    };
    match get_field(fields, "image") {
        Some(JsonValue::Obj(inner)) => decode_image_fields(inner),
        _ => None,
    }
}

/// Decodes the `{forum, topic, post}` payload.
fn decode_post_payload(payload: &JsonValue) -> (r: Option<(Forum, Topic, Post)>)
    ensures
        r == spec_post_payload(*payload),
{
    let fields = match payload {
        JsonValue::Obj(fields) => fields,
        _ => {
            return None;
        },
    };
    let forum = match get_field(fields, "forum") {
        Some(JsonValue::Obj(inner)) => match decode_forum_fields(inner) {
            Some(x) => x,
            None => {
                return None;
            },
        },
        _ => {
            return None;
        },
    };
    let topic = match get_field(fields, "topic") {
        Some(JsonValue::Obj(inner)) => match decode_topic_fields(inner) {
            Some(x) => x,
            None => {
                return None;
            },
        },
        _ => {
            return None;
        },
    };
    let post = match get_field(fields, "post") {
        Some(JsonValue::Obj(inner)) => match decode_post_fields(inner) {
            Some(x) => x,
            None => {
                return None;
            },
        },
        _ => {
            return None;
        },
    };
    Some((forum, topic, post))
}

/// Decodes a classified frame into a domain event, an acknowledged
/// no-op, ignored traffic, an unknown event, or a reportable payload
/// error; the result matches the decode of the triple exactly.
pub fn decode_event(topic: &str, event: &str, payload: JsonValue) -> (r: Decoded)
    ensures
        r.deep() == spec_decode(topic@, event@, payload),
{
    if !str_is(topic, "firehose") {
        return Decoded::OtherTopic;
    }
    if str_is(event, "phx_reply") {
        return Decoded::Ack;
    }
    if str_is(event, "comment:create") {
        return match decode_comment(payload) {
            Some(c) => Decoded::Event(FirehoseEvent::CommentCreated(c)),
            None => Decoded::BadPayload,
        };
    }
    if str_is(event, "comment:update") {
        return match decode_comment(payload) {
            Some(c) => Decoded::Event(FirehoseEvent::CommentUpdated(c)),
            None => Decoded::BadPayload,
        };
    }
    if str_is(event, "image:create") {
        return match decode_image_payload(&payload) {
            Some(img) => Decoded::Event(FirehoseEvent::ImageCreated(img)),
            None => Decoded::BadPayload,
        };
    }
    if str_is(event, "image:update") {
        return match decode_image_payload(&payload) {
            Some(img) => Decoded::Event(FirehoseEvent::ImageUpdated(img)),
            None => Decoded::BadPayload,
        };
    }
    if str_is(event, "image:description_update") {
        return match decode_desc_update(&payload) {
            Some((image_id, added, removed)) => Decoded::Event(
                FirehoseEvent::ImageDescriptionUpdated { image_id, added, removed },
            ),
            None => Decoded::BadPayload,
        };
    }
    if str_is(event, "image:process") {
        return match decode_image_id(&payload) {
            Some(image_id) => Decoded::Event(FirehoseEvent::ImageProcessed { image_id }),
            None => Decoded::BadPayload,
        };
    }
    if str_is(event, "image:source_update") {
        return match decode_lists_update(&payload) {
            Some((image_id, added, removed)) => Decoded::Event(
                FirehoseEvent::ImageSourceUpdated { image_id, added, removed },
            ),
            None => Decoded::BadPayload,
        };
    }
    if str_is(event, "image:tag_update") {
        return match decode_lists_update(&payload) {
            Some((image_id, added, removed)) => Decoded::Event(
                FirehoseEvent::ImageTagUpdated { image_id, added, removed },
            ),
            None => Decoded::BadPayload,
        };
    }
    if str_is(event, "post:create") {
        return match decode_post_payload(&payload) {
            Some((forum, topic, post)) => Decoded::Event(
                FirehoseEvent::PostCreated { forum, topic, post },
            ),
            None => Decoded::BadPayload,
        };
    }
    Decoded::Unknown
}

/// A firehose message, kept for callers that match on the three most
/// common kinds directly.
pub enum Message {
    CommentCreate(Comment),
    ImageCreate(Image),
    ImageUpdate(Image),
}

/// The ten event names of the protocol are pairwise distinct texts.
proof fn lemma_event_names_distinct()
    ensures
        "phx_reply"@ != "comment:create"@,
        "phx_reply"@ != "comment:update"@,
        "phx_reply"@ != "image:create"@,
        "phx_reply"@ != "image:update"@,
        "phx_reply"@ != "image:description_update"@,
        "phx_reply"@ != "image:process"@,
        "phx_reply"@ != "image:source_update"@,
        "phx_reply"@ != "image:tag_update"@,
        "phx_reply"@ != "post:create"@,
        "comment:create"@ != "comment:update"@,
        "comment:create"@ != "image:create"@,
        "comment:create"@ != "image:update"@,
        "comment:create"@ != "image:description_update"@,
        "comment:create"@ != "image:process"@,
        "comment:create"@ != "image:source_update"@,
        "comment:create"@ != "image:tag_update"@,
        "comment:create"@ != "post:create"@,
        "comment:update"@ != "image:create"@,
        "comment:update"@ != "image:update"@,
        "comment:update"@ != "image:description_update"@,
        "comment:update"@ != "image:process"@,
        "comment:update"@ != "image:source_update"@,
        "comment:update"@ != "image:tag_update"@,
        "comment:update"@ != "post:create"@,
        "image:create"@ != "image:update"@,
        "image:create"@ != "image:description_update"@,
        "image:create"@ != "image:process"@,
        "image:create"@ != "image:source_update"@,
        "image:create"@ != "image:tag_update"@,
        "image:create"@ != "post:create"@,
        "image:update"@ != "image:description_update"@,
        "image:update"@ != "image:process"@,
        "image:update"@ != "image:source_update"@,
        "image:update"@ != "image:tag_update"@,
        "image:update"@ != "post:create"@,
        "image:description_update"@ != "image:process"@,
        "image:description_update"@ != "image:source_update"@,
        "image:description_update"@ != "image:tag_update"@,
        "image:description_update"@ != "post:create"@,
        "image:process"@ != "image:source_update"@,
        "image:process"@ != "image:tag_update"@,
        "image:process"@ != "post:create"@,
        "image:source_update"@ != "image:tag_update"@,
        "image:source_update"@ != "post:create"@,
        "image:tag_update"@ != "post:create"@,
{
    reveal_strlit("phx_reply");
    reveal_strlit("comment:create");
    reveal_strlit("comment:update");
    reveal_strlit("image:create");
    reveal_strlit("image:update");
    reveal_strlit("image:description_update");
    reveal_strlit("image:process");
    reveal_strlit("image:source_update");
    reveal_strlit("image:tag_update");
    reveal_strlit("post:create");
    assert(("phx_reply"@).len() == 9);
    assert(("comment:create"@).len() == 14);
    assert(("comment:update"@).len() == 14);
    assert(("image:create"@).len() == 12);
    assert(("image:update"@).len() == 12);
    assert(("image:description_update"@).len() == 24);
    assert(("image:process"@).len() == 13);
    assert(("image:source_update"@).len() == 19);
    assert(("image:tag_update"@).len() == 16);
    assert(("post:create"@).len() == 11);
    assert(("comment:create"@)[8] == 'c');
    assert(("comment:update"@)[8] == 'u');
    assert(("image:create"@)[6] == 'c');
    assert(("image:update"@)[6] == 'u');
}

/// A well-formed `comment:create` payload under the firehose topic decodes to
/// exactly the matching event variant; an ill-shaped one decodes to the
/// reportable, non-fatal payload error.
pub proof fn lemma_decode_comment_create(payload: JsonValue)
    ensures
        spec_comment_payload(payload) matches Some(c) ==> spec_decode(
            "firehose"@,
            "comment:create"@,
            payload,
        ) == SpecDecoded::Event(SpecEvent::CommentCreated(c)),
        spec_comment_payload(payload) is None ==> spec_decode("firehose"@, "comment:create"@, payload)
            == SpecDecoded::BadPayload,
{
    lemma_event_names_distinct();
}

/// A well-formed `comment:update` payload under the firehose topic decodes to
/// exactly the matching event variant; an ill-shaped one decodes to the
/// reportable, non-fatal payload error.
pub proof fn lemma_decode_comment_update(payload: JsonValue)
    ensures
        spec_comment_payload(payload) matches Some(c) ==> spec_decode(
            "firehose"@,
            "comment:update"@,
            payload,
        ) == SpecDecoded::Event(SpecEvent::CommentUpdated(c)),
        spec_comment_payload(payload) is None ==> spec_decode("firehose"@, "comment:update"@, payload)
            == SpecDecoded::BadPayload,
{
    lemma_event_names_distinct();
}

/// A well-formed `image:create` payload under the firehose topic decodes to
/// exactly the matching event variant; an ill-shaped one decodes to the
/// reportable, non-fatal payload error.
pub proof fn lemma_decode_image_create(payload: JsonValue)
    ensures
        spec_image_payload(payload) matches Some(c) ==> spec_decode(
            "firehose"@,
            "image:create"@,
            payload,
        ) == SpecDecoded::Event(SpecEvent::ImageCreated(c)),
        spec_image_payload(payload) is None ==> spec_decode("firehose"@, "image:create"@, payload)
            == SpecDecoded::BadPayload,
{
    lemma_event_names_distinct();
}

/// A well-formed `image:update` payload under the firehose topic decodes to
/// exactly the matching event variant; an ill-shaped one decodes to the
/// reportable, non-fatal payload error.
pub proof fn lemma_decode_image_update(payload: JsonValue)
    ensures
        spec_image_payload(payload) matches Some(c) ==> spec_decode(
            "firehose"@,
            "image:update"@,
            payload,
        ) == SpecDecoded::Event(SpecEvent::ImageUpdated(c)),
        spec_image_payload(payload) is None ==> spec_decode("firehose"@, "image:update"@, payload)
            == SpecDecoded::BadPayload,
{
    lemma_event_names_distinct();
}

/// A well-formed `image:description_update` payload under the firehose
/// topic decodes to exactly the description-update event; an ill-shaped
/// one decodes to the reportable, non-fatal payload error.
pub proof fn lemma_decode_image_description_update(payload: JsonValue)
    ensures
        spec_desc_update(payload) matches Some((image_id, added, removed)) ==> spec_decode(
            "firehose"@,
            "image:description_update"@,
            payload,
        ) == SpecDecoded::Event(SpecEvent::ImageDescriptionUpdated { image_id, added, removed }),
        spec_desc_update(payload) is None ==> spec_decode(
            "firehose"@,
            "image:description_update"@,
            payload,
        ) == SpecDecoded::BadPayload,
{
    lemma_event_names_distinct();
}

/// A well-formed `image:process` payload under the firehose topic
/// decodes to exactly the processed event; an ill-shaped one decodes to
/// the reportable, non-fatal payload error.
pub proof fn lemma_decode_image_process(payload: JsonValue)
    ensures
        spec_image_id(payload) matches Some(image_id) ==> spec_decode(
            "firehose"@,
            "image:process"@,
            payload,
        ) == SpecDecoded::Event(SpecEvent::ImageProcessed { image_id }),
        spec_image_id(payload) is None ==> spec_decode("firehose"@, "image:process"@, payload)
            == SpecDecoded::BadPayload,
{
    lemma_event_names_distinct();
}

/// A well-formed `image:source_update` payload under the firehose topic
/// decodes to exactly the source-update event; an ill-shaped one
/// decodes to the reportable, non-fatal payload error.
pub proof fn lemma_decode_image_source_update(payload: JsonValue)
    ensures
        spec_lists_update(payload) matches Some((image_id, added, removed)) ==> spec_decode(
            "firehose"@,
            "image:source_update"@,
            payload,
        ) == SpecDecoded::Event(SpecEvent::ImageSourceUpdated { image_id, added, removed }),
        spec_lists_update(payload) is None ==> spec_decode(
            "firehose"@,
            "image:source_update"@,
            payload,
        ) == SpecDecoded::BadPayload,
{
    lemma_event_names_distinct();
}

/// A well-formed `image:tag_update` payload under the firehose topic
/// decodes to exactly the tag-update event; an ill-shaped one decodes
/// to the reportable, non-fatal payload error.
pub proof fn lemma_decode_image_tag_update(payload: JsonValue)
    ensures
        spec_lists_update(payload) matches Some((image_id, added, removed)) ==> spec_decode(
            "firehose"@,
            "image:tag_update"@,
            payload,
        ) == SpecDecoded::Event(SpecEvent::ImageTagUpdated { image_id, added, removed }),
        spec_lists_update(payload) is None ==> spec_decode(
            "firehose"@,
            "image:tag_update"@,
            payload,
        ) == SpecDecoded::BadPayload,
{
    lemma_event_names_distinct();
}

/// A well-formed `post:create` payload under the firehose topic decodes
/// to exactly the post-created event; an ill-shaped one decodes to the
/// reportable, non-fatal payload error.
pub proof fn lemma_decode_post_create(payload: JsonValue)
    ensures
        spec_post_payload(payload) matches Some((forum, topic, post)) ==> spec_decode(
            "firehose"@,
            "post:create"@,
            payload,
        ) == SpecDecoded::Event(SpecEvent::PostCreated { forum, topic, post }),
        spec_post_payload(payload) is None ==> spec_decode("firehose"@, "post:create"@, payload)
            == SpecDecoded::BadPayload,
{
    lemma_event_names_distinct();
}

/// A `phx_reply` under the firehose topic is the acknowledged no-op,
/// whatever its payload: no handler is invoked for it.
pub proof fn lemma_decode_phx_reply(payload: JsonValue)
    ensures
        spec_decode("firehose"@, "phx_reply"@, payload) == SpecDecoded::Ack,
{
}

/// An event name that is none of the recognized ten decodes to the
/// unknown outcome, whatever its payload: no handler is invoked and
/// nothing fails.
pub proof fn lemma_unknown_event_ignored(event: Seq<char>, payload: JsonValue)
    requires
        event != "phx_reply"@,
        event != "comment:create"@,
        event != "comment:update"@,
        event != "image:create"@,
        event != "image:update"@,
        event != "image:description_update"@,
        event != "image:process"@,
        event != "image:source_update"@,
        event != "image:tag_update"@,
        event != "post:create"@,
    ensures
        spec_decode("firehose"@, event, payload) == SpecDecoded::Unknown,
{
}

/// A triple whose topic is not `firehose` never decodes to a domain
/// event: no handler can be invoked for it.
pub proof fn lemma_other_topic_no_event(topic: Seq<char>, event: Seq<char>, payload: JsonValue)
    requires
        topic != "firehose"@,
    ensures
        spec_decode(topic, event, payload) == SpecDecoded::OtherTopic,
{
}

} // verus!
