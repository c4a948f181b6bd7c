//! Tests for the event decoder: each recognized event name decodes a
//! well-formed payload to the matching variant, tolerates bad payloads,
//! and ignores unknown events and foreign topics.

use furbooru::event::{decode_event, Decoded, FirehoseEvent};
use furbooru::json::{JsonField, JsonValue};

fn s(text: &str) -> String {
    text.to_owned()
}

fn f(key: &str, value: JsonValue) -> JsonField {
    JsonField { key: s(key), value }
}

fn comment_obj() -> Vec<JsonField> {
    vec![
        f("author", JsonValue::Str(s("Alicia"))),
        f("avatar", JsonValue::Str(s("a.png"))),
        f("body", JsonValue::Str(s("nice orca"))),
        f("created_at", JsonValue::Str(s("2020-01-01"))),
        f("edit_reason", JsonValue::Null),
        f("edited_at", JsonValue::Null),
        f("id", JsonValue::UInt(7)),
        f("image_id", JsonValue::UInt(42)),
        f("updated_at", JsonValue::Str(s("2020-01-02"))),
        f("user_id", JsonValue::UInt(5)),
    ]
}

fn comment_payload() -> JsonValue {
    JsonValue::Obj(vec![f("comment", JsonValue::Obj(comment_obj()))])
}

fn intensities_obj() -> JsonValue {
    JsonValue::Obj(vec![
        f("ne", JsonValue::Float(s("1.25"))),
        f("nw", JsonValue::UInt(2)),
        f("se", JsonValue::Float(s("3.5"))),
        f("sw", JsonValue::Int(-4)),
    ])
}

fn representations_obj() -> JsonValue {
    JsonValue::Obj(vec![
        f("full", JsonValue::Str(s("rf"))),
        f("large", JsonValue::Str(s("rl"))),
        f("medium", JsonValue::Str(s("rm"))),
        f("small", JsonValue::Str(s("rs"))),
        f("tall", JsonValue::Str(s("rt"))),
        f("thumb", JsonValue::Str(s("rth"))),
        f("thumb_small", JsonValue::Str(s("rts"))),
        f("thumb_tiny", JsonValue::Str(s("rtt"))),
    ])
}

fn image_obj() -> Vec<JsonField> {
    vec![
        f("name", JsonValue::Str(s("x"))),
        f("faves", JsonValue::UInt(1)),
        f("format", JsonValue::Str(s("png"))),
        f("updated_at", JsonValue::Str(s("u"))),
        f("downvotes", JsonValue::UInt(0)),
        f("tag_count", JsonValue::UInt(2)),
        f("spoilered", JsonValue::Bool(false)),
        f("width", JsonValue::UInt(100)),
        f("processed", JsonValue::Bool(true)),
        f("created_at", JsonValue::Str(s("c"))),
        f("orig_sha512_hash", JsonValue::Str(s("h"))),
        f("view_url", JsonValue::Str(s("v"))),
        f("intensities", intensities_obj()),
        f("score", JsonValue::Int(-5)),
        f("height", JsonValue::UInt(50)),
        f("mime_type", JsonValue::Str(s("image/png"))),
        f("tag_ids", JsonValue::Arr(vec![JsonValue::UInt(1), JsonValue::UInt(2)])),
        f("wilson_score", JsonValue::Float(s("0.5"))),
        f("first_seen_at", JsonValue::Str(s("f"))),
        f(
            "tags",
            JsonValue::Arr(vec![JsonValue::Str(s("a")), JsonValue::Str(s("b"))]),
        ),
        f("id", JsonValue::UInt(42)),
        f("upvotes", JsonValue::UInt(6)),
        f("comment_count", JsonValue::UInt(7)),
        f("representations", representations_obj()),
        f("thumbnails_generated", JsonValue::Bool(true)),
        f("aspect_ratio", JsonValue::Float(s("2.0"))),
        f("hidden_from_users", JsonValue::Bool(false)),
        f("sha512_hash", JsonValue::Str(s("h2"))),
        f("source_url", JsonValue::Str(s("src"))),
        f("description", JsonValue::Str(s("d"))),
    ]
}

fn image_payload() -> JsonValue {
    JsonValue::Obj(vec![f("image", JsonValue::Obj(image_obj()))])
}

fn forum_obj() -> JsonValue {
    JsonValue::Obj(vec![
        f("description", JsonValue::Str(s("general talk"))),
        f("name", JsonValue::Str(s("Discussion"))),
        f("post_count", JsonValue::UInt(100)),
        f("short_name", JsonValue::Str(s("dis"))),
        f("topic_count", JsonValue::UInt(10)),
    ])
}

fn topic_obj() -> JsonValue {
    JsonValue::Obj(vec![
        f("author", JsonValue::Str(s("mod"))),
        f("last_replied_to_at", JsonValue::Str(s("t1"))),
        f("locked", JsonValue::Bool(false)),
        f("post_count", JsonValue::UInt(3)),
        f("slug", JsonValue::Str(s("ask-the-mods-anything"))),
        f("sticky", JsonValue::Bool(true)),
        f("title", JsonValue::Str(s("Ask the mods anything"))),
        f("user_id", JsonValue::UInt(9)),
        f("view_count", JsonValue::UInt(500)),
    ])
}

fn post_obj() -> JsonValue {
    JsonValue::Obj(vec![
        f("author", JsonValue::Str(s("someone"))),
        f("avatar", JsonValue::Str(s("p.png"))),
        f("body", JsonValue::Str(s("Hi there"))),
        f("created_at", JsonValue::Str(s("t2"))),
        f("edited_at", JsonValue::Null),
        f("id", JsonValue::UInt(1002)),
        f("updated_at", JsonValue::Str(s("t3"))),
    ])
}

fn post_payload() -> JsonValue {
    JsonValue::Obj(vec![
        f("forum", forum_obj()),
        f("topic", topic_obj()),
        f("post", post_obj()),
    ])
}

fn drop_key(payload: JsonValue, outer: &str, key: &str) -> JsonValue {
    match payload {
        JsonValue::Obj(fields) => JsonValue::Obj(
            fields
                .into_iter()
                .map(|fld| {
                    if fld.key == outer {
                        match fld.value {
                            JsonValue::Obj(inner) => JsonField {
                                key: fld.key,
                                value: JsonValue::Obj(
                                    inner.into_iter().filter(|g| g.key != key).collect(),
                                ),
                            },
                            other => JsonField { key: fld.key, value: other },
                        }
                    } else {
                        fld
                    }
                })
                .collect(),
        ),
        other => other,
    }
}

#[test]
fn comment_create_decodes() {
    match decode_event("firehose", "comment:create", comment_payload()) {
        Decoded::Event(FirehoseEvent::CommentCreated(c)) => {
            assert_eq!(c.author, "Alicia");
            assert_eq!(c.avatar, "a.png");
            assert_eq!(c.body, "nice orca");
            assert_eq!(c.created_at, "2020-01-01");
            assert!(matches!(c.edit_reason, JsonValue::Null));
            assert!(matches!(c.edited_at, JsonValue::Null));
            assert_eq!(c.id, 7);
            assert_eq!(c.image_id, 42);
            assert_eq!(c.updated_at, "2020-01-02");
            assert_eq!(c.user_id, Some(5));
        },
        _ => panic!("comment:create did not decode to the created-comment event"),
    }
}

#[test]
fn comment_update_decodes() {
    match decode_event("firehose", "comment:update", comment_payload()) {
        Decoded::Event(FirehoseEvent::CommentUpdated(c)) => {
            assert_eq!(c.id, 7);
            assert_eq!(c.image_id, 42);
        },
        _ => panic!("comment:update did not decode to the updated-comment event"),
    }
}

#[test]
fn image_create_decodes() {
    match decode_event("firehose", "image:create", image_payload()) {
        Decoded::Event(FirehoseEvent::ImageCreated(img)) => {
            assert_eq!(img.name, "x");
            assert_eq!(img.id, 42);
            assert_eq!(img.faves, 1);
            assert_eq!(img.score, -5);
            assert_eq!(img.tag_ids, vec![1, 2]);
            assert_eq!(img.tags, vec![s("a"), s("b")]);
            assert_eq!(img.duplicate_of, None);
            assert_eq!(img.uploader, None);
            assert_eq!(img.source_url, Some(s("src")));
            assert_eq!(img.representations.full, "rf");
            assert_eq!(img.representations.thumb_tiny, "rtt");
            assert!(matches!(img.wilson_score, JsonValue::Float(ref w) if w == "0.5"));
            assert!(matches!(img.intensities.nw, JsonValue::UInt(2)));
            assert!(matches!(img.intensities.sw, JsonValue::Int(-4)));
            assert_eq!(img.description, "d");
        },
        _ => panic!("image:create did not decode to the created-image event"),
    }
}

#[test]
fn image_update_decodes() {
    match decode_event("firehose", "image:update", image_payload()) {
        Decoded::Event(FirehoseEvent::ImageUpdated(img)) => {
            assert_eq!(img.id, 42);
            assert_eq!(img.view_url, "v");
        },
        _ => panic!("image:update did not decode to the updated-image event"),
    }
}

#[test]
fn image_description_update_decodes() {
    let payload = JsonValue::Obj(vec![
        f("image_id", JsonValue::UInt(7)),
        f("added", JsonValue::Str(s("new text"))),
        f("removed", JsonValue::Str(s("old text"))),
    ]);
    match decode_event("firehose", "image:description_update", payload) {
        Decoded::Event(FirehoseEvent::ImageDescriptionUpdated { image_id, added, removed }) => {
            assert_eq!(image_id, 7);
            assert_eq!(added, "new text");
            assert_eq!(removed, "old text");
        },
        _ => panic!("image:description_update did not decode"),
    }
}

#[test]
fn image_process_decodes() {
    let payload = JsonValue::Obj(vec![f("image_id", JsonValue::UInt(9))]);
    match decode_event("firehose", "image:process", payload) {
        Decoded::Event(FirehoseEvent::ImageProcessed { image_id }) => {
            assert_eq!(image_id, 9);
        },
        _ => panic!("image:process did not decode"),
    }
}

#[test]
fn image_source_update_decodes() {
    let payload = JsonValue::Obj(vec![
        f("image_id", JsonValue::UInt(11)),
        f("added", JsonValue::Arr(vec![JsonValue::Str(s("s1"))])),
        f("removed", JsonValue::Arr(Vec::new())),
    ]);
    match decode_event("firehose", "image:source_update", payload) {
        Decoded::Event(FirehoseEvent::ImageSourceUpdated { image_id, added, removed }) => {
            assert_eq!(image_id, 11);
            assert_eq!(added, vec![s("s1")]);
            assert!(removed.is_empty());
        },
        _ => panic!("image:source_update did not decode"),
    }
}

#[test]
fn image_tag_update_decodes() {
    let payload = JsonValue::Obj(vec![
        f("image_id", JsonValue::UInt(12)),
        f(
            "added",
            JsonValue::Arr(vec![JsonValue::Str(s("orca")), JsonValue::Str(s("ocean"))]),
        ),
        f("removed", JsonValue::Arr(vec![JsonValue::Str(s("fish"))])),
    ]);
    match decode_event("firehose", "image:tag_update", payload) {
        Decoded::Event(FirehoseEvent::ImageTagUpdated { image_id, added, removed }) => {
            assert_eq!(image_id, 12);
            assert_eq!(added, vec![s("orca"), s("ocean")]);
            assert_eq!(removed, vec![s("fish")]);
        },
        _ => panic!("image:tag_update did not decode"),
    }
}

#[test]
fn post_create_decodes() {
    match decode_event("firehose", "post:create", post_payload()) {
        Decoded::Event(FirehoseEvent::PostCreated { forum, topic, post }) => {
            assert_eq!(forum.short_name, "dis");
            assert_eq!(forum.post_count, 100);
            assert_eq!(topic.slug, "ask-the-mods-anything");
            assert_eq!(topic.sticky, true);
            assert_eq!(post.id, 1002);
            assert_eq!(post.body, "Hi there");
            assert_eq!(post.edit_reason, None);
            assert_eq!(post.edited_at, None);
            assert_eq!(post.user_id, None);
        },
        _ => panic!("post:create did not decode"),
    }
}

#[test]
fn phx_reply_is_acknowledged() {
    assert!(matches!(
        decode_event("firehose", "phx_reply", JsonValue::Null),
        Decoded::Ack
    ));
}

#[test]
fn other_topic_never_decodes_events() {
    assert!(matches!(
        decode_event("phoenix", "image:create", image_payload()),
        Decoded::OtherTopic
    ));
    assert!(matches!(
        decode_event("phx_reply", "comment:create", comment_payload()),
        Decoded::OtherTopic
    ));
}

#[test]
fn unknown_event_is_ignored() {
    assert!(matches!(
        decode_event("firehose", "unknown:event", JsonValue::Obj(Vec::new())),
        Decoded::Unknown
    ));
}

#[test]
fn missing_comment_field_is_reportable() {
    let payload = drop_key(comment_payload(), "comment", "body");
    assert!(matches!(
        decode_event("firehose", "comment:create", payload),
        Decoded::BadPayload
    ));
}

#[test]
fn missing_image_field_is_reportable() {
    let payload = drop_key(image_payload(), "image", "id");
    assert!(matches!(
        decode_event("firehose", "image:create", payload),
        Decoded::BadPayload
    ));
}

#[test]
fn mistyped_payload_field_is_reportable() {
    let payload = JsonValue::Obj(vec![
        f("image_id", JsonValue::Str(s("7"))),
        f("added", JsonValue::Str(s("new"))),
        f("removed", JsonValue::Str(s("old"))),
    ]);
    assert!(matches!(
        decode_event("firehose", "image:description_update", payload),
        Decoded::BadPayload
    ));
    let negative = JsonValue::Obj(vec![f("image_id", JsonValue::Int(-3))]);
    assert!(matches!(
        decode_event("firehose", "image:process", negative),
        Decoded::BadPayload
    ));
    let mixed = JsonValue::Obj(vec![
        f("image_id", JsonValue::UInt(3)),
        f("added", JsonValue::Arr(vec![JsonValue::UInt(1)])),
        f("removed", JsonValue::Arr(Vec::new())),
    ]);
    assert!(matches!(
        decode_event("firehose", "image:tag_update", mixed),
        Decoded::BadPayload
    ));
}

#[test]
fn oversized_signed_member_is_reportable() {
    let mut fields = comment_obj();
    for fld in fields.iter_mut() {
        if fld.key == "id" {
            fld.value = JsonValue::UInt(u64::MAX);
        }
    }
    let payload = JsonValue::Obj(vec![f("comment", JsonValue::Obj(fields))]);
    assert!(matches!(
        decode_event("firehose", "comment:create", payload),
        Decoded::BadPayload
    ));
}

#[test]
fn optional_members_accept_null_and_absence() {
    let mut fields = comment_obj();
    for fld in fields.iter_mut() {
        if fld.key == "user_id" {
            fld.value = JsonValue::Null;
        }
    }
    let payload = JsonValue::Obj(vec![f("comment", JsonValue::Obj(fields))]);
    match decode_event("firehose", "comment:create", payload) {
        Decoded::Event(FirehoseEvent::CommentCreated(c)) => assert_eq!(c.user_id, None),
        _ => panic!("null user_id refused"),
    }
    let absent = drop_key(comment_payload(), "comment", "user_id");
    match decode_event("firehose", "comment:create", absent) {
        Decoded::Event(FirehoseEvent::CommentCreated(c)) => assert_eq!(c.user_id, None),
        _ => panic!("absent user_id refused"),
    }
}
