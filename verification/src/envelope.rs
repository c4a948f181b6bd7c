//! The envelope codec: the five-element wire frame.
//!
//! Every frame on the channel is a JSON array
//! `[join_ref, msg_ref, topic, event, payload]`. A frame of any other
//! shape is classified malformed, which is never fatal to the session:
//! the caller skips it and reads on. The codec also owns the two fixed
//! outbound frames, the join frame and the heartbeat frame.

use vstd::prelude::*;
use crate::json::JsonValue;

verus! {

/// One decoded wire frame: the channel, the event name, and the
/// event-dependent payload. The two leading correlation numbers of the
/// wire form carry no meaning for this client and are dropped.
pub struct Envelope {
    pub topic: String,
    pub event: String,
    pub payload: JsonValue,
}

/// What classification makes of a frame.
pub enum Classified {
    /// A well-shaped five-element frame.
    Envelope(Envelope),
    /// Anything else: not an array, wrong length, or a topic or event
    /// that is not a string. Skipped, never fatal.
    Malformed,
}

/// The classification of a parsed frame value.
pub open spec fn spec_classify(v: JsonValue) -> Classified {
    match v {
        JsonValue::Arr(items) => if items@.len() == 5 {
            match (items@[2], items@[3]) {
                (JsonValue::Str(topic), JsonValue::Str(event)) => Classified::Envelope(
                    Envelope { topic, event, payload: items@[4] },
                ),
                _ => Classified::Malformed,
            }
        } else {
            Classified::Malformed
        },
        _ => Classified::Malformed,
    }
}

/// Classifies a parsed frame value, recovering the topic, the event
/// name and the payload exactly when the frame is well shaped.
pub fn classify(v: JsonValue) -> (r: Classified)
    ensures
        r == spec_classify(v),
{
    let mut items = match v {
        JsonValue::Arr(items) => items,
        _ => {
            return Classified::Malformed;
        },
    };
    if items.len() != 5 {
        return Classified::Malformed;
    }
    let payload = items.pop().unwrap();
    let event_v = items.pop().unwrap();
    let topic_v = items.pop().unwrap();
    match (topic_v, event_v) {
        (JsonValue::Str(topic), JsonValue::Str(event)) => Classified::Envelope(
            Envelope { topic, event, payload },
        ),
        _ => Classified::Malformed,
    }
}

/// Builds the five-element frame carrying a topic, an event name and a
/// payload; classification recovers the three exactly.
pub fn make_frame(topic: String, event: String, payload: JsonValue) -> (r: JsonValue)
    ensures
        spec_classify(r) == Classified::Envelope(Envelope { topic, event, payload }),
{
    let mut items: Vec<JsonValue> = Vec::new();
    items.push(JsonValue::UInt(0));
    items.push(JsonValue::UInt(0));
    items.push(JsonValue::Str(topic));
    items.push(JsonValue::Str(event));
    items.push(payload);
    JsonValue::Arr(items)
}

/// Lossless decode: any five-element array whose third and fourth
/// elements are strings classifies as the envelope holding exactly that
/// topic, event name and payload.
pub proof fn lemma_classify_lossless(v: JsonValue, topic: String, event: String)
    requires
        v is Arr,
        v->Arr_0@.len() == 5,
        v->Arr_0@[2] == JsonValue::Str(topic),
        v->Arr_0@[3] == JsonValue::Str(event),
    ensures
        spec_classify(v) == Classified::Envelope(
            Envelope { topic, event, payload: v->Arr_0@[4] },
        ),
{
}

/// Any frame that is not an array of exactly five elements with string
/// topic and event classifies as malformed; classification itself has
/// no failing outcome.
pub proof fn lemma_bad_shape_malformed(v: JsonValue)
    requires
        !(v is Arr) || v->Arr_0@.len() != 5 || !(v->Arr_0@[2] is Str) || !(v->Arr_0@[3] is Str),
    ensures
        spec_classify(v) == Classified::Malformed,
{
}

/// The fixed frame that joins the firehose channel, sent once right
/// after the socket opens.
pub fn join_frame_text() -> (r: String)
    ensures
        r@ == "[0, 0, \"firehose\", \"phx_join\", {}]"@,
{
    "[0, 0, \"firehose\", \"phx_join\", {}]".to_owned()
}

/// The fixed keep-alive frame, sent every heartbeat interval.
pub fn heartbeat_frame_text() -> (r: String)
    ensures
        r@ == "[0, 0, \"phoenix\", \"heartbeat\", {}]"@,
{
    "[0, 0, \"phoenix\", \"heartbeat\", {}]".to_owned()
}

} // verus!
