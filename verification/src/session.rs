//! The firehose session: the join handshake state and the dispatch
//! loop.
//!
//! A session is joined exactly once, before any frame is handled. Each
//! inbound frame then runs through the envelope codec and the event
//! decoder; a decoded domain event is handed, synchronously and in
//! arrival order, to the one matching hook of the caller's handler set.
//! A frame that fails JSON parsing ends the session, as does a handler
//! that reports failure; every malformed or unrecognized frame is
//! skipped and the session continues.

use vstd::prelude::*;
use vstd::string::StringExecFns;
use crate::comment::Comment;
use crate::envelope::{Classified, Envelope, classify, join_frame_text, spec_classify};
use crate::event::{Decoded, FirehoseEvent, SpecDecoded, SpecEvent, decode_event, spec_decode};
use crate::forum::Forum;
use crate::image::Image;
use crate::post::Post;
use crate::topic::Topic;
use crate::wire::{json_parse, parse_json_text, rewrite_to_wss, wss_rewrite};

verus! {

/// One frame as it arrives on the socket: a text frame carries protocol
/// data, anything else (binary or control traffic) does not.
#[derive(Debug, Clone, PartialEq)]
pub enum WireFrame {
    Text(String),
    NonText,
}

/// A failure reported by a handler hook, carried out of the session.
#[derive(Debug)]
pub struct HookError {
    pub message: String,
}

/// What ends a session.
#[derive(Debug)]
pub enum FirehoseError {
    /// A text frame that does not parse as JSON at all; the offending
    /// text is carried along.
    Parse(String),
    /// A handler hook reported failure on a delivered event.
    Handler(HookError),
}

/// The handler capability set: one hook per domain event kind. Every
/// hook defaults to a successful no-op, so an implementer overrides
/// only the events it cares about. A hook that returns an error ends
/// the whole session.
pub trait FirehoseAdaptor {
    /// Responds to `image:create`: a new image was created.
    fn image_created(&mut self, _img: &Image) -> Result<(), HookError> {
        Ok(())
    }

    /// Responds to `image:description_update`: an image description
    /// changed from the removed text to the added text.
    fn image_description_updated(
        &mut self,
        _image_id: u64,
        _added: &String,
        _removed: &String,
    ) -> Result<(), HookError> {
        Ok(())
    }

    /// Responds to `image:process`: an image finished processing.
    fn image_processed(&mut self, _id: u64) -> Result<(), HookError> {
        Ok(())
    }

    /// Responds to `image:source_update`: the sources of an image
    /// changed.
    fn image_source_updated(
        &mut self,
        _id: u64,
        _added: &Vec<String>,
        _removed: &Vec<String>,
    ) -> Result<(), HookError> {
        Ok(())
    }

    /// Responds to `image:tag_update`: the tags of an image changed.
    fn image_tag_updated(
        &mut self,
        _id: u64,
        _added: &Vec<String>,
        _removed: &Vec<String>,
    ) -> Result<(), HookError> {
        Ok(())
    }

    /// Responds to `image:update`: an image was updated.
    fn image_updated(&mut self, _img: &Image) -> Result<(), HookError> {
        Ok(())
    }

    /// Responds to `comment:create`: a comment was created.
    fn comment_created(&mut self, _cmt: &Comment) -> Result<(), HookError> {
        Ok(())
    }

    /// Responds to `comment:update`: a comment was updated.
    fn comment_updated(&mut self, _cmt: &Comment) -> Result<(), HookError> {
        Ok(())
    }

    /// Responds to `post:create`: a forum post was created.
    fn post_created(&mut self, _frm: &Forum, _top: &Topic, _pst: &Post) -> Result<(), HookError> {
        Ok(())
    }
}

/// How one frame was handled without ending the session.
pub enum Handled {
    /// A domain event, delivered to its hook, which succeeded.
    Delivered(FirehoseEvent),
    /// Not a text frame: skipped.
    NonText,
    /// Not a well-shaped five-element envelope: skipped.
    Malformed,
    /// A topic other than `firehose`: skipped.
    OtherTopic,
    /// A `phx_reply` under the firehose topic: acknowledged.
    Acked,
    /// An unknown event name under `firehose`: skipped, reportable.
    Unknown { event: String },
    /// A recognized event whose payload is ill shaped: skipped,
    /// reportable.
    BadPayload { event: String },
}

/// The outcome one frame must lead to, fixed by the frame alone —
/// except that a delivery's hook may also fail, which no frame
/// determines.
pub enum SpecOutcome {
    Deliver(SpecEvent),
    NonText,
    Malformed,
    OtherTopic,
    Acked,
    Unknown { event: String },
    BadPayload { event: String },
    FatalParse,
}

impl Handled {
    /// The outcome this handling witnesses.
    pub open spec fn deep(self) -> SpecOutcome {
        match self {
            Handled::Delivered(e) => SpecOutcome::Deliver(e.deep()),
            Handled::NonText => SpecOutcome::NonText,
            Handled::Malformed => SpecOutcome::Malformed,
            Handled::OtherTopic => SpecOutcome::OtherTopic,
            Handled::Acked => SpecOutcome::Acked,
            Handled::Unknown { event } => SpecOutcome::Unknown { event },
            Handled::BadPayload { event } => SpecOutcome::BadPayload { event },
        }
    }
}

/// The outcome of one frame: skip what is not text, fail on what is
/// not JSON, skip malformed envelopes, and decode the rest.
pub open spec fn spec_step(frame: WireFrame) -> SpecOutcome {
    match frame {
        WireFrame::NonText => SpecOutcome::NonText,
        WireFrame::Text(s) => match json_parse(s@) {
            None => SpecOutcome::FatalParse,
            Some(v) => match spec_classify(v) {
                Classified::Malformed => SpecOutcome::Malformed,
                Classified::Envelope(env) => match spec_decode(env.topic@, env.event@, env.payload) {
                    SpecDecoded::Event(se) => SpecOutcome::Deliver(se),
                    SpecDecoded::Ack => SpecOutcome::Acked,
                    SpecDecoded::OtherTopic => SpecOutcome::OtherTopic,
                    SpecDecoded::Unknown => SpecOutcome::Unknown { event: env.event },
                    SpecDecoded::BadPayload => SpecOutcome::BadPayload { event: env.event },
                },
            },
        },
    }
}

/// The domain events a sequence of frames carries, in arrival order.
pub open spec fn spec_deliveries(frames: Seq<WireFrame>) -> Seq<SpecEvent>
    decreases frames.len(),
{
    if frames.len() == 0 {
        Seq::empty()
    } else {
        let init = spec_deliveries(frames.drop_last());
        match spec_step(frames.last()) {
            SpecOutcome::Deliver(se) => init.push(se),
            _ => init,
        }
    }
}

/// The events a trace records as delivered, in order.
pub open spec fn delivered_of(trace: Seq<Handled>) -> Seq<SpecEvent>
    decreases trace.len(),
{
    if trace.len() == 0 {
        Seq::empty()
    } else {
        let init = delivered_of(trace.drop_last());
        match trace.last() {
            Handled::Delivered(e) => init.push(e.deep()),
            _ => init,
        }
    }
}

/// Delivery order equals arrival order: a trace that matches the
/// per-frame outcomes records exactly the domain events of its frames,
/// in the order the frames arrived.
pub proof fn lemma_delivery_order(frames: Seq<WireFrame>, trace: Seq<Handled>)
    requires
        trace.len() <= frames.len(),
        forall|j: int| 0 <= j < trace.len() ==> trace[j].deep() == spec_step(frames[j]),
    ensures
        delivered_of(trace) == spec_deliveries(frames.take(trace.len() as int)),
    decreases trace.len(),
{
    if trace.len() > 0 {
        let n = trace.len() as int;
        lemma_delivery_order(frames, trace.drop_last());
        assert(frames.take(n).drop_last() =~= frames.take(n - 1));
        assert(frames.take(n).last() == frames[n - 1]);
        assert(trace.drop_last().len() == n - 1);
    }
}

/// Builds the request target for the socket: the base URL with the
/// fixed socket path appended and the scheme forced to the secure
/// socket scheme.
pub fn socket_url(base: &str) -> (r: Option<String>)
    ensures
        match r {
            Some(u) => wss_rewrite(base@ + "socket/websocket?vsn=2.0.0"@) == Some(u@),
            None => wss_rewrite(base@ + "socket/websocket?vsn=2.0.0"@) is None,
        },
{
    let mut target: String = base.to_owned();
    target.append("socket/websocket?vsn=2.0.0");
    rewrite_to_wss(target.as_str())
}

/// The fixed interval, in seconds, between keep-alive frames: the
/// keeper sleeps this long, sends the heartbeat frame, and repeats
/// until a send fails.
pub fn heartbeat_interval_secs() -> (r: u64)
    ensures
        r == 30,
{
    30
}

/// One firehose session: joined at most once, joined before any frame
/// is handled.
pub struct FirehoseSession {
    pub joined: bool,
}

impl FirehoseSession {
    /// A fresh session that has not joined the channel yet.
    pub fn new() -> (s: Self)
        ensures
            !s.joined,
    {
        FirehoseSession { joined: false }
    }

    /// Hands out the join frame to send, exactly once per session, and
    /// marks the session joined.
    pub fn join_frame(&mut self) -> (r: String)
        requires
            !old(self).joined,
        ensures
            final(self).joined,
            r@ == "[0, 0, \"firehose\", \"phx_join\", {}]"@,
    {
        self.joined = true;
        join_frame_text()
    }

    /// Handles one inbound frame: the result is the frame's fixed
    /// outcome, except that a delivery's hook may fail instead.
    pub fn handle_frame<A: FirehoseAdaptor>(&self, frame: WireFrame, handlers: &mut A) -> (r:
        Result<Handled, FirehoseError>)
        requires
            self.joined,
        ensures
            spec_step(frame) is Deliver ==> ((r matches Ok(h) && h.deep() == spec_step(frame))
                || (r matches Err(FirehoseError::Handler(_)))),
            spec_step(frame) is FatalParse ==> ({
                &&& r matches Err(FirehoseError::Parse(s))
                &&& frame matches WireFrame::Text(t)
                &&& s == t
            }),
            !(spec_step(frame) is FatalParse) && !(spec_step(frame) is Deliver) ==> (
            r matches Ok(h) && h.deep() == spec_step(frame)),
    {
        let text = match frame {
            WireFrame::NonText => {
                return Ok(Handled::NonText);
            },
            WireFrame::Text(s) => s,
        };
        let v = match parse_json_text(text.as_str()) {
            Some(v) => v,
            None => {
                return Err(FirehoseError::Parse(text));
            },
        };
        let env = match classify(v) {
            Classified::Envelope(env) => env,
            Classified::Malformed => {
                return Ok(Handled::Malformed);
            },
        };
        let Envelope { topic, event, payload } = env;
        match decode_event(topic.as_str(), event.as_str(), payload) {
            Decoded::OtherTopic => Ok(Handled::OtherTopic),
            Decoded::Ack => Ok(Handled::Acked),
            Decoded::Unknown => Ok(Handled::Unknown { event }),
            Decoded::BadPayload => Ok(Handled::BadPayload { event }),
            Decoded::Event(e) => deliver(e, handlers),
        }
    }

    /// Feeds a whole sequence of frames through the session: handles
    /// them in order, stops at the first parse failure or handler
    /// failure, and reports each frame's handling in order.
    pub fn run<A: FirehoseAdaptor>(&self, frames: Vec<WireFrame>, handlers: &mut A) -> (r: (
        Vec<Handled>,
        Result<(), FirehoseError>,
    ))
        requires
            self.joined,
        ensures
            r.0@.len() <= frames@.len(),
            forall|j: int| 0 <= j < r.0@.len() ==> r.0@[j].deep() == spec_step(frames@[j]),
            r.1 is Ok ==> r.0@.len() == frames@.len(),
            r.1 matches Err(FirehoseError::Parse(s)) ==> ({
                &&& r.0@.len() < frames@.len()
                &&& spec_step(frames@[r.0@.len() as int]) is FatalParse
                &&& frames@[r.0@.len() as int] matches WireFrame::Text(t)
                &&& s == t
            }),
            r.1 matches Err(FirehoseError::Handler(_)) ==> (r.0@.len() < frames@.len()
                && spec_step(frames@[r.0@.len() as int]) is Deliver),
            delivered_of(r.0@) == spec_deliveries(frames@.take(r.0@.len() as int)),
    {
        let ghost frames0 = frames@;
        let mut rest = frames;
        let mut trace: Vec<Handled> = Vec::new();
        while rest.len() > 0
            invariant
                self.joined,
                frames0 == frames@,
                trace@.len() + rest@.len() == frames0.len(),
                rest@ == frames0.skip(trace@.len() as int),
                forall|j: int| 0 <= j < trace@.len() ==> trace@[j].deep() == spec_step(frames0[j]),
            decreases rest@.len(),
        {
            let f = rest.remove(0);
            proof {
                assert(f == frames0[trace@.len() as int]);
            }
            match self.handle_frame(f, handlers) {
                Ok(h) => {
                    trace.push(h);
                    proof {
                        assert(rest@ =~= frames0.skip(trace@.len() as int));
                    }
                },
                Err(e) => {
                    proof {
                        lemma_delivery_order(frames0, trace@);
                    }
                    return (trace, Err(e));
                },
            }
        }
        proof {
            assert(trace@.len() == frames0.len());
            lemma_delivery_order(frames0, trace@);
        }
        (trace, Ok(()))
    }
}

/// Delivers one domain event to its matching hook; on success the
/// handling records exactly that event.
fn deliver<A: FirehoseAdaptor>(e: FirehoseEvent, handlers: &mut A) -> (r: Result<
    Handled,
    FirehoseError,
>)
    ensures
        (r matches Ok(h) && h == Handled::Delivered(e)) || (r matches Err(
            FirehoseError::Handler(_),
        )),
{
    let outcome = match &e {
        FirehoseEvent::CommentCreated(c) => handlers.comment_created(c),
        FirehoseEvent::CommentUpdated(c) => handlers.comment_updated(c),
        FirehoseEvent::ImageCreated(img) => handlers.image_created(img),
        FirehoseEvent::ImageUpdated(img) => handlers.image_updated(img),
        FirehoseEvent::ImageDescriptionUpdated { image_id, added, removed } => handlers
            .image_description_updated(*image_id, added, removed),
        FirehoseEvent::ImageProcessed { image_id } => handlers.image_processed(*image_id),
        FirehoseEvent::ImageSourceUpdated { image_id, added, removed } => handlers
            .image_source_updated(*image_id, added, removed),
        FirehoseEvent::ImageTagUpdated { image_id, added, removed } => handlers
            .image_tag_updated(*image_id, added, removed),
        FirehoseEvent::PostCreated { forum, topic, post } => handlers.post_created(
            forum,
            topic,
            post,
        ),
    };
    match outcome {
        Ok(()) => Ok(Handled::Delivered(e)),
        Err(he) => Err(FirehoseError::Handler(he)),
    }
}

} // verus!
