//! Tests for the session: join-before-dispatch, arrival-order delivery,
//! failure isolation, and fatal errors.

use furbooru::comment::Comment;
use furbooru::image::Image;
use furbooru::session::{
    FirehoseAdaptor, FirehoseError, FirehoseSession, Handled, HookError, WireFrame,
};

const IMAGE_42: &str = r#"{"name":"x","faves":1,"format":"png","updated_at":"u","downvotes":0,"tag_count":2,"spoilered":false,"width":100,"processed":true,"created_at":"c","orig_sha512_hash":"h","view_url":"v","intensities":{"ne":1.0,"nw":2.0,"se":3.0,"sw":4.0},"score":5,"height":50,"mime_type":"image/png","tag_ids":[1,2],"wilson_score":0.5,"first_seen_at":"f","tags":["a","b"],"id":42,"upvotes":6,"comment_count":7,"representations":{"full":"rf","large":"rl","medium":"rm","small":"rs","tall":"rt","thumb":"rth","thumb_small":"rts","thumb_tiny":"rtt"},"thumbnails_generated":true,"aspect_ratio":2.0,"hidden_from_users":false,"sha512_hash":"h2","description":"d"}"#;

const COMMENT_7: &str = r#"{"author":"Alicia","avatar":"a.png","body":"nice","created_at":"t0","edit_reason":null,"edited_at":null,"id":7,"image_id":42,"updated_at":"t1","user_id":5}"#;

fn image_create_frame() -> WireFrame {
    WireFrame::Text(format!(r#"[0,0,"firehose","image:create",{{"image":{}}}]"#, IMAGE_42))
}

fn image_update_frame() -> WireFrame {
    WireFrame::Text(format!(r#"[0,0,"firehose","image:update",{{"image":{}}}]"#, IMAGE_42))
}

fn comment_create_frame() -> WireFrame {
    WireFrame::Text(format!(
        r#"[0,0,"firehose","comment:create",{{"comment":{}}}]"#,
        COMMENT_7
    ))
}

/// Records every hook call, in order, as a short tag.
struct Recorder {
    calls: Vec<String>,
}

impl FirehoseAdaptor for Recorder {
    fn image_created(&mut self, img: &Image) -> Result<(), HookError> {
        self.calls.push(format!("image_created:{}", img.id));
        Ok(())
    }

    fn image_updated(&mut self, img: &Image) -> Result<(), HookError> {
        self.calls.push(format!("image_updated:{}", img.id));
        Ok(())
    }

    fn comment_created(&mut self, cmt: &Comment) -> Result<(), HookError> {
        self.calls.push(format!("comment_created:{}", cmt.image_id));
        Ok(())
    }
}

/// Fails on the first created image, records everything else.
struct FailsOnImage {
    calls: Vec<String>,
}

impl FirehoseAdaptor for FailsOnImage {
    fn image_created(&mut self, img: &Image) -> Result<(), HookError> {
        self.calls.push(format!("image_created:{}", img.id));
        Err(HookError { message: "cannot keep up".to_owned() })
    }

    fn comment_created(&mut self, cmt: &Comment) -> Result<(), HookError> {
        self.calls.push(format!("comment_created:{}", cmt.image_id));
        Ok(())
    }
}

fn joined_session() -> FirehoseSession {
    let mut session = FirehoseSession::new();
    let join = session.join_frame();
    assert_eq!(join, "[0, 0, \"firehose\", \"phx_join\", {}]");
    session
}

#[test]
fn delivery_order_matches_arrival_order() {
    let session = joined_session();
    let mut rec = Recorder { calls: Vec::new() };
    let frames = vec![image_create_frame(), comment_create_frame(), image_update_frame()];
    let (trace, outcome) = session.run(frames, &mut rec);
    assert!(outcome.is_ok());
    assert_eq!(trace.len(), 3);
    assert_eq!(
        rec.calls,
        vec![
            "image_created:42".to_owned(),
            "comment_created:42".to_owned(),
            "image_updated:42".to_owned(),
        ]
    );
}

#[test]
fn end_to_end_image_then_comment() {
    let mut session = FirehoseSession::new();
    let join = session.join_frame();
    assert_eq!(join, "[0, 0, \"firehose\", \"phx_join\", {}]");
    let mut rec = Recorder { calls: Vec::new() };
    let frames = vec![image_create_frame(), comment_create_frame()];
    let (trace, outcome) = session.run(frames, &mut rec);
    assert!(outcome.is_ok());
    assert_eq!(trace.len(), 2);
    assert!(matches!(trace[0], Handled::Delivered(_)));
    assert!(matches!(trace[1], Handled::Delivered(_)));
    assert_eq!(
        rec.calls,
        vec!["image_created:42".to_owned(), "comment_created:42".to_owned()]
    );
}

#[test]
fn handler_failure_stops_the_session() {
    let session = joined_session();
    let mut rec = FailsOnImage { calls: Vec::new() };
    let frames = vec![image_create_frame(), comment_create_frame()];
    let (trace, outcome) = session.run(frames, &mut rec);
    match outcome {
        Err(FirehoseError::Handler(e)) => assert_eq!(e.message, "cannot keep up"),
        _ => panic!("handler failure did not end the session"),
    }
    assert_eq!(trace.len(), 0);
    assert_eq!(rec.calls, vec!["image_created:42".to_owned()]);
}

#[test]
fn unknown_event_keeps_the_session_alive() {
    let session = joined_session();
    let mut rec = Recorder { calls: Vec::new() };
    let frames = vec![
        WireFrame::Text(r#"[0,0,"firehose","unknown:event",{}]"#.to_owned()),
        image_create_frame(),
    ];
    let (trace, outcome) = session.run(frames, &mut rec);
    assert!(outcome.is_ok());
    assert_eq!(trace.len(), 2);
    match &trace[0] {
        Handled::Unknown { event } => assert_eq!(event, "unknown:event"),
        _ => panic!("unknown event not reported as unknown"),
    }
    assert!(matches!(trace[1], Handled::Delivered(_)));
    assert_eq!(rec.calls, vec!["image_created:42".to_owned()]);
}

#[test]
fn foreign_topics_invoke_no_handler() {
    let session = joined_session();
    let mut rec = Recorder { calls: Vec::new() };
    let frames = vec![
        WireFrame::Text(r#"[0,0,"phoenix","phx_reply",{"status":"ok"}]"#.to_owned()),
        WireFrame::Text(format!(r#"[0,0,"phoenix","image:create",{{"image":{}}}]"#, IMAGE_42)),
    ];
    let (trace, outcome) = session.run(frames, &mut rec);
    assert!(outcome.is_ok());
    assert_eq!(trace.len(), 2);
    assert!(matches!(trace[0], Handled::OtherTopic));
    assert!(matches!(trace[1], Handled::OtherTopic));
    assert!(rec.calls.is_empty());
}

#[test]
fn firehose_phx_reply_is_acknowledged() {
    let session = joined_session();
    let mut rec = Recorder { calls: Vec::new() };
    let frames = vec![WireFrame::Text(
        r#"[0,0,"firehose","phx_reply",{"status":"ok"}]"#.to_owned(),
    )];
    let (trace, outcome) = session.run(frames, &mut rec);
    assert!(outcome.is_ok());
    assert!(matches!(trace[0], Handled::Acked));
    assert!(rec.calls.is_empty());
}

#[test]
fn malformed_envelopes_are_skipped() {
    let session = joined_session();
    let mut rec = Recorder { calls: Vec::new() };
    let frames = vec![
        WireFrame::Text(r#"{"not":"an array"}"#.to_owned()),
        WireFrame::Text(r#"[0,0,"firehose","image:create"]"#.to_owned()),
        WireFrame::Text(r#"[0,0,7,"image:create",{}]"#.to_owned()),
        comment_create_frame(),
    ];
    let (trace, outcome) = session.run(frames, &mut rec);
    assert!(outcome.is_ok());
    assert_eq!(trace.len(), 4);
    assert!(matches!(trace[0], Handled::Malformed));
    assert!(matches!(trace[1], Handled::Malformed));
    assert!(matches!(trace[2], Handled::Malformed));
    assert!(matches!(trace[3], Handled::Delivered(_)));
    assert_eq!(rec.calls, vec!["comment_created:42".to_owned()]);
}

#[test]
fn bad_payload_is_skipped_not_fatal() {
    let session = joined_session();
    let mut rec = Recorder { calls: Vec::new() };
    let frames = vec![
        WireFrame::Text(r#"[0,0,"firehose","image:create",{"image":{"id":42}}]"#.to_owned()),
        comment_create_frame(),
    ];
    let (trace, outcome) = session.run(frames, &mut rec);
    assert!(outcome.is_ok());
    assert_eq!(trace.len(), 2);
    match &trace[0] {
        Handled::BadPayload { event } => assert_eq!(event, "image:create"),
        _ => panic!("ill-shaped payload not reported"),
    }
    assert_eq!(rec.calls, vec!["comment_created:42".to_owned()]);
}

#[test]
fn unparseable_text_is_fatal() {
    let session = joined_session();
    let mut rec = Recorder { calls: Vec::new() };
    let frames = vec![
        comment_create_frame(),
        WireFrame::Text("not json at all".to_owned()),
        image_create_frame(),
    ];
    let (trace, outcome) = session.run(frames, &mut rec);
    match outcome {
        Err(FirehoseError::Parse(text)) => assert_eq!(text, "not json at all"),
        _ => panic!("unparseable frame did not end the session"),
    }
    assert_eq!(trace.len(), 1);
    assert_eq!(rec.calls, vec!["comment_created:42".to_owned()]);
}

#[test]
fn non_text_frames_are_skipped() {
    let session = joined_session();
    let mut rec = Recorder { calls: Vec::new() };
    let frames = vec![WireFrame::NonText, comment_create_frame(), WireFrame::NonText];
    let (trace, outcome) = session.run(frames, &mut rec);
    assert!(outcome.is_ok());
    assert_eq!(trace.len(), 3);
    assert!(matches!(trace[0], Handled::NonText));
    assert!(matches!(trace[2], Handled::NonText));
    assert_eq!(rec.calls, vec!["comment_created:42".to_owned()]);
}

/// Overrides nothing: every hook keeps its no-op default.
struct Silent;

impl FirehoseAdaptor for Silent {}

#[test]
fn default_hooks_succeed() {
    let session = joined_session();
    let mut silent = Silent;
    let frames = vec![image_create_frame(), comment_create_frame()];
    let (trace, outcome) = session.run(frames, &mut silent);
    assert!(outcome.is_ok());
    assert_eq!(trace.len(), 2);
}
