//! A verified client core for a content-board firehose: the realtime
//! event channel of the site's pub/sub socket. The library decodes the
//! five-element wire envelope, maps `(topic, event, payload)` triples to
//! typed domain events, and dispatches them to caller-supplied handlers
//! in arrival order, tolerating malformed frames without ending the
//! session.

pub mod comment;
pub mod envelope;
pub mod event;
pub mod forum;
pub mod image;
pub mod json;
pub mod post;
pub mod session;
pub mod topic;
pub mod wire;

pub use comment::Comment;
pub use event::{FirehoseEvent, Message};
pub use forum::Forum;
pub use image::{Image, Intensities, Representations};
pub use post::Post;
pub use session::{FirehoseAdaptor, FirehoseSession};
pub use topic::Topic;
