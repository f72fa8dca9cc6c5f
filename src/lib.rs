//! Decoding for a streaming platform's three wire protocols: EventSub
//! notifications (dispatched on their kind and version), PubSub frames (topic
//! text and a JSON message nested as a string), and Helix REST responses
//! (interpreted by status code first).
//!
//! Every decoder states, over the parsed JSON tree, exactly which value or
//! which error it yields; the encoders state that decoding their output gives
//! the value back.
pub mod eventsub;
pub mod fields;
pub mod helix;
pub mod json;
pub mod moderation;
pub mod payloads;
pub mod pubsub;
pub mod text;
pub mod timestamp;
pub mod topic;
