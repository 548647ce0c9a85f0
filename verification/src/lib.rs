//! Finds the best video attached to a tweet and plans its download.
//!
//! The library holds every decision of the tool: reading the tweet address,
//! picking the credentials, describing the requests, choosing the video
//! variant with the highest bitrate, and stepping through the run. Sending
//! requests and touching the disk are left to the caller.

pub mod credentials;
pub mod encoding;
pub mod failure;
pub mod json;
pub mod pipeline;
pub mod reference;
pub mod request;
pub mod text;
pub mod token;
pub mod video;
