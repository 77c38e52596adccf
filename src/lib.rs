//! Relays messages from a queue to a webhook endpoint.
//!
//! A message is the JSON text of an envelope: an optional target URI, a
//! payload and optional attachments. [`handler::prepare`] decodes it, picks
//! its target and builds the request (a JSON POST, or a multipart form when
//! there are attachments); the caller sends it and hands the reply's text to
//! [`handler::outcome`].
use vstd::prelude::*;

pub mod json;
pub mod fields;
pub mod model;
pub mod decode;
pub mod request;
pub mod target;
pub mod handler;
pub mod laws;

verus! {

} // verus!
