//! Propagates songs referenced in chat messages to two streaming-service
//! playlists: a free-text-search catalog and an OAuth-protected catalog.
//!
//! The library decides everything: which messages carry a song, which
//! requests are sent to each provider and in what order, and how each reply
//! moves a propagation cycle forward. The caller performs the requests and
//! hands back what came of them.

mod text;

pub mod query;
pub mod decimal;
pub mod request;
pub mod free_text;
pub mod oauth;
pub mod pipeline;
