//! Decision logic of an MPRIS adapter for a music player: the mapping of the
//! player's state onto the MPRIS schema, the parsing of content links, and the
//! translation of MPRIS requests into calls on the playback engine and queue.
pub mod dispatch;
pub mod manager;
pub mod mapper;
pub mod model;
pub mod resolver;
pub mod text;
