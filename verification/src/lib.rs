//! Admission control for a live-streaming server.
//!
//! Streamers publish streams to a media server, and players watch them. The media server asks
//! before it opens a connection: a streamer is let in with the key of the stream, a player if the
//! streamer allowed it. A player waits in the queue of the stream; the streamer sees the queue on a
//! dashboard and allows or denies each player there. An admin creates and removes streams.
//!
//! The library decides and keeps the books. It sends nothing, reads no clock and touches no
//! database: what it needs from there are arguments, and what is due is in its results.
//!
//! - [`admission`]: the answer to the media server.
//! - [`manager`]: who waits, who may watch, and who is told.
//! - [`dashboard`], [`player`], [`admin`]: pages and sockets of the three roles.
//! - [`config`], [`keys`]: credentials, and how keys are hashed and checked.
//! - [`statistics`]: what the media server reports of a stream.
//! - [`heartbeat`]: when a silent client is given up.
//! - [`queue`]: a queue of connections that are decided on one by one.
//! - [`static_files`]: files that are served as they are.
//! - [`laws`]: what holds of calls of these functions, one by one and one after the other.
//! - [`uuids`], [`text`], [`table`]: identifiers, strings and keyed tables.

pub mod admin;
pub mod admission;
pub mod config;
pub mod dashboard;
pub mod heartbeat;
pub mod keys;
pub mod laws;
pub mod manager;
pub mod player;
pub mod queue;
pub mod static_files;
pub mod statistics;
pub mod table;
pub mod text;
pub mod uuids;
