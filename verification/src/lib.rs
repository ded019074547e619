//! Verified core of a remote-control command channel for a media playback
//! client, together with the decision logic of its companion web-control
//! component.
//!
//! The crate holds the pure, verified parts: the command parser, the
//! listener lifecycle state machine with its shutdown protocol, the
//! credential cache, and the playback-dispatch planning. The surrounding
//! transports (sockets, named pipes) and network calls live outside the
//! verified core and consume these functions.

pub mod command;
pub mod credential;
pub mod listener;
pub mod text;
pub mod web;
