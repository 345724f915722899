//! A chat room server's core: the room registry, the per-room history and
//! fan-out, the wire codec and the per-connection state machine.
//!
//! The crate performs no I/O. A connection handler feeds each received line
//! to [`session::Session::handle_line`] and carries out the effects that come
//! back.

pub mod text;
pub mod json;
pub mod codec;
pub mod channel;
pub mod room;
pub mod registry;
pub mod session;
pub mod forwarding;
pub mod theorems;
