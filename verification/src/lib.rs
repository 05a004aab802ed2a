//! Client-side core of a small chat widget.
//!
//! A session keeps the messages known to the client in one ordered store. A
//! message the viewer sends goes to the end of the store at once and is
//! handed to the server; a poll of the server brings its full list, which
//! replaces the store. The store is shown as a feed of nodes, each marked as
//! the viewer's own or somebody else's.
//!
//! Nothing here talks to a browser or a network. The session is told what
//! happened (what was typed, what time it is, what the server answered) and
//! says what is to be done about it: which request to issue, what markup to
//! show.

pub mod clock;
pub mod endpoint;
pub mod host;
pub mod laws;
pub mod message;
pub mod render;
pub mod request;
pub mod session;
pub mod text;

pub use message::{ChatResponse, Message};
pub use session::ChatApp;
