//! Event-dispatch core of a language server: the main-loop substrate that
//! merges asynchronous event sources into one serialized stream, routes typed
//! requests to pooled handlers while tracking pending identifiers, maintains
//! the virtual-filesystem overlay and the set of subscribed documents, and
//! translates protocol line/column positions (UTF-16 code units) to byte
//! offsets and back.
//!
//! Everything here works on plain values: the transport framing, JSON
//! serialization, threads and channels live outside the library and hand in
//! already-decoded events.

pub mod conv;
pub mod dispatch;
pub mod line_index;
pub mod pending;
pub mod server;
pub mod subscriptions;
pub mod translate;
pub mod uri;
pub mod vfs;
pub mod world;
