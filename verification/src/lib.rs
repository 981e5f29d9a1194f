//! The content cell of a single addressable web page. A page shows either
//! live content — a title and a body, pushed to connected viewers as named
//! events over a streaming response — or static content, a fixed byte payload
//! with an optional media type that changes only on reload.
//!
//! [`content`] holds the state machine: every mutation decides whether a
//! change occurred, what minimal event to broadcast, and whether the
//! subscriber fan-out must be replaced. [`event`] builds the events and their
//! wire text. [`laws`] states and proves the properties the cell guarantees
//! across mutations. The fan-out itself — registering subscriber channels and
//! draining events onto their streams — belongs to the surrounding transport
//! layer, which carries out what the cell decides.

pub mod content;
pub mod event;
pub mod laws;
