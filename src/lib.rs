//! Bridges a database connection's notification messages into an ordered,
//! cancellable stream of typed notifications.
//!
//! The library holds the decisions: how a raw protocol message is classified,
//! what the polling side does with each outcome of a poll, what the consuming
//! side is handed on each pull, and how shutdown moves from either side to the
//! other. Connections, tasks and waiting are left to the code that drives it.

mod event;
mod bridge;
mod laws;

pub use event::{decode, decode_spec, DecodedEvent, Notification, RawMessage, SourceEvent, TransportError};
pub use bridge::{Bridge, BridgeModel, DriverAction, Phase, Pull, StreamError, Termination, initial, deliver_spec, cancel_spec, finish_driver_spec, terminal_pull, next_spec};
pub use laws::{
    as_items, as_messages, feed, law_cancel_idempotent, law_cancel_stops_intake,
    law_end_of_stream_once, law_error_after_delivered, law_shutdown_is_final,
    law_stream_yields_notifications_in_order,
    notifications_of, run_pulls, spent,
};
