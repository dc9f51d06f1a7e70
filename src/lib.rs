//! Input remapping pipeline: events captured from a grabbed input device are
//! routed through a per-code dispatch table (or passed through unchanged) and
//! handed, in order, to the writer of a virtual device.

pub mod channel;
pub mod codec;
pub mod dispatch;
pub mod event;
pub mod pipeline;

pub use codec::{passthrough_ev, send_key, send_syn};
