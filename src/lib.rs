//! A verified bridge between chat rooms and an automation engine: which rooms
//! and messages it may act on, how its own output is tagged and recognised,
//! and how engine responses become outgoing chat messages.

pub mod backend;
pub mod disabled;
pub mod dispatch;
pub mod protocol;
pub mod runtime;
pub mod scope;
pub mod tag;
pub mod text;
pub mod worker;

pub use dispatch::{dispatch_response, OutgoingMessage};
pub use runtime::{context_window_size, RobitRuntime};
pub use scope::RobitScope;
pub use tag::{is_robit_message, strip_robit_prefix};
