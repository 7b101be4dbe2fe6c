//! A live model of a Z-Wave mesh network.
//!
//! The library consumes a stream of low-level driver notifications and
//! maintains a consistent snapshot of controllers, nodes and per-node
//! values, while translating each notification into a strongly typed
//! domain event.  The translation and the state it maintains are verified;
//! the surrounding process (device discovery, the driver itself, thread
//! and channel wiring) lives outside the library and feeds it plain
//! values.

use vstd::prelude::*;

pub mod assoc;
pub mod codes;
pub mod devices;
pub mod error;
pub mod events;
pub mod ids;
pub mod laws;
pub mod state;
pub mod text;
pub mod translate;

pub use codes::ControllerError;
pub use codes::ControllerState;
pub use codes::NotificationCode;
pub use codes::NotificationKind;
pub use devices::is_usb_zwave_device;
pub use error::Error;
pub use events::ZWaveNotification;
pub use ids::Controller;
pub use ids::Node;
pub use ids::ValueID;
pub use ids::ValueIdentity;
pub use state::ControllerInfo;
pub use state::State;
pub use state::StateModel;
pub use translate::RawNotification;
