//! Core logic of a system-tray volume control.
//!
//! The crate models the subsystem that bridges a tray-icon event source into a
//! single-threaded UI scheduler and positions a borderless popup window under
//! two display-server protocols.  Everything here is pure decision logic over
//! plain values: the surrounding process performs the protocol I/O and feeds
//! the results back in.

pub mod backend;
pub mod card;
pub mod channel;
pub mod controller;
pub mod dispatch;
pub mod errors;
pub mod meter;
pub mod placement;
pub mod settings;
pub mod strutil;
pub mod tray;
pub mod volume;
pub mod wayland;
pub mod x11;

pub use volume::MAX_NATURAL_VOL;
pub use volume::MAX_SCALE_VOL;
