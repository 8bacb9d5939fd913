//! Core of a desktop notification service.
//!
//! The crate models the lifecycle of desktop notifications: requests coming
//! in over IPC are validated and normalized into canonical records, published
//! on a bounded fan-out bus, and tracked by a registry that withdraws them
//! when they expire or are closed.  All of that logic is verified; the IPC
//! transport and the on-screen presentation live outside this crate and talk
//! to it through plain values.

pub mod bus;
pub mod entries;
pub mod hints;
pub mod image;
pub mod notification;
pub mod receiver;
pub mod registry;
