//! Bindings to the part of a preboot firmware interface that is needed to reach
//! the linear frame buffer of the graphics output protocol.
//!
//! - [`layout`] computes where the fields of a fixed-shape record lie, and
//!   [`records`] describes the firmware's records and proves that the fields
//!   that are read lie at the offsets that the firmware interface publishes.
//! - [`locator`] asks the firmware for the graphics output protocol and turns
//!   its reply into the address of the protocol or a failure.
//! - [`graphics`] derives the view of the frame buffer from the active mode of
//!   the protocol.
//! - [`boot`] states the order of these steps as a state machine.
//!
//! The library holds no reference into firmware memory. The firmware's lookup
//! function is called through a function that the caller supplies, and the
//! records that the firmware owns come in as plain values.

pub mod boot;
pub mod graphics;
pub mod guid;
pub mod layout;
pub mod locator;
pub mod records;
pub mod status;
