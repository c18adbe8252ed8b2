//! Input sampling and report synthesis engine for a USB HID sim-racing
//! controller.
//!
//! The crate holds the verified core of the firmware: the axis quantizer,
//! the per-channel debounce/edge filter, the bit-exact report builder, the
//! change-gated transmitter, the device lifecycle tracker and the host
//! control responder.  Everything here works on plain values; the hardware
//! edges (GPIO, ADC and USB transfers) live outside the library and hand
//! their readings in and take the finished report bytes out.

pub mod channel;
pub mod control;
pub mod debounce;
pub mod lifecycle;
pub mod pipeline;
pub mod quantize;
pub mod report;
pub mod transmit;
