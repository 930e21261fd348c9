//! Direction decoding for a two-line (quadrature-style) rotary encoder.
//!
//! A hardware pin-change interrupt fires on every level change of the clock
//! line; the handler samples both lines, classifies the transition into a
//! direction, and buffers it. The main loop drains the buffer and reports
//! each detected turn exactly once. This crate holds the decoding state
//! machine and its delivery rules; sampling the lines, masking the interrupt
//! around each access, and writing to the serial sink are the platform's job.

pub mod direction;
pub mod encoder;
pub mod history;
pub mod slot;
