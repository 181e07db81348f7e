//! Protocol core of a driver for the ATI Nano25 force/torque transducer.
//!
//! The transducer speaks a small fixed-length binary protocol over a byte
//! stream: a request is a 20-byte command frame, a force/torque reply is a
//! 16-byte sample frame of big-endian fields. This crate holds everything
//! about that protocol that is pure computation: building command frames,
//! saying what each operation reads back, decoding a reply into raw counts
//! and scaling the counts into physical units as exact fractions. It performs
//! no I/O; a transport writes the request and supplies the reply bytes.

pub mod calibration;
pub mod command;
pub mod sample;
pub mod sensor;

pub use calibration::{Calibration, Quantity};
pub use command::{Command, Exchange, Reply, FRAME_LEN};
pub use sample::{DecodeError, RawSample, SAMPLE_LEN};
pub use sensor::{AtiNano25, DataFrame, RECEIVE_BUFFER_LEN};
