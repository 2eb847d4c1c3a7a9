//! Link-cable multiplayer communication for a handheld console's serial port:
//! register-value decoding, ring buffers for bulk transfers, and the decisions
//! that drive a bulk multiplayer session.

pub mod buffer;
pub mod bulk;
pub mod gpio;
pub mod multiplayer;
pub mod ringbuf;
pub mod serial;
pub mod utils;
