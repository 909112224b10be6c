//! Verified core of a remote screen-capture agent.
//!
//! The library contains the logic of the capture -> encode -> frame pipeline:
//! the binary protocol framing, frame-buffer preparation, the QoS feedback
//! controller, the encoder state machine with its quality self-regulation,
//! the multi-client session state, and the capture-loop fallback machine.
//! Transport, native codec calls and OS input injection live outside the
//! library and exchange plain values with it.

pub mod capture;
pub mod config;
pub mod encoder;
pub mod frame_prep;
pub mod input;
pub mod platform;
pub mod protocol;
pub mod qos;
pub mod seqtools;
pub mod session;
pub mod textutil;
pub mod video;
