//! Buffering and frame-extraction front-end for a streaming MP3 decoder.
//!
//! The crate manages the byte buffering, frame-boundary bookkeeping and
//! error classification around an opaque frame codec (minimp3).  The codec
//! itself — entropy decoding and PCM synthesis — is an external collaborator;
//! everything that decides *what happens to the bytes* lives here, with
//! contracts.

use vstd::prelude::*;

pub use bridge::{classify_read, demand_read_step, seek_result, BridgeStep};
pub use error::{
    from_mini_error, Error, MP3D_E_DECODE, MP3D_E_IOERROR, MP3D_E_MEMORY, MP3D_E_PARAM, MP3D_E_USER,
};
pub use stream::{finish_frame, next_step, DecoderCore, Step};

pub mod bridge;
pub mod error;
mod ring;
pub mod stream;

verus! {

/// Maximum number of interleaved samples in one MP3 frame, as published by
/// the minimp3 codec (`MINIMP3_MAX_SAMPLES_PER_FRAME`).
pub const MAX_SAMPLES_PER_FRAME: usize = 2304;

/// Starting byte capacity reserved for the ring buffer.
pub const BUFFER_SIZE: usize = MAX_SAMPLES_PER_FRAME * 15;

/// Low-water mark: below this many buffered bytes, a decode attempt is
/// preceded by one refill from the source.
pub const REFILL_TRIGGER: usize = MAX_SAMPLES_PER_FRAME * 8;

/// Byte size of the fixed scratch buffer that carries one source read into
/// the ring buffer.
pub const SCRATCH_SIZE: usize = MAX_SAMPLES_PER_FRAME * 5;

/// A decoded MP3 frame, owning the decoded audio of that frame.
#[derive(Debug, Clone)]
pub struct Frame {
    /// The decoded audio held by this frame. Channels are interleaved.
    pub data: Vec<i16>,
    /// This frame's sample rate in hertz.
    pub sample_rate: i32,
    /// The number of channels in this frame.
    pub channels: usize,
    /// MPEG layer used by this file.
    pub layer: usize,
    /// Current bitrate as of this frame, in kb/s.
    pub bitrate: i32,
}

/// The codec's report on one decode call, mirrored into plain fields so
/// that the engine's contracts can speak of it.
#[derive(Debug, Clone, Copy, PartialEq, Eq, Structural)]
pub struct FrameInfo {
    /// Bytes of input the codec consumed, frame or not.
    pub frame_bytes: i32,
    /// Channels of the decoded frame.
    pub channels: i32,
    /// Sample rate of the decoded frame, in hertz.
    pub hz: i32,
    /// MPEG layer of the decoded frame.
    pub layer: i32,
    /// Bitrate as of the decoded frame, in kb/s.
    pub bitrate_kbps: i32,
}

} // verus!
