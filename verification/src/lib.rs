//! Frame exchange between one producer and one consumer: the triple-buffer
//! handoff, the source pipeline that fills it and the sink pipeline that
//! drains it, with their protocols stated as contracts.

pub mod format;
pub mod state;
pub mod triple_buffer;
pub mod error;
pub mod stream;
pub mod copy;
pub mod resample;
pub mod scale;
pub mod source;
pub mod sink;
pub mod handshake;
pub mod shared_memory;
pub mod srt;
pub mod colour;
pub mod clock;
