//! Stateful streaming transforms behind shared, non-blocking handles: a
//! pass-through buffer and a bzip2 decompressor.

pub mod bz;
mod shared;
pub mod error;
pub mod pass_through;
pub mod unbzip2;

pub use error::FailureKind;
pub use pass_through::{
    create_pass_through_stream, handle_pass_through_stream_chunk, pass_through_serially,
    PassThroughBuffer,
    PassThroughError, PassThroughStream,
};
pub use unbzip2::{
    decode_serially, unbzip2_chunk, unbzip2_create, unbzip2_finish, DecoderState, Unbzip2Error,
    Unbzip2Stream,
};
