//! The ways a stream operation can fail.

use vstd::prelude::*;

verus! {

/// Why a stream operation did not complete.
#[derive(Clone, Copy, Debug, PartialEq, Eq, Structural)]
pub enum FailureKind {
    /// The stream's state was held by another operation at that instant; the
    /// caller submitted a second operation before the first one resolved.
    LockContention,
    /// The decoder rejected its input (corrupt or truncated data), or writing
    /// into its output sink failed.
    DecoderFailure,
    /// The decompression stream was already finished.
    AlreadyFinished,
}

} // verus!
