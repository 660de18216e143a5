//! Exclusive, non-blocking access to state that several handles share.
//!
//! The state behind a `Mutex` may be changed by any other handle at any time,
//! so nothing is known of it between two acquisitions except what its own type
//! guarantees for every value.

use vstd::prelude::*;

use crate::pass_through::PassThroughBuffer;
use crate::unbzip2::DecoderState;

verus! {

#[verifier::external_type_specification]
#[verifier::external_body]
#[verifier::reject_recursive_types(T)]
pub struct ExMutex<T: ?Sized>(std::sync::Mutex<T>);

#[verifier::external_type_specification]
#[verifier::external_body]
#[verifier::reject_recursive_types(T)]
pub struct ExMutexGuard<'a, T: ?Sized + 'a>(std::sync::MutexGuard<'a, T>);

/// The contents of the pass-through buffer that `m` was made with. A mutex
/// keeps this for life, whatever is later stored in it.
pub uninterp spec fn buffer_made_with(m: std::sync::Mutex<PassThroughBuffer>) -> Seq<u8>;

/// The decoder state that `m` was made with. A mutex keeps this for life,
/// whatever is later stored in it.
pub uninterp spec fn decoder_made_with(m: std::sync::Mutex<DecoderState>) -> DecoderState;

/// Relies on `std::sync::Mutex::new`: a fresh, unlocked mutex that holds `b`.
#[verifier::external_body]
pub(crate) fn new_buffer_cell(b: PassThroughBuffer) -> (r: std::sync::Mutex<PassThroughBuffer>)
    ensures
        buffer_made_with(r) == b@,
{
    std::sync::Mutex::new(b)
}

/// Relies on `std::sync::Mutex::new`: a fresh, unlocked mutex that holds `s`.
#[verifier::external_body]
pub(crate) fn new_decoder_cell(s: DecoderState) -> (r: std::sync::Mutex<DecoderState>)
    ensures
        decoder_made_with(r) == s,
{
    std::sync::Mutex::new(s)
}

/// Relies on `std::sync::Mutex::try_lock`: takes the lock if it is free at this
/// instant and never waits; a lock left poisoned by a panic counts as taken.
/// Whether it is free depends on other threads, so no outcome is promised.
#[verifier::external_body]
pub(crate) fn try_acquire<T>(m: &std::sync::Mutex<T>) -> (r: Option<std::sync::MutexGuard<'_, T>>) {
    m.try_lock().ok()
}

/// Relies on `DerefMut` for `std::sync::MutexGuard`: the value that the held lock
/// protects, for as long as the guard is borrowed.
#[verifier::external_body]
pub(crate) fn guarded<'a, 'b, T>(g: &'b mut std::sync::MutexGuard<'a, T>) -> (r: &'b mut T) {
    &mut **g
}

} // verus!
