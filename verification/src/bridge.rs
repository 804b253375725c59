//! The streaming callback bridge: the native transfer engine invokes a plain
//! function pointer once per buffer, from its own worker thread, and reads the
//! integer it returns as "continue" (zero) or "stop the stream" (nonzero).
//!
//! The unverified trampoline only reconstructs the typed context from the
//! opaque pointer and fences off panics; everything it then does is decided
//! here: the buffer view handed to the caller's closure is the transfer's
//! valid prefix — never the allocated capacity — and the closure's outcome is
//! mapped totally onto the native code space.

use vstd::prelude::*;

use crate::error::Error;

verus! {

/// What the closure is shown of one native transfer: the prefix of the
/// delivered buffer up to the transfer's valid length. A native layer that
/// reports more valid bytes than the buffer holds is clamped to the buffer.
pub open spec fn spec_valid_view(buffer: Seq<u8>, valid_length: usize) -> Seq<u8> {
    if valid_length <= buffer.len() {
        buffer.take(valid_length as int)
    } else {
        buffer
    }
}

/// Law: the view handed to the closure never has more bytes than the
/// transfer declares valid, and never more than the buffer holds.
pub proof fn lemma_valid_view_within_bounds(buffer: Seq<u8>, valid_length: usize)
    ensures
        spec_valid_view(buffer, valid_length).len() <= valid_length,
        spec_valid_view(buffer, valid_length).len() <= buffer.len(),
        spec_valid_view(buffer, valid_length) == buffer.take(
            spec_valid_view(buffer, valid_length).len() as int,
        ),
{
    assert(spec_valid_view(buffer, valid_length) == buffer.take(
        spec_valid_view(buffer, valid_length).len() as int,
    ));
}

/// The non-owning view of one transfer's valid bytes; it borrows the native
/// buffer and so cannot outlive the callback invocation it was made for.
pub fn valid_view<'a>(buffer: &'a [u8], valid_length: usize) -> (view: &'a [u8])
    ensures
        view@ == spec_valid_view(buffer@, valid_length),
{
    if valid_length <= buffer.len() {
        vstd::slice::slice_subrange(buffer, 0, valid_length)
    } else {
        buffer
    }
}

/// The record a streaming session heap-allocates when it starts: the caller's
/// processing closure paired with the optional caller context. The native
/// layer holds it only as an opaque pointer; the bridge owns the allocation
/// for the life of the session and reclaims it when the session ends.
pub struct CallbackContext<T, F> {
    pub context: Option<T>,
    pub function: F,
}

impl<T, F: Fn(&[u8], &Option<T>) -> Error> CallbackContext<T, F> {
    /// One callback invocation: the delivered buffer is narrowed to the
    /// transfer's valid length, the caller's closure processes that view
    /// together with the optional context, and the closure's outcome is
    /// mapped onto the native return code — zero exactly for the continuing
    /// outcome.
    pub fn invoke(&self, buffer: &[u8], valid_length: usize) -> (code: i32)
        requires
            forall|b: &[u8], c: &Option<T>| call_requires(self.function, (b, c)),
        ensures
            exists|b: &[u8], c: &Option<T>, e: Error|
                {
                    &&& b@ == spec_valid_view(buffer@, valid_length)
                    &&& *c == self.context
                    &&& #[trigger] call_ensures(self.function, (b, c), e)
                    &&& code == e.spec_code()
                },
    {
        let view = valid_view(buffer, valid_length);
        let outcome = (self.function)(view, &self.context);
        outcome.to_code()
    }
}

} // verus!
