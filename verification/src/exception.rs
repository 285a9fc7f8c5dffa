//! The C++ exception ABI entry points of an emscripten-style environment.
//!
//! The guest's C++ runtime calls these under fixed names.  None of them may
//! touch guest memory from here, so each one only decides: the pure stubs
//! return their answer directly, and the two operations that need the host
//! (allocating from the guest's `malloc`, or failing loudly on something this
//! runtime does not support) return an [`EmAction`] for the embedder to
//! perform.

use vstd::prelude::*;

verus! {

/// What the embedder must do to finish one of the calls below.
#[derive(Clone, Copy, Debug, PartialEq, Eq, Structural)]
pub enum EmAction {
    /// Allocate this many bytes with the guest's `malloc` and hand the
    /// resulting pointer back to the guest.
    Malloc { size: u32 },
    /// The operation is not supported by this runtime: a host-side defect to
    /// be reported loudly (abort), never mapped to a guest-visible value.
    Unsupported,
}

/// Allocate storage for an exception object of `size` bytes: the storage
/// comes from the guest's own allocator.
pub fn ___cxa_allocate_exception(size: u32) -> (r: EmAction)
    ensures
        r == (EmAction::Malloc { size }),
{
    EmAction::Malloc { size }
}

/// Querying the primary exception is not supported by this runtime.
pub fn ___cxa_current_primary_exception() -> (r: EmAction)
    ensures
        r == EmAction::Unsupported,
{
    EmAction::Unsupported
}

/// Exception reference counting is not supported by this runtime.
pub fn ___cxa_decrement_exception_refcount(_exception_ptr: u32) -> (r: EmAction)
    ensures
        r == EmAction::Unsupported,
{
    EmAction::Unsupported
}

/// Exception reference counting is not supported by this runtime.
pub fn ___cxa_increment_exception_refcount(_exception_ptr: u32) -> (r: EmAction)
    ensures
        r == EmAction::Unsupported,
{
    EmAction::Unsupported
}

/// Rethrowing the primary exception is not supported by this runtime.
pub fn ___cxa_rethrow_primary_exception(_exception_ptr: u32) -> (r: EmAction)
    ensures
        r == EmAction::Unsupported,
{
    EmAction::Unsupported
}

/// Begin a catch block.  With exceptions unsupported there is never a
/// pending exception object, so the answer is always -1.
pub fn ___cxa_begin_catch(_exception_object_ptr: u32) -> (r: i32)
    ensures
        r == -1,
{
    -1
}

/// End a catch block: nothing to unwind, nothing to do.
pub fn ___cxa_end_catch() {
}

/// Whether an uncaught exception is in flight; always -1 here, since no
/// exception can ever be thrown.
pub fn ___cxa_uncaught_exception() -> (r: i32)
    ensures
        r == -1,
{
    -1
}

/// A pure virtual function was called: always a defect in the guest image,
/// reported to the embedder to fail loudly.
pub fn ___cxa_pure_virtual() -> (r: EmAction)
    ensures
        r == EmAction::Unsupported,
{
    EmAction::Unsupported
}

} // verus!
