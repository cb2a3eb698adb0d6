//! Values handed from program start-up to the user interface.
//!
//! The process-wide cells that hold them, and the thread-safety markers
//! they need, belong to the program around this library: a cell of the
//! standard library can only be filled and read there.

use vstd::prelude::*;

verus! {

/// A value that is only ever touched from the main (user-interface)
/// thread. The wrapper holds the value unchanged and hands it back by
/// reference.
pub struct MainThreadOnly<T>(T);

impl<T> MainThreadOnly<T> {
    /// The wrapped value.
    pub closed spec fn inner(&self) -> T {
        self.0
    }

    /// Wrap a value that will only be read from the main thread.
    pub fn new(value: T) -> (w: Self)
        ensures
            w.inner() == value,
    {
        MainThreadOnly(value)
    }

    /// Borrow the wrapped value.
    pub fn get(&self) -> (r: &T)
        ensures
            *r == self.inner(),
    {
        &self.0
    }
}

} // verus!
