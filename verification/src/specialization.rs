//! Trait detection by way of one trait with two implementations.
//!
//! The default of [`AsDebug::as_debug`] hands out no handle. Every type that
//! implements `Debug` has the implementation below, which hands out the value
//! itself. A type without `Debug` takes the default with an empty `impl`.

use crate::{no_specialization::DebugDetector, probe::handle_of};
use core::fmt::Debug;
use vstd::prelude::*;

verus! {

/// Tells types that implement `Debug` from those that do not.
pub trait AsDebug {
    /// Tries to get a reference to `self` as `dyn Debug`.
    fn as_debug(&self) -> (handle: Option<&dyn Debug>)
        ensures
            handle is Some ==> self.hands_out(handle),
    {
        None
    }

    /// What probing a value of this type hands out. By default that is nothing:
    /// a type that does not say otherwise has no handle.
    open spec fn hands_out(&self, handle: Option<&dyn Debug>) -> bool {
        handle is None
    }
}

impl<T: Debug> AsDebug for T {
    fn as_debug(&self) -> (handle: Option<&dyn Debug>)
        ensures
            handle == Some(handle_of(self)),
    {
        let handle: &dyn Debug = self;
        Some(handle)
    }

    /// A type that implements `Debug` hands out the value itself.
    open spec fn hands_out(&self, handle: Option<&dyn Debug>) -> bool {
        handle == Some(handle_of(self))
    }
}

/// Probes `it` with this detector and with the one of `no_specialization`, and
/// tells whether the two agree on handing out a handle. For a type that implements
/// `Debug` they do: both hand one out.
pub fn agrees_with_fallback<T: Debug>(it: &T) -> (agree: bool)
    ensures
        agree,
{
    DebugDetector::<T>::as_debug(it).is_some() == it.as_debug().is_some()
}

} // verus!
