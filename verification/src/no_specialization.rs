//! Trait detection that needs no specialization.
//!
//! [`DebugDetector`] has the function `as_debug` twice: as an inherent function,
//! there only where the probed type implements `Debug`, which always hands out a
//! handle; and as a function of the trait [`NotDebug`], there for every type, which
//! never does. An inherent function goes before a trait function of the same
//! name, so `DebugDetector::<SomeType>::as_debug(&something)` tells whether
//! `SomeType` implements `Debug`.
//!
//! Where `SomeType` is a generic parameter the inherent function is out of sight,
//! and the detector answers `None`.

use crate::probe::handle_of;
use core::{fmt::Debug, marker::PhantomData};
use vstd::prelude::*;

mod private;

verus! {

/// The fallback that [`DebugDetector`] implements for every type.
pub trait NotDebug: private::Sealed {
    /// Hands out no handle.
    #[allow(clippy::wrong_self_convention)]
    fn as_debug<T>(_it: &T) -> (handle: Option<&dyn Debug>)
        ensures
            handle is None,
    {
        None
    }
}

impl<T> NotDebug for DebugDetector<T> {

}

/// Zero-size detector for the type `T`.
pub struct DebugDetector<T>(PhantomData<T>);

impl<T: Debug> DebugDetector<T> {
    /// Hands out the argument as a handle for debug formatting.
    #[allow(clippy::unnecessary_wraps, clippy::wrong_self_convention)]
    pub fn as_debug(it: &T) -> (handle: Option<&dyn Debug>)
        ensures
            handle == Some(handle_of(it)),
    {
        let handle: &dyn Debug = it;
        Some(handle)
    }
}

} // verus!
