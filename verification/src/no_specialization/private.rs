use super::DebugDetector;
use vstd::prelude::*;

verus! {

/// Keeps the fallback trait closed: only the detector implements it.
pub trait Sealed {

}

impl<T> Sealed for DebugDetector<T> {

}

} // verus!
