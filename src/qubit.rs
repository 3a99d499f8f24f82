use vstd::prelude::*;

verus! {

/// One two-level unit: the amplitude weight of outcome 0 (`alpha`) and of
/// outcome 1 (`beta`).
///
/// The register and the gates only move amplitudes around, so they work for
/// any copyable amplitude type; arithmetic on the amplitudes is supplied by
/// the caller as gate and measurement functions.
#[derive(Clone, Copy, Debug, PartialEq)]
pub struct Qubit<A> {
    pub alpha: A,
    pub beta: A,
}

} // verus!
