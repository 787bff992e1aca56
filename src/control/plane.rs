//! Planes: image layers that a CRTC composes.
use super::handle::PlaneKind;
use vstd::prelude::*;

verus! {

/// A handle naming a plane.
pub type Handle = super::handle::Handle<PlaneKind>;

} // verus!
