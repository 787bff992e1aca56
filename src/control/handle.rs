//! Typed handles over the raw, nonzero ids that the kernel gives its objects.
use core::marker::PhantomData;
use vstd::prelude::*;

verus! {

/// A kind of mode-setting object that a [`Handle`] can name.
pub trait ResourceHandle: Copy {
    /// The kernel's object-type tag for this kind, used by generic property queries.
    fn object_type() -> (r: u32)
        ensures
            r != 0,
    ;
}

/// The id of one kernel object of kind `K`; never zero.
///
/// Handles of different kinds are different types although they share a
/// representation. Turning a raw id into a handle checks only that it is
/// nonzero, never that the kernel knows the object.
#[derive(Debug, PartialEq, Eq, Hash)]
pub struct Handle<K> {
    raw: u32,
    kind: PhantomData<K>,
}

impl<K> Clone for Handle<K> {
    fn clone(&self) -> (r: Self)
        ensures
            r == *self,
    {
        proof {
            use_type_invariant(self);
        }
        Handle { raw: self.raw, kind: PhantomData }
    }
}

impl<K> Copy for Handle<K> {

}

impl<K> Handle<K> {
    /// The raw id behind this handle.
    pub closed spec fn view(&self) -> u32 {
        self.raw
    }

    #[verifier::type_invariant]
    spec fn nonzero(&self) -> bool {
        self.raw != 0
    }

    /// The handle that a raw id stands for: none for the reserved id zero.
    pub closed spec fn spec_from_raw(raw: u32) -> Option<Self> {
        if raw == 0 {
            None
        } else {
            Some(Handle { raw, kind: PhantomData })
        }
    }

    /// Tags a raw id with this kind; `None` exactly when the id is zero.
    pub fn from_raw(raw: u32) -> (r: Option<Self>)
        ensures
            r == Self::spec_from_raw(raw),
            r is None <==> raw == 0,
            r matches Some(h) ==> h@ == raw,
    {
        if raw == 0 {
            None
        } else {
            Some(Handle { raw, kind: PhantomData })
        }
    }

    /// The raw id behind this handle.
    pub fn into_raw(self) -> (r: u32)
        ensures
            r == self@,
            r != 0,
    {
        proof {
            use_type_invariant(&self);
        }
        self.raw
    }

    /// Turning a nonzero id into a handle and back gives the same id, and
    /// zero gives no handle.
    pub proof fn lemma_raw_round_trip(v: u32)
        ensures
            v != 0 ==> (Self::spec_from_raw(v) matches Some(h) && h@ == v),
            Self::spec_from_raw(0) is None,
    {
    }
}

/// Converts a raw id to a typed handle, or `None` for the reserved id zero.
///
/// This does not check that the kernel knows an object with that id.
pub fn from_u32<K>(raw: u32) -> (r: Option<Handle<K>>)
    ensures
        r == Handle::<K>::spec_from_raw(raw),
        r is None <==> raw == 0,
        r matches Some(h) ==> h@ == raw,
{
    Handle::from_raw(raw)
}

/// Connectors: physical display outputs.
#[derive(Debug, Clone, Copy, PartialEq, Eq, Hash)]
pub struct ConnectorKind;

/// Encoders: turn CRTC pixel data into a connector's signal.
#[derive(Debug, Clone, Copy, PartialEq, Eq, Hash)]
pub struct EncoderKind;

/// CRTCs: scanout engines.
#[derive(Debug, Clone, Copy, PartialEq, Eq, Hash)]
pub struct CrtcKind;

/// Framebuffers: kernel-tracked buffers that a CRTC can scan out.
#[derive(Debug, Clone, Copy, PartialEq, Eq, Hash)]
pub struct FramebufferKind;

/// Planes: image layers that a CRTC composes.
#[derive(Debug, Clone, Copy, PartialEq, Eq, Hash)]
pub struct PlaneKind;

impl ResourceHandle for ConnectorKind {
    fn object_type() -> (r: u32) {
        0xc0c0c0c0
    }
}

impl ResourceHandle for EncoderKind {
    fn object_type() -> (r: u32) {
        0xe0e0e0e0
    }
}

impl ResourceHandle for CrtcKind {
    fn object_type() -> (r: u32) {
        0xcccccccc
    }
}

impl ResourceHandle for FramebufferKind {
    fn object_type() -> (r: u32) {
        0xfbfbfbfb
    }
}

impl ResourceHandle for PlaneKind {
    fn object_type() -> (r: u32) {
        0xeeeeeeee
    }
}

} // verus!
