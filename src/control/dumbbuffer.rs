//! Dumb buffers: driver-agnostic scanout memory, created, mapped and
//! destroyed by explicit calls.
use crate::error::Error;
use super::payload::{CreateDumb, MapDumb};
use drm_fourcc::DrmFourcc;
use vstd::prelude::*;

verus! {

/// Relies on `drm_fourcc::DrmFourcc` only as a type: a pixel-format code
/// that a dumb buffer carries and hands back, never read here.
#[verifier::external_type_specification]
#[verifier::external_body]
pub struct ExDrmFourcc(DrmFourcc);

/// A buffer that the kernel allocated for scanout. It owns device memory
/// until it is destroyed, which only an explicit call does.
#[derive(Debug)]
pub struct DumbBuffer {
    width: u32,
    height: u32,
    length: usize,
    format: DrmFourcc,
    pitch: u32,
    handle: u32,
}

/// The part of a device's memory to map for a dumb buffer: `length` bytes
/// from `offset`, shared and writable.
#[derive(Debug, Clone, Copy, PartialEq, Eq, Structural)]
pub struct MapRegion {
    pub offset: u64,
    pub length: usize,
}

/// The "create dumb buffer" request for a `width` by `height` buffer.
pub fn create_request(width: u32, height: u32, bpp: u32, flags: u32) -> (r: CreateDumb)
    ensures
        r.width == width && r.height == height && r.bpp == bpp && r.flags == flags,
        r.handle == 0 && r.pitch == 0 && r.size == 0,
{
    CreateDumb { height, width, bpp, flags, handle: 0, pitch: 0, size: 0 }
}

impl DumbBuffer {
    pub closed spec fn size_view(&self) -> (u32, u32) {
        (self.width, self.height)
    }

    pub closed spec fn length_view(&self) -> usize {
        self.length
    }

    pub closed spec fn format_view(&self) -> DrmFourcc {
        self.format
    }

    pub closed spec fn pitch_view(&self) -> u32 {
        self.pitch
    }

    pub closed spec fn handle_view(&self) -> u32 {
        self.handle
    }

    /// Builds the buffer that a "create dumb buffer" reply describes, in
    /// `format`. A byte length that does not fit in memory is `Overflow`.
    pub fn from_reply(reply: &CreateDumb, format: DrmFourcc) -> (r: Result<DumbBuffer, Error>)
        ensures
            reply.size > usize::MAX <==> r is Err,
            r is Err ==> r == Err::<DumbBuffer, Error>(Error::Overflow),
            r matches Ok(b) ==> {
                &&& b.size_view() == (reply.width, reply.height)
                &&& b.length_view() == reply.size
                &&& b.format_view() == format
                &&& b.pitch_view() == reply.pitch
                &&& b.handle_view() == reply.handle
            },
    {
        if reply.size > usize::MAX as u64 {
            return Err(Error::Overflow);
        }
        Ok(
            DumbBuffer {
                width: reply.width,
                height: reply.height,
                length: reply.size as usize,
                format,
                pitch: reply.pitch,
                handle: reply.handle,
            },
        )
    }

    /// Width and height in pixels.
    pub fn size(&self) -> (r: (u32, u32))
        ensures
            r == self.size_view(),
    {
        (self.width, self.height)
    }

    /// Bytes in all.
    pub fn length(&self) -> (r: usize)
        ensures
            r == self.length_view(),
    {
        self.length
    }

    /// The pixel format it was created for.
    pub fn format(&self) -> (r: DrmFourcc)
        ensures
            r == self.format_view(),
    {
        self.format
    }

    /// Bytes per row.
    pub fn pitch(&self) -> (r: u32)
        ensures
            r == self.pitch_view(),
    {
        self.pitch
    }

    /// The kernel's handle for the buffer's memory.
    pub fn handle(&self) -> (r: u32)
        ensures
            r == self.handle_view(),
    {
        self.handle
    }

    /// The "map dumb buffer" request for this buffer.
    pub fn map_request(&self) -> (r: MapDumb)
        ensures
            r.handle == self.handle_view() && r.pad == 0 && r.offset == 0,
    {
        MapDumb { handle: self.handle, pad: 0, offset: 0 }
    }

    /// The region to map, given the kernel's reply to the map request:
    /// exactly the buffer's length, at the offset the kernel chose.
    pub fn map_region(&self, reply: &MapDumb) -> (r: MapRegion)
        ensures
            r.offset == reply.offset,
            r.length == self.length_view(),
    {
        MapRegion { offset: reply.offset, length: self.length }
    }
}

} // verus!
