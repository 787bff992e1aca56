//! Framebuffers: kernel-tracked buffers that a CRTC can scan out.
use super::dumbbuffer::DumbBuffer;
use crate::error::{Error, EIO};
use super::handle::FramebufferKind;
use super::payload::FbCmd;
use vstd::prelude::*;

verus! {

/// A handle naming a framebuffer.
pub type Handle = super::handle::Handle<FramebufferKind>;

/// The request that wraps `buffer` in a new framebuffer of the given colour
/// depth and bits per pixel.
pub fn add_request(buffer: &DumbBuffer, depth: u32, bpp: u32) -> (r: FbCmd)
    ensures
        r.fb_id == 0,
        (r.width, r.height) == buffer.size_view(),
        r.pitch == buffer.pitch_view(),
        r.handle == buffer.handle_view(),
        r.bpp == bpp,
        r.depth == depth,
{
    let (width, height) = buffer.size();
    FbCmd { fb_id: 0, width, height, pitch: buffer.pitch(), bpp, depth, handle: buffer.handle() }
}

/// The framebuffer that an "add framebuffer" reply names; a reply naming no
/// framebuffer (id zero) is an I/O error.
pub fn handle_from_reply(reply: &FbCmd) -> (r: Result<Handle, Error>)
    ensures
        reply.fb_id == 0 <==> r is Err,
        r is Err ==> r == Err::<Handle, Error>(Error::Io(EIO)),
        r matches Ok(h) ==> h@ == reply.fb_id,
{
    match Handle::from_raw(reply.fb_id) {
        Some(h) => Ok(h),
        None => Err(Error::Io(EIO)),
    }
}

} // verus!
