//! Mode-setting objects (connectors, encoders, CRTCs, framebuffers) and the
//! calls that enumerate, query and configure them.
pub mod connector;
pub mod crtc;
pub mod dumbbuffer;
pub mod encoder;
pub mod framebuffer;
pub mod handle;
pub mod mode;
pub mod payload;
pub mod plane;
pub mod resources;

use crate::device::map_errno;
use crate::error;
use crate::error::{is_driver_error, Error};
use drm_fourcc::DrmFourcc;
use dumbbuffer::{DumbBuffer, MapRegion};
use payload::{
    CardResources, ConnectorPayload, CreateDumb, CrtcPayload, EncoderPayload, FbCmd, MapDumb,
    CONNECTOR_ENCODER_CAPACITY, RESOURCE_CAPACITY,
};
use vstd::prelude::*;

pub use handle::{from_u32, ResourceHandle};
pub use mode::{Mode, ModeInfo, ModeTypeFlags};
pub use resources::{CrtcListFilter, ResourceHandles};

verus! {

/// A DRM device that offers mode setting.
///
/// An implementor supplies the raw mode-setting calls, as for
/// [`crate::Device`]. The other methods are built on them; each is one or
/// two calls, and none keeps state between calls.
pub trait Device: crate::device::Device {
    /// The "get resources" call.
    fn ioctl_mode_get_resources(&self, res: &mut CardResources) -> Result<(), i32>
        requires
            old(res).count_fbs <= RESOURCE_CAPACITY,
            old(res).count_crtcs <= RESOURCE_CAPACITY,
            old(res).count_connectors <= RESOURCE_CAPACITY,
            old(res).count_encoders <= RESOURCE_CAPACITY,
    ;

    /// The "get connector" call.
    fn ioctl_mode_get_connector(&self, info: &mut ConnectorPayload) -> Result<(), i32>
        requires
            old(info).count_modes == old(info).modes@.len(),
            old(info).count_encoders <= CONNECTOR_ENCODER_CAPACITY,
            old(info).count_props == 0,
    ;

    /// The "get encoder" call.
    fn ioctl_mode_get_encoder(&self, info: &mut EncoderPayload) -> Result<(), i32>;

    /// The "get CRTC" call.
    fn ioctl_mode_get_crtc(&self, info: &mut CrtcPayload) -> Result<(), i32>;

    /// The "set CRTC" call.
    fn ioctl_mode_set_crtc(&self, info: &mut CrtcPayload) -> Result<(), i32>
        requires
            old(info).count_connectors == old(info).set_connectors@.len(),
    ;

    /// The "create dumb buffer" call.
    fn ioctl_mode_create_dumb(&self, info: &mut CreateDumb) -> Result<(), i32>;

    /// The "map dumb buffer" call.
    fn ioctl_mode_map_dumb(&self, info: &mut MapDumb) -> Result<(), i32>;

    /// The "destroy dumb buffer" call.
    fn ioctl_mode_destroy_dumb(&self, handle: u32) -> Result<(), i32>;

    /// The "add framebuffer" call.
    fn ioctl_mode_add_fb(&self, info: &mut FbCmd) -> Result<(), i32>;

    /// The "remove framebuffer" call.
    fn ioctl_mode_rm_fb(&self, fb_id: u32) -> Result<(), i32>;

    /// The handles of the objects this device controls, planes excepted.
    ///
    /// A driver that reports more ids of a kind than fit the fixed capacity
    /// gives `Overflow`, never a shortened set.
    fn resource_handles(&self) -> (r: Result<ResourceHandles, Error>)
        ensures
            r matches Ok(s) ==> s.wf(),
            r matches Err(e) ==> e == Error::Overflow || e == Error::Io(error::EIO)
                || is_driver_error(e),
    {
        let mut res = CardResources::request();
        match self.ioctl_mode_get_resources(&mut res) {
            Ok(()) => ResourceHandles::from_reply(&res),
            Err(e) => Err(Error::from_errno(e)),
        }
    }

    /// Describes a connector, with its modes and encoders.
    ///
    /// A first call learns how many modes there are; a second offers that
    /// many slots. The second reply's own count decides what is returned.
    fn get_connector(&self, handle: connector::Handle) -> (r: Result<connector::Info, Error>)
        ensures
            r matches Ok(info) ==> info.handle_view() == handle,
            r matches Err(e) ==> e == Error::Overflow || e == Error::Io(error::EIO)
                || is_driver_error(e),
    {
        let id = handle.into_raw();
        let mut probe = ConnectorPayload::probe(id);
        if let Err(e) = self.ioctl_mode_get_connector(&mut probe) {
            return Err(Error::from_errno(e));
        }
        let offered = probe.count_modes;
        let mut info = ConnectorPayload::fill_request(id, &probe);
        match self.ioctl_mode_get_connector(&mut info) {
            Ok(()) => connector::Info::from_reply(handle, offered, &info),
            Err(e) => Err(Error::from_errno(e)),
        }
    }

    /// Describes an encoder.
    fn get_encoder(&self, handle: encoder::Handle) -> (r: Result<encoder::Info, Error>)
        ensures
            r matches Ok(info) ==> info.handle_view() == handle,
            r matches Err(e) ==> is_driver_error(e) && e != Error::Overflow,
    {
        let mut info = encoder::get_request(handle);
        match self.ioctl_mode_get_encoder(&mut info) {
            Ok(()) => Ok(encoder::Info::from_reply(handle, &info)),
            Err(e) => Err(Error::from_errno(e)),
        }
    }

    /// Describes a CRTC.
    fn get_crtc(&self, handle: crtc::Handle) -> (r: Result<crtc::Info, Error>)
        ensures
            r matches Ok(info) ==> info.handle_view() == handle,
            r matches Err(e) ==> is_driver_error(e) && e != Error::Overflow,
    {
        let mut info = crtc::set_request(handle, None, (0, 0), &[], None);
        match self.ioctl_mode_get_crtc(&mut info) {
            Ok(()) => Ok(crtc::Info::from_reply(handle, &info)),
            Err(e) => Err(Error::from_errno(e)),
        }
    }

    /// Sets a CRTC to scan out `framebuffer` from `pos` in `mode`, driving
    /// `conns`. `mode`, `framebuffer` and `conns` all empty disable it.
    ///
    /// Whether the combination is legal is the driver's to decide; its
    /// rejection is returned as it came.
    fn set_crtc(
        &self,
        handle: crtc::Handle,
        framebuffer: Option<framebuffer::Handle>,
        pos: (u32, u32),
        conns: &[connector::Handle],
        mode: Option<Mode>,
    ) -> (r: Result<(), Error>)
        requires
            conns@.len() <= u32::MAX,
        ensures
            r matches Err(e) ==> is_driver_error(e) && e != Error::Overflow,
    {
        let mut info = crtc::set_request(handle, framebuffer, pos, conns, mode);
        map_errno(self.ioctl_mode_set_crtc(&mut info))
    }

    /// Creates a dumb buffer of `size` pixels at `bpp` bits per pixel, to
    /// hold pixels in `format`; the kernel chooses its pitch and length.
    fn create_dumb_buffer(&self, size: (u32, u32), format: DrmFourcc, bpp: u32) -> (r: Result<
        DumbBuffer,
        Error,
    >)
        ensures
            r matches Ok(b) ==> b.format_view() == format,
            r matches Err(e) ==> e == Error::Overflow || is_driver_error(e),
    {
        let mut info = dumbbuffer::create_request(size.0, size.1, bpp, 0);
        match self.ioctl_mode_create_dumb(&mut info) {
            Ok(()) => DumbBuffer::from_reply(&info, format),
            Err(e) => Err(Error::from_errno(e)),
        }
    }

    /// The region of the device to map to reach `buffer`'s memory: the
    /// offset the kernel gives, and exactly the buffer's length.
    fn dumb_buffer_map_region(&self, buffer: &DumbBuffer) -> (r: Result<MapRegion, Error>)
        ensures
            r matches Ok(region) ==> region.length == buffer.length_view(),
            r matches Err(e) ==> is_driver_error(e) && e != Error::Overflow,
    {
        let mut info = buffer.map_request();
        match self.ioctl_mode_map_dumb(&mut info) {
            Ok(()) => Ok(buffer.map_region(&info)),
            Err(e) => Err(Error::from_errno(e)),
        }
    }

    /// Removes a framebuffer.
    fn destroy_framebuffer(&self, handle: framebuffer::Handle) -> (r: Result<(), Error>)
        ensures
            r matches Err(e) ==> is_driver_error(e) && e != Error::Overflow,
    {
        map_errno(self.ioctl_mode_rm_fb(handle.into_raw()))
    }

    /// Frees a dumb buffer's memory; its handle is invalid afterwards.
    fn destroy_dumb_buffer(&self, buffer: DumbBuffer) -> (r: Result<(), Error>)
        ensures
            r matches Err(e) ==> is_driver_error(e) && e != Error::Overflow,
    {
        map_errno(self.ioctl_mode_destroy_dumb(buffer.handle()))
    }

    /// Wraps `buffer` in a new framebuffer of colour depth `depth` and `bpp`
    /// bits per pixel. A reply naming no framebuffer (id zero) is `Io(EIO)`.
    fn add_framebuffer(&self, buffer: &DumbBuffer, depth: u32, bpp: u32) -> (r: Result<
        framebuffer::Handle,
        Error,
    >)
        ensures
            r matches Ok(h) ==> h@ != 0,
            r matches Err(e) ==> e == Error::Io(error::EIO) || is_driver_error(e),
            r matches Err(e) ==> e != Error::Overflow,
    {
        let mut info = framebuffer::add_request(buffer, depth, bpp);
        match self.ioctl_mode_add_fb(&mut info) {
            Ok(()) => framebuffer::handle_from_reply(&info),
            Err(e) => Err(Error::from_errno(e)),
        }
    }
}

} // verus!
