//! The device-level calls: driver identity, bus id, capabilities and the
//! Master lock.
use crate::control::payload::{UniquePayload, VersionPayload, NAME_CAPACITY};
use crate::error::{is_driver_error, Error};
use vstd::prelude::*;

verus! {

/// The first `min(len, buf.len())` bytes of `buf`: what a kernel that was
/// offered `buf` and reports a total length `len` has written.
pub open spec fn written_prefix(buf: Seq<u8>, len: usize) -> Seq<u8> {
    if len < buf.len() {
        buf.take(len as int)
    } else {
        buf
    }
}

/// Copies what the kernel wrote into a string buffer; a longer string is
/// cut to the buffer's size.
pub fn copy_written(buf: &[u8], len: usize) -> (r: Vec<u8>)
    ensures
        r@ == written_prefix(buf@, len),
{
    let n = if len < buf.len() {
        len
    } else {
        buf.len()
    };
    let mut out: Vec<u8> = Vec::new();
    let mut i: usize = 0;
    while i < n
        invariant
            i <= n,
            n <= buf@.len(),
            out@ == buf@.take(i as int),
        decreases n - i,
    {
        out.push(buf[i]);
        assert(out@ =~= buf@.take(i + 1));
        i = i + 1;
    }
    assert(buf@.take(buf@.len() as int) =~= buf@);
    out
}

/// The bus id of a device, as the kernel reports it.
#[derive(Debug, Clone, PartialEq, Eq, Hash)]
pub struct BusID(Vec<u8>);

impl BusID {
    pub closed spec fn view(&self) -> Seq<u8> {
        self.0@
    }

    /// Reads a "get bus id" reply; an id longer than the buffer is cut short.
    pub fn from_reply(reply: &UniquePayload) -> (r: BusID)
        ensures
            r@ == written_prefix(reply.unique@, reply.unique_len),
    {
        BusID(copy_written(reply.unique.as_slice(), reply.unique_len))
    }

    /// The id's bytes.
    pub fn as_bytes(&self) -> (r: &[u8])
        ensures
            r@ == self@,
    {
        self.0.as_slice()
    }
}

/// The name, date and description of a device's driver.
#[derive(Debug, Clone, PartialEq, Eq, Hash)]
pub struct Driver {
    name: Vec<u8>,
    date: Vec<u8>,
    desc: Vec<u8>,
}

impl Driver {
    pub closed spec fn name_view(&self) -> Seq<u8> {
        self.name@
    }

    pub closed spec fn date_view(&self) -> Seq<u8> {
        self.date@
    }

    pub closed spec fn description_view(&self) -> Seq<u8> {
        self.desc@
    }

    /// Reads a "get version" reply; a string longer than its buffer is cut short.
    pub fn from_reply(reply: &VersionPayload) -> (r: Driver)
        ensures
            r.name_view() == written_prefix(reply.name@, reply.name_len),
            r.date_view() == written_prefix(reply.date@, reply.date_len),
            r.description_view() == written_prefix(reply.desc@, reply.desc_len),
    {
        Driver {
            name: copy_written(reply.name.as_slice(), reply.name_len),
            date: copy_written(reply.date.as_slice(), reply.date_len),
            desc: copy_written(reply.desc.as_slice(), reply.desc_len),
        }
    }

    /// Name of the driver.
    pub fn name(&self) -> (r: &[u8])
        ensures
            r@ == self.name_view(),
    {
        self.name.as_slice()
    }

    /// Date the driver was published.
    pub fn date(&self) -> (r: &[u8])
        ensures
            r@ == self.date_view(),
    {
        self.date.as_slice()
    }

    /// Description of the driver.
    pub fn description(&self) -> (r: &[u8])
        ensures
            r@ == self.description_view(),
    {
        self.desc.as_slice()
    }
}

/// Capabilities a driver can be asked about.
#[derive(Debug, Clone, Copy, PartialEq, Eq, Hash, Structural)]
pub enum DriverCapability {
    /// Dumb buffers for scanout are supported.
    DumbBuffer,
    /// Vblank on CRTCs past the second is supported.
    VBlankHighCRTC,
    /// Preferred colour depth for dumb buffers.
    DumbPreferredDepth,
    /// Whether dumb buffers should be shadowed.
    DumbPreferShadow,
    /// PRIME buffer sharing is supported.
    Prime,
    /// Timestamps are monotonic.
    MonotonicTimestamp,
    /// Asynchronous page flips are supported.
    ASyncPageFlip,
    /// Width of cursor buffers.
    CursorWidth,
    /// Height of cursor buffers.
    CursorHeight,
    /// Framebuffers with modifiers can be created.
    AddFB2Modifiers,
    /// Page flips can target a vblank.
    PageFlipTarget,
    /// Vblank events carry the CRTC's id.
    CRTCInVBlankEvent,
    /// Sync objects are supported.
    SyncObj,
}

impl DriverCapability {
    /// The kernel's code for this capability.
    pub open spec fn spec_code(self) -> u64 {
        match self {
            DriverCapability::DumbBuffer => 0x1,
            DriverCapability::VBlankHighCRTC => 0x2,
            DriverCapability::DumbPreferredDepth => 0x3,
            DriverCapability::DumbPreferShadow => 0x4,
            DriverCapability::Prime => 0x5,
            DriverCapability::MonotonicTimestamp => 0x6,
            DriverCapability::ASyncPageFlip => 0x7,
            DriverCapability::CursorWidth => 0x8,
            DriverCapability::CursorHeight => 0x9,
            DriverCapability::AddFB2Modifiers => 0x10,
            DriverCapability::PageFlipTarget => 0x11,
            DriverCapability::CRTCInVBlankEvent => 0x12,
            DriverCapability::SyncObj => 0x13,
        }
    }

    /// The kernel's code for this capability.
    pub fn code(&self) -> (r: u64)
        ensures
            r == self.spec_code(),
    {
        match self {
            DriverCapability::DumbBuffer => 0x1,
            DriverCapability::VBlankHighCRTC => 0x2,
            DriverCapability::DumbPreferredDepth => 0x3,
            DriverCapability::DumbPreferShadow => 0x4,
            DriverCapability::Prime => 0x5,
            DriverCapability::MonotonicTimestamp => 0x6,
            DriverCapability::ASyncPageFlip => 0x7,
            DriverCapability::CursorWidth => 0x8,
            DriverCapability::CursorHeight => 0x9,
            DriverCapability::AddFB2Modifiers => 0x10,
            DriverCapability::PageFlipTarget => 0x11,
            DriverCapability::CRTCInVBlankEvent => 0x12,
            DriverCapability::SyncObj => 0x13,
        }
    }
}

/// Capabilities a client can turn on or off for itself.
#[derive(Debug, Clone, Copy, PartialEq, Eq, Hash, Structural)]
pub enum ClientCapability {
    /// Stereo 3D modes are exposed.
    Stereo3D,
    /// All plane types are exposed.
    UniversalPlanes,
    /// Atomic mode setting is exposed.
    Atomic,
}

impl ClientCapability {
    /// The kernel's code for this capability.
    pub open spec fn spec_code(self) -> u64 {
        match self {
            ClientCapability::Stereo3D => 1,
            ClientCapability::UniversalPlanes => 2,
            ClientCapability::Atomic => 3,
        }
    }

    /// The kernel's code for this capability.
    pub fn code(&self) -> (r: u64)
        ensures
            r == self.spec_code(),
    {
        match self {
            ClientCapability::Stereo3D => 1,
            ClientCapability::UniversalPlanes => 2,
            ClientCapability::Atomic => 3,
        }
    }
}

/// The error of a failed call, from the error number it returned.
pub fn map_errno<T>(res: Result<T, i32>) -> (r: Result<T, Error>)
    ensures
        res matches Ok(v) ==> r == Ok::<T, Error>(v),
        res matches Err(e) ==> r == Err::<T, Error>(crate::error::error_of_errno(e)),
{
    match res {
        Ok(v) => Ok(v),
        Err(e) => Err(Error::from_errno(e)),
    }
}

/// An open DRM device.
///
/// An implementor supplies the raw kernel calls, each on the one open
/// device descriptor: it fills the record it is handed as the kernel ABI
/// says and returns the error number on failure. The other methods are
/// built on them.
pub trait Device {
    /// The "get version" call.
    fn ioctl_get_version(&self, version: &mut VersionPayload) -> Result<(), i32>
        requires
            old(version).name_len <= NAME_CAPACITY,
            old(version).date_len <= NAME_CAPACITY,
            old(version).desc_len <= NAME_CAPACITY,
    ;

    /// The "get bus id" call.
    fn ioctl_get_unique(&self, unique: &mut UniquePayload) -> Result<(), i32>
        requires
            old(unique).unique_len <= NAME_CAPACITY,
    ;

    /// The "get capability" call: the capability's value.
    fn ioctl_get_cap(&self, capability: u64) -> Result<u64, i32>;

    /// The "set client capability" call.
    fn ioctl_set_client_cap(&self, capability: u64, value: u64) -> Result<(), i32>;

    /// The "set master" call.
    fn ioctl_set_master(&self) -> Result<(), i32>;

    /// The "drop master" call.
    fn ioctl_drop_master(&self) -> Result<(), i32>;

    /// Takes the Master lock for this descriptor.
    fn acquire_master_lock(&self) -> (r: Result<(), Error>)
        ensures
            r matches Err(e) ==> is_driver_error(e) && e != Error::Overflow,
    {
        map_errno(self.ioctl_set_master())
    }

    /// Releases the Master lock for another process to take.
    fn release_master_lock(&self) -> (r: Result<(), Error>)
        ensures
            r matches Err(e) ==> is_driver_error(e) && e != Error::Overflow,
    {
        map_errno(self.ioctl_drop_master())
    }

    /// Asks the driver to expose (`enable`) or hide a capability.
    fn set_client_capability(&self, cap: ClientCapability, enable: bool) -> (r: Result<(), Error>)
        ensures
            r matches Err(e) ==> is_driver_error(e) && e != Error::Overflow,
    {
        let value: u64 = if enable {
            1
        } else {
            0
        };
        map_errno(self.ioctl_set_client_cap(cap.code(), value))
    }

    /// The device's bus id, cut to the buffer's size when longer.
    fn get_bus_id(&self) -> (r: Result<BusID, Error>)
        ensures
            r matches Ok(id) ==> id@.len() <= NAME_CAPACITY,
            r matches Err(e) ==> is_driver_error(e) && e != Error::Overflow,
    {
        let mut unique = UniquePayload::request();
        match self.ioctl_get_unique(&mut unique) {
            Ok(()) => Ok(BusID::from_reply(&unique)),
            Err(e) => Err(Error::from_errno(e)),
        }
    }

    /// The value of a driver capability.
    fn get_driver_capability(&self, cap: DriverCapability) -> (r: Result<u64, Error>)
        ensures
            r matches Err(e) ==> is_driver_error(e) && e != Error::Overflow,
    {
        map_errno(self.ioctl_get_cap(cap.code()))
    }

    /// The driver's name, date and description, each cut to the buffer's
    /// size when longer.
    fn get_driver(&self) -> (r: Result<Driver, Error>)
        ensures
            r matches Ok(d) ==> {
                &&& d.name_view().len() <= NAME_CAPACITY
                &&& d.date_view().len() <= NAME_CAPACITY
                &&& d.description_view().len() <= NAME_CAPACITY
            },
            r matches Err(e) ==> is_driver_error(e) && e != Error::Overflow,
    {
        let mut version = VersionPayload::request();
        match self.ioctl_get_version(&mut version) {
            Ok(()) => Ok(Driver::from_reply(&version)),
            Err(e) => Err(Error::from_errno(e)),
        }
    }
}

} // verus!
