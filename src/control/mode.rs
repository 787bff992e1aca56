//! Display modes: the fixed-layout timing records that the kernel hands out
//! and takes back unchanged.
use vstd::prelude::*;
use vstd::array::array_fill_for_copy_types;
use vstd::slice::slice_subrange;

verus! {

/// Bytes in a mode's NUL-padded name.
pub const MODE_NAME_LEN: usize = 32;

/// The kernel's display-timing record, field for field.
#[derive(Debug, Clone, Copy, PartialEq, Eq, Hash)]
pub struct ModeInfo {
    /// Pixel clock in kHz.
    pub clock: u32,
    pub hdisplay: u16,
    pub hsync_start: u16,
    pub hsync_end: u16,
    pub htotal: u16,
    pub hskew: u16,
    pub vdisplay: u16,
    pub vsync_start: u16,
    pub vsync_end: u16,
    pub vtotal: u16,
    pub vscan: u16,
    /// Vertical refresh rate in Hz.
    pub vrefresh: u32,
    pub flags: u32,
    /// The mode-type bitmask.
    pub type_: u32,
    /// The mode's name, NUL-padded.
    pub name: [u8; MODE_NAME_LEN],
}

impl ModeInfo {
    /// Whether every field is zero.
    pub open spec fn is_zeroed(&self) -> bool {
        &&& self.clock == 0 && self.vrefresh == 0 && self.flags == 0 && self.type_ == 0
        &&& self.hdisplay == 0 && self.hsync_start == 0 && self.hsync_end == 0
        &&& self.htotal == 0 && self.hskew == 0
        &&& self.vdisplay == 0 && self.vsync_start == 0 && self.vsync_end == 0
        &&& self.vtotal == 0 && self.vscan == 0
        &&& forall|i: int| 0 <= i < MODE_NAME_LEN ==> self.name[i] == 0
    }

    /// A record with every field zero, as the kernel expects for "no mode".
    pub fn zeroed() -> (r: ModeInfo)
        ensures
            r.is_zeroed(),
    {
        let name: [u8; MODE_NAME_LEN] = array_fill_for_copy_types(0u8);
        ModeInfo {
            clock: 0,
            hdisplay: 0,
            hsync_start: 0,
            hsync_end: 0,
            htotal: 0,
            hskew: 0,
            vdisplay: 0,
            vsync_start: 0,
            vsync_end: 0,
            vtotal: 0,
            vscan: 0,
            vrefresh: 0,
            flags: 0,
            type_: 0,
            name,
        }
    }
}

/// The mode-type bits that are defined, deprecated ones included.
pub const MODE_TYPE_ALL_BITS: u32 = 0x7f;

/// Deprecated: a mode built into the driver.
pub const MODE_TYPE_BUILTIN: u32 = 0x1;

/// The display's preferred mode.
pub const MODE_TYPE_PREFERRED: u32 = 0x8;

/// A mode that the user defined.
pub const MODE_TYPE_USERDEF: u32 = 0x20;

/// A mode that the driver created.
pub const MODE_TYPE_DRIVER: u32 = 0x40;

/// A display mode's type bitmask, holding only defined bits.
#[derive(Debug, Clone, Copy, PartialEq, Eq, Hash)]
pub struct ModeTypeFlags {
    bits: u32,
}

impl ModeTypeFlags {
    /// The bits held.
    pub closed spec fn view(&self) -> u32 {
        self.bits
    }

    /// Keeps the defined bits of `bits` and drops the rest.
    pub fn from_bits_truncate(bits: u32) -> (r: ModeTypeFlags)
        ensures
            r@ == bits & MODE_TYPE_ALL_BITS,
    {
        ModeTypeFlags { bits: bits & MODE_TYPE_ALL_BITS }
    }

    /// The bits held.
    pub fn bits(&self) -> (r: u32)
        ensures
            r == self@,
    {
        self.bits
    }

    /// Whether every bit of `flag` is set here.
    pub fn contains(&self, flag: u32) -> (r: bool)
        ensures
            r == (self@ & flag == flag),
    {
        self.bits & flag == flag
    }
}

/// Resolution and timing of a display mode.
///
/// The record is kept exactly as the kernel gave it, so that it can be
/// handed back byte for byte.
#[derive(Debug, Clone, Copy, PartialEq, Eq, Hash)]
pub struct Mode {
    mode: ModeInfo,
}

/// Whether `name` is the part of `bytes` before its first NUL.
pub open spec fn is_name_of(name: Seq<u8>, bytes: Seq<u8>) -> bool {
    &&& name.len() <= bytes.len()
    &&& name == bytes.take(name.len() as int)
    &&& forall|i: int| 0 <= i < name.len() ==> name[i] != 0
    &&& name.len() < bytes.len() ==> bytes[name.len() as int] == 0
}

impl Mode {
    /// The kernel record behind this mode.
    pub closed spec fn view(&self) -> ModeInfo {
        self.mode
    }

    /// Wraps a kernel record, which is kept unchanged.
    pub fn from_info(raw: ModeInfo) -> (r: Mode)
        ensures
            r@ == raw,
    {
        Mode { mode: raw }
    }

    /// The kernel record behind this mode, to hand back to the kernel.
    pub fn info(&self) -> (r: ModeInfo)
        ensures
            r == self@,
    {
        self.mode
    }

    /// The mode's name: its bytes up to the first NUL.
    pub fn name(&self) -> (r: &[u8])
        ensures
            is_name_of(r@, self@.name@),
    {
        let mut n: usize = 0;
        while n < MODE_NAME_LEN && self.mode.name[n] != 0
            invariant
                n <= MODE_NAME_LEN,
                forall|i: int| 0 <= i < n ==> self.mode.name[i] != 0,
            decreases MODE_NAME_LEN - n,
        {
            n = n + 1;
        }
        let r = slice_subrange(self.mode.name.as_slice(), 0, n);
        assert(r@ == self@.name@.take(n as int));
        r
    }

    /// The pixel clock in kHz.
    pub fn clock(&self) -> (r: u32)
        ensures
            r == self@.clock,
    {
        self.mode.clock
    }

    /// The resolution: horizontal and vertical display size.
    pub fn size(&self) -> (r: (u16, u16))
        ensures
            r == (self@.hdisplay, self@.vdisplay),
    {
        (self.mode.hdisplay, self.mode.vdisplay)
    }

    /// Horizontal sync start, sync end and total.
    pub fn hsync(&self) -> (r: (u16, u16, u16))
        ensures
            r == (self@.hsync_start, self@.hsync_end, self@.htotal),
    {
        (self.mode.hsync_start, self.mode.hsync_end, self.mode.htotal)
    }

    /// Vertical sync start, sync end and total.
    pub fn vsync(&self) -> (r: (u16, u16, u16))
        ensures
            r == (self@.vsync_start, self@.vsync_end, self@.vtotal),
    {
        (self.mode.vsync_start, self.mode.vsync_end, self.mode.vtotal)
    }

    /// The horizontal skew.
    pub fn hskew(&self) -> (r: u16)
        ensures
            r == self@.hskew,
    {
        self.mode.hskew
    }

    /// The vertical scan.
    pub fn vscan(&self) -> (r: u16)
        ensures
            r == self@.vscan,
    {
        self.mode.vscan
    }

    /// The vertical refresh rate in Hz.
    pub fn vrefresh(&self) -> (r: u32)
        ensures
            r == self@.vrefresh,
    {
        self.mode.vrefresh
    }

    /// The mode's type bitmask, with undefined bits dropped.
    pub fn mode_type(&self) -> (r: ModeTypeFlags)
        ensures
            r@ == self@.type_ & MODE_TYPE_ALL_BITS,
    {
        ModeTypeFlags::from_bits_truncate(self.mode.type_)
    }
}

} // verus!
