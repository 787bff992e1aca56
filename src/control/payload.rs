//! The records exchanged with the kernel on each mode-setting call.
//!
//! Each mirrors one kernel ABI struct, with the user-space arrays that the
//! kernel fills held inline. A driver fills at most as many entries as an
//! array holds and reports in the matching count how many it has in all.
use super::mode::ModeInfo;
use vstd::prelude::*;

verus! {

/// Entries in each id array of a resource query.
pub const RESOURCE_CAPACITY: usize = 32;

/// Entries in a connector's encoder array: the kernel never lists more.
pub const CONNECTOR_ENCODER_CAPACITY: usize = 3;

/// Bytes in each string buffer of a version or bus-id query.
pub const NAME_CAPACITY: usize = 32;

/// The "get resources" record.
#[derive(Debug, Clone, Copy, PartialEq, Eq)]
pub struct CardResources {
    pub fb_ids: [u32; RESOURCE_CAPACITY],
    pub count_fbs: u32,
    pub crtc_ids: [u32; RESOURCE_CAPACITY],
    pub count_crtcs: u32,
    pub connector_ids: [u32; RESOURCE_CAPACITY],
    pub count_connectors: u32,
    pub encoder_ids: [u32; RESOURCE_CAPACITY],
    pub count_encoders: u32,
    pub min_width: u32,
    pub max_width: u32,
    pub min_height: u32,
    pub max_height: u32,
}

impl CardResources {
    /// A request offering the full capacity for every id array.
    pub fn request() -> (r: CardResources)
        ensures
            r.count_fbs == RESOURCE_CAPACITY,
            r.count_crtcs == RESOURCE_CAPACITY,
            r.count_connectors == RESOURCE_CAPACITY,
            r.count_encoders == RESOURCE_CAPACITY,
    {
        CardResources {
            fb_ids: [0u32; RESOURCE_CAPACITY],
            count_fbs: RESOURCE_CAPACITY as u32,
            crtc_ids: [0u32; RESOURCE_CAPACITY],
            count_crtcs: RESOURCE_CAPACITY as u32,
            connector_ids: [0u32; RESOURCE_CAPACITY],
            count_connectors: RESOURCE_CAPACITY as u32,
            encoder_ids: [0u32; RESOURCE_CAPACITY],
            count_encoders: RESOURCE_CAPACITY as u32,
            min_width: 0,
            max_width: 0,
            min_height: 0,
            max_height: 0,
        }
    }
}

/// The "get connector" record.
#[derive(Debug, Clone, PartialEq, Eq)]
pub struct ConnectorPayload {
    pub connector_id: u32,
    /// Slots for the connector's modes; the request offers `count_modes` of them.
    pub modes: Vec<ModeInfo>,
    pub count_modes: u32,
    pub encoder_ids: [u32; CONNECTOR_ENCODER_CAPACITY],
    pub count_encoders: u32,
    pub count_props: u32,
    /// The encoder currently attached, zero for none.
    pub encoder_id: u32,
    pub connector_type: u32,
    pub connector_type_id: u32,
    pub connection: u32,
    /// Physical width in millimetres.
    pub mm_width: u32,
    /// Physical height in millimetres.
    pub mm_height: u32,
    pub subpixel: u32,
}

impl ConnectorPayload {
    /// A request for connector `connector_id` with `mode_slots` mode slots
    /// and `encoder_slots` encoder slots.
    fn with_slots(connector_id: u32, mode_slots: u32, encoder_slots: u32) -> (r: ConnectorPayload)
        requires
            encoder_slots <= CONNECTOR_ENCODER_CAPACITY,
        ensures
            r.connector_id == connector_id,
            r.modes@.len() == mode_slots,
            r.count_modes == mode_slots,
            r.count_encoders == encoder_slots,
            r.count_props == 0,
    {
        let mut modes: Vec<ModeInfo> = Vec::new();
        let mut i: u32 = 0;
        while i < mode_slots
            invariant
                i <= mode_slots,
                modes@.len() == i,
            decreases mode_slots - i,
        {
            modes.push(ModeInfo::zeroed());
            i = i + 1;
        }
        ConnectorPayload {
            connector_id,
            modes,
            count_modes: mode_slots,
            encoder_ids: [0u32; CONNECTOR_ENCODER_CAPACITY],
            count_encoders: encoder_slots,
            count_props: 0,
            encoder_id: 0,
            connector_type: 0,
            connector_type_id: 0,
            connection: 0,
            mm_width: 0,
            mm_height: 0,
            subpixel: 0,
        }
    }

    /// The first request of a connector query: no slots at all, to learn
    /// how many modes there are.
    pub fn probe(connector_id: u32) -> (r: ConnectorPayload)
        ensures
            r.connector_id == connector_id,
            r.modes@.len() == 0,
            r.count_modes == 0,
            r.count_encoders == 0,
            r.count_props == 0,
    {
        Self::with_slots(connector_id, 0, 0)
    }

    /// The second request of a connector query, given the reply to the
    /// probe: exactly as many mode slots as the probe reported, and every
    /// encoder slot the kernel may fill.
    pub fn fill_request(connector_id: u32, probe: &ConnectorPayload) -> (r: ConnectorPayload)
        ensures
            r.connector_id == connector_id,
            r.modes@.len() == probe.count_modes,
            r.count_modes == probe.count_modes,
            r.count_encoders == CONNECTOR_ENCODER_CAPACITY,
            r.count_props == 0,
    {
        Self::with_slots(connector_id, probe.count_modes, CONNECTOR_ENCODER_CAPACITY as u32)
    }
}

/// The "get encoder" record.
#[derive(Debug, Clone, Copy, PartialEq, Eq)]
pub struct EncoderPayload {
    pub encoder_id: u32,
    pub encoder_type: u32,
    /// The CRTC currently bound, zero for none.
    pub crtc_id: u32,
    /// Bit `i` set: the encoder can drive the `i`-th CRTC of the resource list.
    pub possible_crtcs: u32,
    pub possible_clones: u32,
}

/// The "get CRTC" and "set CRTC" record.
#[derive(Debug, Clone, PartialEq, Eq)]
pub struct CrtcPayload {
    /// The connectors to drive, on a set call.
    pub set_connectors: Vec<u32>,
    pub count_connectors: u32,
    pub crtc_id: u32,
    /// The framebuffer scanned out, zero for none.
    pub fb_id: u32,
    pub x: u32,
    pub y: u32,
    pub gamma_size: u32,
    /// Nonzero when `mode` holds a mode.
    pub mode_valid: u32,
    pub mode: ModeInfo,
}

/// The "create dumb buffer" record.
#[derive(Debug, Clone, Copy, PartialEq, Eq)]
pub struct CreateDumb {
    pub height: u32,
    pub width: u32,
    pub bpp: u32,
    pub flags: u32,
    /// Filled by the kernel: the buffer's handle.
    pub handle: u32,
    /// Filled by the kernel: bytes per row.
    pub pitch: u32,
    /// Filled by the kernel: bytes in all.
    pub size: u64,
}

/// The "map dumb buffer" record.
#[derive(Debug, Clone, Copy, PartialEq, Eq)]
pub struct MapDumb {
    pub handle: u32,
    pub pad: u32,
    /// Filled by the kernel: the offset to map at.
    pub offset: u64,
}

/// The "add framebuffer" record.
#[derive(Debug, Clone, Copy, PartialEq, Eq)]
pub struct FbCmd {
    /// Filled by the kernel: the new framebuffer's id.
    pub fb_id: u32,
    pub width: u32,
    pub height: u32,
    pub pitch: u32,
    pub bpp: u32,
    pub depth: u32,
    pub handle: u32,
}

/// The "get version" record.
#[derive(Debug, Clone, Copy, PartialEq, Eq)]
pub struct VersionPayload {
    pub version_major: i32,
    pub version_minor: i32,
    pub version_patchlevel: i32,
    pub name: [u8; NAME_CAPACITY],
    /// The whole name's length, which may exceed the buffer.
    pub name_len: usize,
    pub date: [u8; NAME_CAPACITY],
    pub date_len: usize,
    pub desc: [u8; NAME_CAPACITY],
    pub desc_len: usize,
}

impl VersionPayload {
    /// A request offering the full capacity for every string.
    pub fn request() -> (r: VersionPayload)
        ensures
            r.name_len == NAME_CAPACITY,
            r.date_len == NAME_CAPACITY,
            r.desc_len == NAME_CAPACITY,
    {
        VersionPayload {
            version_major: 0,
            version_minor: 0,
            version_patchlevel: 0,
            name: [0u8; NAME_CAPACITY],
            name_len: NAME_CAPACITY,
            date: [0u8; NAME_CAPACITY],
            date_len: NAME_CAPACITY,
            desc: [0u8; NAME_CAPACITY],
            desc_len: NAME_CAPACITY,
        }
    }
}

/// The "get bus id" record.
#[derive(Debug, Clone, Copy, PartialEq, Eq)]
pub struct UniquePayload {
    pub unique: [u8; NAME_CAPACITY],
    /// The whole id's length, which may exceed the buffer.
    pub unique_len: usize,
}

impl UniquePayload {
    /// A request offering the full capacity.
    pub fn request() -> (r: UniquePayload)
        ensures
            r.unique_len == NAME_CAPACITY,
    {
        UniquePayload { unique: [0u8; NAME_CAPACITY], unique_len: NAME_CAPACITY }
    }
}

} // verus!
