use drm_rs::control::connector::{self, Info as ConnectorInfo};
use drm_rs::control::crtc;
use drm_rs::control::handle::{ConnectorKind, CrtcKind, EncoderKind, FramebufferKind, Handle, PlaneKind};
use drm_rs::control::mode::{MODE_TYPE_BUILTIN, MODE_TYPE_DRIVER, MODE_TYPE_PREFERRED, MODE_TYPE_USERDEF};
use drm_rs::control::payload::{CardResources, ConnectorPayload, VersionPayload, UniquePayload};
use drm_rs::control::{from_u32, Mode, ModeInfo, ModeTypeFlags, ResourceHandle, ResourceHandles};
use drm_rs::error::{EACCES, EBUSY, EINVAL, EIO, ENOENT, ENOMEM, ENOSPC, EPERM};
use drm_rs::{BusID, ClientCapability, Driver, DriverCapability, Error};

fn named_mode(name: &[u8]) -> ModeInfo {
    let mut m = ModeInfo::zeroed();
    m.name[..name.len()].copy_from_slice(name);
    m
}

#[test]
fn raw_round_trip_for_nonzero_ids() {
    for v in [1u32, 2, 61, 0x8000_0000, u32::MAX] {
        assert_eq!(Handle::<ConnectorKind>::from_raw(v).unwrap().into_raw(), v);
        assert_eq!(from_u32::<CrtcKind>(v).unwrap().into_raw(), v);
        assert_eq!(from_u32::<EncoderKind>(v).unwrap().into_raw(), v);
        assert_eq!(from_u32::<FramebufferKind>(v).unwrap().into_raw(), v);
        assert_eq!(from_u32::<PlaneKind>(v).unwrap().into_raw(), v);
    }
}

#[test]
fn zero_is_no_handle() {
    assert_eq!(Handle::<ConnectorKind>::from_raw(0), None);
    assert_eq!(from_u32::<CrtcKind>(0), None);
    assert_eq!(from_u32::<PlaneKind>(0), None);
}

#[test]
fn object_type_tags() {
    assert_eq!(ConnectorKind::object_type(), 0xc0c0c0c0);
    assert_eq!(EncoderKind::object_type(), 0xe0e0e0e0);
    assert_eq!(CrtcKind::object_type(), 0xcccccccc);
    assert_eq!(FramebufferKind::object_type(), 0xfbfbfbfb);
    assert_eq!(PlaneKind::object_type(), 0xeeeeeeee);
}

#[test]
fn errno_classification() {
    assert_eq!(Error::from_errno(EPERM), Error::PermissionDenied);
    assert_eq!(Error::from_errno(EACCES), Error::PermissionDenied);
    assert_eq!(Error::from_errno(ENOENT), Error::NotFound);
    assert_eq!(Error::from_errno(EINVAL), Error::InvalidArgument);
    assert_eq!(Error::from_errno(ENOMEM), Error::OutOfMemory);
    assert_eq!(Error::from_errno(ENOSPC), Error::OutOfMemory);
    assert_eq!(Error::from_errno(EBUSY), Error::Busy);
    assert_eq!(Error::from_errno(EIO), Error::Io(5));
    assert_eq!(Error::from_errno(14), Error::Io(14));
}

#[test]
fn mode_getters() {
    let info = ModeInfo {
        clock: 148500,
        hdisplay: 1920,
        hsync_start: 2008,
        hsync_end: 2052,
        htotal: 2200,
        hskew: 7,
        vdisplay: 1080,
        vsync_start: 1084,
        vsync_end: 1089,
        vtotal: 1125,
        vscan: 3,
        vrefresh: 60,
        flags: 5,
        type_: 0x48,
        name: named_mode(b"1920x1080").name,
    };
    let m = Mode::from_info(info);
    assert_eq!(m.clock(), 148500);
    assert_eq!(m.size(), (1920, 1080));
    assert_eq!(m.hsync(), (2008, 2052, 2200));
    assert_eq!(m.vsync(), (1084, 1089, 1125));
    assert_eq!(m.hskew(), 7);
    assert_eq!(m.vscan(), 3);
    assert_eq!(m.vrefresh(), 60);
    assert_eq!(m.name(), b"1920x1080");
    assert_eq!(m.info(), info);
    assert!(m.mode_type().contains(MODE_TYPE_PREFERRED));
    assert!(m.mode_type().contains(MODE_TYPE_DRIVER));
    assert!(!m.mode_type().contains(MODE_TYPE_USERDEF));
}

#[test]
fn mode_name_edges() {
    assert_eq!(Mode::from_info(ModeInfo::zeroed()).name(), b"");
    let full = [b'x'; 32];
    let mut m = ModeInfo::zeroed();
    m.name = full;
    assert_eq!(Mode::from_info(m).name(), &full[..]);
    let mut inner = named_mode(b"ab");
    inner.name[3] = b'c';
    assert_eq!(Mode::from_info(inner).name(), b"ab");
}

#[test]
fn mode_type_drops_undefined_bits() {
    assert_eq!(ModeTypeFlags::from_bits_truncate(0xffff_ffff).bits(), 0x7f);
    assert_eq!(ModeTypeFlags::from_bits_truncate(0x180).bits(), 0);
    assert_eq!(ModeTypeFlags::from_bits_truncate(MODE_TYPE_BUILTIN | 0x100).bits(), 1);
    let mut m = ModeInfo::zeroed();
    m.type_ = 0x1008;
    assert_eq!(Mode::from_info(m).mode_type().bits(), MODE_TYPE_PREFERRED);
}

#[test]
fn zeroed_mode_info_is_all_zero() {
    let z = ModeInfo::zeroed();
    assert_eq!(z.clock, 0);
    assert_eq!(z.hdisplay, 0);
    assert_eq!(z.vtotal, 0);
    assert_eq!(z.name, [0u8; 32]);
}

fn connector_reply(offered: u32, written: &[ModeInfo], count: u32) -> ConnectorPayload {
    let mut probe = ConnectorPayload::probe(61);
    probe.count_modes = offered;
    let mut reply = ConnectorPayload::fill_request(61, &probe);
    for (slot, m) in reply.modes.iter_mut().zip(written.iter()) {
        *slot = *m;
    }
    reply.count_modes = count;
    reply.count_encoders = 1;
    reply.encoder_ids[0] = 81;
    reply
}

fn modes(n: usize) -> Vec<ModeInfo> {
    (0..n).map(|i| named_mode(format!("mode{}", i).as_bytes())).collect()
}

#[test]
fn connector_reply_with_five_modes() {
    let written = modes(5);
    let reply = connector_reply(5, &written, 5);
    let h = connector::Handle::from_raw(61).unwrap();
    let info = ConnectorInfo::from_reply(h, 5, &reply).unwrap();
    let got: Vec<ModeInfo> = info.modes().iter().map(|m| m.info()).collect();
    assert_eq!(got, written);
}

#[test]
fn connector_reply_shrunk_to_three() {
    let written = modes(3);
    let reply = connector_reply(5, &written, 3);
    let h = connector::Handle::from_raw(61).unwrap();
    let info = ConnectorInfo::from_reply(h, 5, &reply).unwrap();
    assert_eq!(info.modes().len(), 3);
    let got: Vec<ModeInfo> = info.modes().iter().map(|m| m.info()).collect();
    assert_eq!(got, written);
}

#[test]
fn connector_reply_grown_is_overflow() {
    let reply = connector_reply(5, &modes(5), 6);
    let h = connector::Handle::from_raw(61).unwrap();
    assert_eq!(ConnectorInfo::from_reply(h, 5, &reply).unwrap_err(), Error::Overflow);
    let mut short = connector_reply(5, &modes(5), 5);
    short.modes.truncate(4);
    assert_eq!(ConnectorInfo::from_reply(h, 5, &short).unwrap_err(), Error::Overflow);
}

#[test]
fn connector_request_shapes() {
    let probe = ConnectorPayload::probe(9);
    assert_eq!((probe.connector_id, probe.count_modes, probe.count_encoders), (9, 0, 0));
    assert!(probe.modes.is_empty());
    let mut answered = probe.clone();
    answered.count_modes = 4;
    answered.connector_id = 77;
    let fill = ConnectorPayload::fill_request(9, &answered);
    assert_eq!(fill.connector_id, 9);
    assert_eq!((fill.count_modes, fill.count_encoders, fill.modes.len()), (4, 3, 4));
    answered.count_modes = 0;
    let empty = ConnectorPayload::fill_request(9, &answered);
    assert_eq!((empty.count_modes, empty.count_encoders, empty.modes.len()), (0, 3, 0));
}

#[test]
fn connector_reply_zero_encoder_id_is_io_error() {
    let mut reply = connector_reply(2, &modes(2), 2);
    reply.count_encoders = 2;
    reply.encoder_ids[1] = 0;
    let h = connector::Handle::from_raw(61).unwrap();
    assert_eq!(ConnectorInfo::from_reply(h, 2, &reply).unwrap_err(), Error::Io(EIO));
}

#[test]
fn encoder_request_names_the_encoder() {
    let req = drm_rs::control::encoder::get_request(from_u32(81).unwrap());
    assert_eq!(req.encoder_id, 81);
    assert_eq!((req.encoder_type, req.crtc_id, req.possible_crtcs, req.possible_clones), (0, 0, 0, 0));
}

#[test]
fn resource_reply_counts() {
    let mut reply = CardResources::request();
    assert_eq!(reply.count_fbs, 32);
    for i in 0..32 {
        reply.connector_ids[i] = 100 + i as u32;
    }
    reply.count_fbs = 0;
    reply.count_crtcs = 0;
    reply.count_encoders = 0;
    reply.count_connectors = 32;
    let res = ResourceHandles::from_reply(&reply).unwrap();
    assert_eq!(res.connectors().len(), 32);
    reply.count_connectors = 33;
    assert_eq!(ResourceHandles::from_reply(&reply), Err(Error::Overflow));
    reply.count_connectors = 32;
    reply.connector_ids[31] = 0;
    assert_eq!(ResourceHandles::from_reply(&reply), Err(Error::Io(EIO)));
    reply.count_connectors = 31;
    assert_eq!(ResourceHandles::from_reply(&reply).unwrap().connectors().len(), 31);
}

#[test]
fn set_request_fields() {
    let crtc_h = crtc::Handle::from_raw(41).unwrap();
    let conns = [connector::Handle::from_raw(61).unwrap()];
    let m = Mode::from_info(named_mode(b"m"));
    let req = crtc::set_request(crtc_h, from_u32(7), (1, 2), &conns, Some(m));
    assert_eq!(req.crtc_id, 41);
    assert_eq!(req.fb_id, 7);
    assert_eq!((req.x, req.y), (1, 2));
    assert_eq!(req.set_connectors, vec![61]);
    assert_eq!(req.count_connectors, 1);
    assert_eq!(req.mode_valid, 1);
    assert_eq!(req.mode, m.info());
    let off = crtc::set_request(crtc_h, None, (0, 0), &[], None);
    assert_eq!((off.fb_id, off.mode_valid, off.count_connectors), (0, 0, 0));
    assert_eq!(off.mode, ModeInfo::zeroed());
}

#[test]
fn version_reply_is_cut() {
    let mut v = VersionPayload::request();
    v.name[..4].copy_from_slice(b"i915");
    v.name_len = 4;
    v.date = [b'd'; 32];
    v.date_len = 50;
    v.desc_len = 0;
    let d = Driver::from_reply(&v);
    assert_eq!(d.name(), b"i915");
    assert_eq!(d.date(), &[b'd'; 32][..]);
    assert_eq!(d.description(), b"");
}

#[test]
fn bus_id_reply() {
    let mut u = UniquePayload::request();
    u.unique[..3].copy_from_slice(b"pci");
    u.unique_len = 3;
    assert_eq!(BusID::from_reply(&u).as_bytes(), b"pci");
}

#[test]
fn capability_codes() {
    assert_eq!(DriverCapability::DumbBuffer.code(), 1);
    assert_eq!(DriverCapability::CursorHeight.code(), 9);
    assert_eq!(DriverCapability::AddFB2Modifiers.code(), 0x10);
    assert_eq!(DriverCapability::SyncObj.code(), 0x13);
    assert_eq!(ClientCapability::Stereo3D.code(), 1);
    assert_eq!(ClientCapability::UniversalPlanes.code(), 2);
    assert_eq!(ClientCapability::Atomic.code(), 3);
}
