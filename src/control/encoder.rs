//! Encoders: they turn a CRTC's pixel data into a connector's signal.
use super::handle::{CrtcKind, EncoderKind};
use super::payload::EncoderPayload;
use super::resources::CrtcListFilter;
use vstd::prelude::*;

verus! {

/// A handle naming an encoder.
pub type Handle = super::handle::Handle<EncoderKind>;

/// The kind of signal an encoder produces.
#[derive(Debug, Clone, Copy, PartialEq, Eq, Hash, Structural)]
pub enum Kind {
    Unspecified,
    DAC,
    TMDS,
    LVDS,
    TVDAC,
    Virtual,
    DSI,
    DPMST,
    DPI,
}

/// The largest encoder-type code that names a kind.
pub const LAST_KIND_CODE: u32 = 8;

impl Kind {
    /// The kernel's encoder-type code for this kind.
    pub open spec fn code(self) -> u32 {
        match self {
            Kind::Unspecified => 0,
            Kind::DAC => 1,
            Kind::TMDS => 2,
            Kind::LVDS => 3,
            Kind::TVDAC => 4,
            Kind::Virtual => 5,
            Kind::DSI => 6,
            Kind::DPMST => 7,
            Kind::DPI => 8,
        }
    }

    /// Reads the kernel's encoder-type code; codes it does not define are `Unspecified`.
    pub fn from_raw(raw: u32) -> (r: Kind)
        ensures
            raw <= LAST_KIND_CODE ==> r.code() == raw,
            raw > LAST_KIND_CODE ==> r == Kind::Unspecified,
    {
        match raw {
            1 => Kind::DAC,
            2 => Kind::TMDS,
            3 => Kind::LVDS,
            4 => Kind::TVDAC,
            5 => Kind::Virtual,
            6 => Kind::DSI,
            7 => Kind::DPMST,
            8 => Kind::DPI,
            _ => Kind::Unspecified,
        }
    }
}

/// The "get encoder" request for encoder `handle`.
pub fn get_request(handle: Handle) -> (r: EncoderPayload)
    ensures
        r.encoder_id == handle@,
        r.encoder_type == 0,
        r.crtc_id == 0,
        r.possible_crtcs == 0,
        r.possible_clones == 0,
{
    EncoderPayload {
        encoder_id: handle.into_raw(),
        encoder_type: 0,
        crtc_id: 0,
        possible_crtcs: 0,
        possible_clones: 0,
    }
}

/// What an encoder query reports about one encoder.
#[derive(Debug, Clone, Copy, PartialEq, Eq, Hash)]
pub struct Info {
    handle: Handle,
    enc_type: Kind,
    crtc: Option<super::handle::Handle<CrtcKind>>,
    pos_crtcs: u32,
    pos_clones: u32,
}

impl Info {
    pub closed spec fn handle_view(&self) -> Handle {
        self.handle
    }

    pub closed spec fn kind_view(&self) -> Kind {
        self.enc_type
    }

    pub closed spec fn crtc_view(&self) -> Option<super::handle::Handle<CrtcKind>> {
        self.crtc
    }

    pub closed spec fn possible_crtcs_view(&self) -> u32 {
        self.pos_crtcs
    }

    pub closed spec fn possible_clones_view(&self) -> u32 {
        self.pos_clones
    }

    /// Builds the encoder's description from a driver's reply.
    pub fn from_reply(handle: Handle, reply: &EncoderPayload) -> (r: Info)
        ensures
            r.handle_view() == handle,
            reply.encoder_type <= LAST_KIND_CODE ==> r.kind_view().code() == reply.encoder_type,
            reply.encoder_type > LAST_KIND_CODE ==> r.kind_view() == Kind::Unspecified,
            r.crtc_view() == super::handle::Handle::<CrtcKind>::spec_from_raw(reply.crtc_id),
            r.possible_crtcs_view() == reply.possible_crtcs,
            r.possible_clones_view() == reply.possible_clones,
    {
        Info {
            handle,
            enc_type: Kind::from_raw(reply.encoder_type),
            crtc: super::handle::Handle::from_raw(reply.crtc_id),
            pos_crtcs: reply.possible_crtcs,
            pos_clones: reply.possible_clones,
        }
    }

    /// The encoder's handle.
    pub fn handle(&self) -> (r: Handle)
        ensures
            r == self.handle_view(),
    {
        self.handle
    }

    /// The kind of signal produced.
    pub fn kind(&self) -> (r: Kind)
        ensures
            r == self.kind_view(),
    {
        self.enc_type
    }

    /// The CRTC currently bound, if any.
    pub fn crtc(&self) -> (r: Option<super::handle::Handle<CrtcKind>>)
        ensures
            r == self.crtc_view(),
    {
        self.crtc
    }

    /// The CRTCs this encoder can be driven by, as a filter over a resource list.
    pub fn possible_crtcs(&self) -> (r: CrtcListFilter)
        ensures
            r.0 == self.possible_crtcs_view(),
    {
        CrtcListFilter(self.pos_crtcs)
    }

    /// The encoders that can clone this one, as a bitmask over the encoder list.
    pub fn possible_clones(&self) -> (r: u32)
        ensures
            r == self.possible_clones_view(),
    {
        self.pos_clones
    }
}

} // verus!
