//! CRTCs: the scanout engines that read a framebuffer and drive display timing.
use super::handle::{ConnectorKind, CrtcKind, FramebufferKind};
use super::mode::{Mode, ModeInfo};
use super::payload::CrtcPayload;
use vstd::prelude::*;

verus! {

/// A handle naming a CRTC.
pub type Handle = super::handle::Handle<CrtcKind>;

/// What a CRTC query reports about one CRTC.
#[derive(Debug, Clone, Copy, PartialEq, Eq, Hash)]
pub struct Info {
    handle: Handle,
    x: u32,
    y: u32,
    mode: Option<Mode>,
    fb: Option<super::handle::Handle<FramebufferKind>>,
    gamma_length: u32,
}

/// The raw ids of a sequence of handles.
pub open spec fn raw_ids<K>(handles: Seq<super::handle::Handle<K>>) -> Seq<u32> {
    handles.map_values(|h: super::handle::Handle<K>| h@)
}

/// The raw id of an optional handle, zero standing for none.
pub open spec fn raw_or_zero<K>(h: Option<super::handle::Handle<K>>) -> u32 {
    match h {
        Some(h) => h@,
        None => 0,
    }
}

impl Info {
    pub closed spec fn handle_view(&self) -> Handle {
        self.handle
    }

    pub closed spec fn position_view(&self) -> (u32, u32) {
        (self.x, self.y)
    }

    pub closed spec fn mode_view(&self) -> Option<Mode> {
        self.mode
    }

    pub closed spec fn framebuffer_view(&self) -> Option<super::handle::Handle<FramebufferKind>> {
        self.fb
    }

    pub closed spec fn gamma_length_view(&self) -> u32 {
        self.gamma_length
    }

    /// Builds the CRTC's description from a driver's reply: it has a mode
    /// exactly when the reply marks its mode valid.
    pub fn from_reply(handle: Handle, reply: &CrtcPayload) -> (r: Info)
        ensures
            r.handle_view() == handle,
            r.position_view() == (reply.x, reply.y),
            r.mode_view() is None <==> reply.mode_valid == 0,
            r.mode_view() matches Some(m) ==> m@ == reply.mode,
            r.framebuffer_view() == super::handle::Handle::<FramebufferKind>::spec_from_raw(
                reply.fb_id,
            ),
            r.gamma_length_view() == reply.gamma_size,
    {
        let mode = if reply.mode_valid == 0 {
            None
        } else {
            Some(Mode::from_info(reply.mode))
        };
        Info {
            handle,
            x: reply.x,
            y: reply.y,
            mode,
            fb: super::handle::Handle::from_raw(reply.fb_id),
            gamma_length: reply.gamma_size,
        }
    }

    /// The CRTC's handle.
    pub fn handle(&self) -> (r: Handle)
        ensures
            r == self.handle_view(),
    {
        self.handle
    }

    /// Where the CRTC's scanout starts within its framebuffer.
    pub fn position(&self) -> (r: (u32, u32))
        ensures
            r == self.position_view(),
    {
        (self.x, self.y)
    }

    /// The active mode, if the CRTC is enabled.
    pub fn mode(&self) -> (r: Option<Mode>)
        ensures
            r == self.mode_view(),
    {
        self.mode
    }

    /// The framebuffer being scanned out, if any.
    pub fn framebuffer(&self) -> (r: Option<super::handle::Handle<FramebufferKind>>)
        ensures
            r == self.framebuffer_view(),
    {
        self.fb
    }

    /// Entries in the CRTC's gamma table.
    pub fn gamma_length(&self) -> (r: u32)
        ensures
            r == self.gamma_length_view(),
    {
        self.gamma_length
    }
}

/// The "set CRTC" request: scan out `framebuffer` from `pos` on CRTC
/// `handle` in `mode`, driving `conns`.
///
/// The mode is marked valid exactly when one is given; no other check is
/// made here, since which combinations are legal is the driver's to decide.
pub fn set_request(
    handle: Handle,
    framebuffer: Option<super::handle::Handle<FramebufferKind>>,
    pos: (u32, u32),
    conns: &[super::handle::Handle<ConnectorKind>],
    mode: Option<Mode>,
) -> (r: CrtcPayload)
    requires
        conns@.len() <= u32::MAX,
    ensures
        r.crtc_id == handle@,
        r.fb_id == raw_or_zero(framebuffer),
        (r.x, r.y) == pos,
        r.set_connectors@ == raw_ids(conns@),
        r.count_connectors == conns@.len(),
        r.mode_valid == (if mode is Some { 1u32 } else { 0u32 }),
        mode matches Some(m) ==> r.mode == m@,
        mode is None ==> r.mode.is_zeroed(),
        r.gamma_size == 0,
{
    let mut ids: Vec<u32> = Vec::new();
    let mut i: usize = 0;
    while i < conns.len()
        invariant
            i <= conns@.len(),
            ids@ == raw_ids(conns@.take(i as int)),
        decreases conns@.len() - i,
    {
        let id = conns[i].into_raw();
        ids.push(id);
        assert(ids@ =~= raw_ids(conns@.take(i + 1)));
        i = i + 1;
    }
    assert(conns@.take(conns@.len() as int) =~= conns@);
    let (mode_valid, info) = match mode {
        Some(m) => (1u32, m.info()),
        None => (0u32, ModeInfo::zeroed()),
    };
    let fb_id = match framebuffer {
        Some(fb) => fb.into_raw(),
        None => 0,
    };
    CrtcPayload {
        count_connectors: conns.len() as u32,
        set_connectors: ids,
        crtc_id: handle.into_raw(),
        fb_id,
        x: pos.0,
        y: pos.1,
        gamma_size: 0,
        mode_valid,
        mode: info,
    }
}

} // verus!
