//! Connectors: the physical display outputs.
use crate::error::{Error, EIO};
use super::handle::{ConnectorKind, EncoderKind};
use super::mode::{Mode, ModeInfo};
use super::payload::{ConnectorPayload, CONNECTOR_ENCODER_CAPACITY};
use super::resources::{handles_from_ids, handles_of, ids_nonzero};
use vstd::prelude::*;

verus! {

/// A handle naming a connector.
pub type Handle = super::handle::Handle<ConnectorKind>;

/// Whether a display is attached to a connector.
#[derive(Debug, Clone, Copy, PartialEq, Eq, Hash, Structural)]
pub enum State {
    Connected,
    Disconnected,
    Unknown,
}

impl State {
    /// The state that the kernel's connection code stands for.
    pub open spec fn spec_from_raw(raw: u32) -> State {
        if raw == 1 {
            State::Connected
        } else if raw == 2 {
            State::Disconnected
        } else {
            State::Unknown
        }
    }

    /// Reads the kernel's connection code; codes it does not define are `Unknown`.
    pub fn from_raw(raw: u32) -> (r: State)
        ensures
            r == Self::spec_from_raw(raw),
    {
        if raw == 1 {
            State::Connected
        } else if raw == 2 {
            State::Disconnected
        } else {
            State::Unknown
        }
    }
}

/// The kind of physical interface of a connector.
#[derive(Debug, Clone, Copy, PartialEq, Eq, Hash, Structural)]
pub enum Interface {
    Unknown,
    VGA,
    DVII,
    DVID,
    DVIA,
    Composite,
    SVideo,
    LVDS,
    Component,
    NinePinDIN,
    DisplayPort,
    HDMIA,
    HDMIB,
    TV,
    EmbeddedDisplayPort,
    Virtual,
    DSI,
    DPI,
    Writeback,
    SPI,
    USB,
}

/// The largest connector-type code that names an interface.
pub const LAST_INTERFACE_CODE: u32 = 20;

impl Interface {
    /// The kernel's connector-type code for this interface.
    pub open spec fn code(self) -> u32 {
        match self {
            Interface::Unknown => 0,
            Interface::VGA => 1,
            Interface::DVII => 2,
            Interface::DVID => 3,
            Interface::DVIA => 4,
            Interface::Composite => 5,
            Interface::SVideo => 6,
            Interface::LVDS => 7,
            Interface::Component => 8,
            Interface::NinePinDIN => 9,
            Interface::DisplayPort => 10,
            Interface::HDMIA => 11,
            Interface::HDMIB => 12,
            Interface::TV => 13,
            Interface::EmbeddedDisplayPort => 14,
            Interface::Virtual => 15,
            Interface::DSI => 16,
            Interface::DPI => 17,
            Interface::Writeback => 18,
            Interface::SPI => 19,
            Interface::USB => 20,
        }
    }

    /// Reads the kernel's connector-type code; codes it does not define are `Unknown`.
    pub fn from_raw(raw: u32) -> (r: Interface)
        ensures
            raw <= LAST_INTERFACE_CODE ==> r.code() == raw,
            raw > LAST_INTERFACE_CODE ==> r == Interface::Unknown,
    {
        match raw {
            1 => Interface::VGA,
            2 => Interface::DVII,
            3 => Interface::DVID,
            4 => Interface::DVIA,
            5 => Interface::Composite,
            6 => Interface::SVideo,
            7 => Interface::LVDS,
            8 => Interface::Component,
            9 => Interface::NinePinDIN,
            10 => Interface::DisplayPort,
            11 => Interface::HDMIA,
            12 => Interface::HDMIB,
            13 => Interface::TV,
            14 => Interface::EmbeddedDisplayPort,
            15 => Interface::Virtual,
            16 => Interface::DSI,
            17 => Interface::DPI,
            18 => Interface::Writeback,
            19 => Interface::SPI,
            20 => Interface::USB,
            _ => Interface::Unknown,
        }
    }
}

/// The kernel records behind a sequence of modes.
pub open spec fn mode_infos(modes: Seq<Mode>) -> Seq<ModeInfo> {
    modes.map_values(|m: Mode| m@)
}

/// Whether a connector reply reports more modes or encoders than the
/// request offered slots for: `offered` mode slots, and every encoder slot.
pub open spec fn connector_overflows(offered: u32, reply: ConnectorPayload) -> bool {
    ||| reply.count_modes > offered
    ||| reply.count_modes > reply.modes@.len()
    ||| reply.count_encoders > CONNECTOR_ENCODER_CAPACITY
}

/// What a connector query reports about one connector.
#[derive(Debug, Clone, PartialEq, Eq, Hash)]
pub struct Info {
    handle: Handle,
    interface: Interface,
    interface_id: u32,
    connection: State,
    mm_width: u32,
    mm_height: u32,
    modes: Vec<Mode>,
    encoders: Vec<super::handle::Handle<EncoderKind>>,
    curr_enc: Option<super::handle::Handle<EncoderKind>>,
}

impl Info {
    pub closed spec fn handle_view(&self) -> Handle {
        self.handle
    }

    pub closed spec fn interface_view(&self) -> Interface {
        self.interface
    }

    pub closed spec fn interface_id_view(&self) -> u32 {
        self.interface_id
    }

    pub closed spec fn state_view(&self) -> State {
        self.connection
    }

    /// Physical width and height in millimetres, zero when not known.
    pub closed spec fn mm_view(&self) -> (u32, u32) {
        (self.mm_width, self.mm_height)
    }

    pub closed spec fn modes_view(&self) -> Seq<Mode> {
        self.modes@
    }

    pub closed spec fn encoders_view(&self) -> Seq<super::handle::Handle<EncoderKind>> {
        self.encoders@
    }

    pub closed spec fn current_encoder_view(&self) -> Option<super::handle::Handle<EncoderKind>> {
        self.curr_enc
    }

    /// Builds the connector's description from the second reply of the
    /// two-phase query, which offered `offered` mode slots and every encoder
    /// slot.
    ///
    /// That reply's own counts decide: fewer modes than slots shrink the list,
    /// and more modes or encoders than slots are `Overflow`. A zero id among
    /// the reported encoders names no object: the reply is malformed, an I/O
    /// error.
    pub fn from_reply(handle: Handle, offered: u32, reply: &ConnectorPayload) -> (r: Result<
        Info,
        Error,
    >)
        ensures
            (!connector_overflows(offered, *reply) && ids_nonzero(
                reply.encoder_ids@,
                reply.count_encoders,
            )) <==> r is Ok,
            connector_overflows(offered, *reply) ==> r == Err::<Info, Error>(Error::Overflow),
            !connector_overflows(offered, *reply) && !ids_nonzero(
                reply.encoder_ids@,
                reply.count_encoders,
            ) ==> r == Err::<Info, Error>(Error::Io(EIO)),
            r matches Ok(info) ==> {
                &&& info.handle_view() == handle
                &&& reply.connector_type <= LAST_INTERFACE_CODE ==> info.interface_view().code()
                    == reply.connector_type
                &&& reply.connector_type > LAST_INTERFACE_CODE ==> info.interface_view()
                    == Interface::Unknown
                &&& info.interface_id_view() == reply.connector_type_id
                &&& info.state_view() == State::spec_from_raw(reply.connection)
                &&& info.mm_view() == (reply.mm_width, reply.mm_height)
                &&& info.modes_view().len() == reply.count_modes
                &&& mode_infos(info.modes_view()) == reply.modes@.take(reply.count_modes as int)
                &&& info.encoders_view().len() == reply.count_encoders
                &&& info.encoders_view() == handles_of::<EncoderKind>(
                    reply.encoder_ids@.take(reply.count_encoders as int),
                )
                &&& info.current_encoder_view() == super::handle::Handle::<
                    EncoderKind,
                >::spec_from_raw(reply.encoder_id)
            },
    {
        if reply.count_modes > offered || reply.count_modes as usize > reply.modes.len()
            || reply.count_encoders as usize > CONNECTOR_ENCODER_CAPACITY {
            return Err(Error::Overflow);
        }
        let encoders = match handles_from_ids(reply.encoder_ids.as_slice(), reply.count_encoders) {
            Some(v) => v,
            None => {
                return Err(Error::Io(EIO));
            },
        };
        let count = reply.count_modes as usize;
        let mut modes: Vec<Mode> = Vec::new();
        let mut i: usize = 0;
        while i < count
            invariant
                i <= count,
                count <= reply.modes@.len(),
                modes@.len() == i,
                forall|j: int| 0 <= j < i ==> (#[trigger] modes@[j])@ == reply.modes@[j],
            decreases count - i,
        {
            let m = Mode::from_info(reply.modes[i]);
            modes.push(m);
            i = i + 1;
        }
        assert(mode_infos(modes@) =~= reply.modes@.take(count as int));
        Ok(
            Info {
                handle,
                interface: Interface::from_raw(reply.connector_type),
                interface_id: reply.connector_type_id,
                connection: State::from_raw(reply.connection),
                mm_width: reply.mm_width,
                mm_height: reply.mm_height,
                modes,
                encoders,
                curr_enc: super::handle::Handle::from_raw(reply.encoder_id),
            },
        )
    }

    /// The connector's handle.
    pub fn handle(&self) -> (r: Handle)
        ensures
            r == self.handle_view(),
    {
        self.handle
    }

    /// The kind of physical interface.
    pub fn interface(&self) -> (r: Interface)
        ensures
            r == self.interface_view(),
    {
        self.interface
    }

    /// The number of this connector among those of its interface kind.
    pub fn interface_id(&self) -> (r: u32)
        ensures
            r == self.interface_id_view(),
    {
        self.interface_id
    }

    /// Whether a display is attached.
    pub fn state(&self) -> (r: State)
        ensures
            r == self.state_view(),
    {
        self.connection
    }

    /// Physical width and height in millimetres, `None` when the kernel reports neither.
    pub fn size(&self) -> (r: Option<(u32, u32)>)
        ensures
            r is None <==> self.mm_view() == (0u32, 0u32),
            r matches Some(s) ==> s == self.mm_view(),
    {
        if self.mm_width == 0 && self.mm_height == 0 {
            None
        } else {
            Some((self.mm_width, self.mm_height))
        }
    }

    /// The modes the connector supports, best first as the kernel orders them.
    pub fn modes(&self) -> (r: &[Mode])
        ensures
            r@ == self.modes_view(),
    {
        self.modes.as_slice()
    }

    /// The encoders that can drive this connector.
    pub fn encoders(&self) -> (r: &[super::handle::Handle<EncoderKind>])
        ensures
            r@ == self.encoders_view(),
    {
        self.encoders.as_slice()
    }

    /// The encoder currently driving this connector, if any.
    pub fn current_encoder(&self) -> (r: Option<super::handle::Handle<EncoderKind>>)
        ensures
            r == self.current_encoder_view(),
    {
        self.curr_enc
    }
}

} // verus!
