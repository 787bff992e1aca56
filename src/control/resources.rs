//! The set of objects a device controls, as one resource query reports it.
use crate::error::{Error, EIO};
use super::handle::{ConnectorKind, CrtcKind, EncoderKind, FramebufferKind, Handle};
use super::payload::{CardResources, RESOURCE_CAPACITY};
use vstd::prelude::*;

verus! {

/// The handles for the nonzero ids of `ids`, in order; zero ids are skipped.
pub open spec fn handles_of<K>(ids: Seq<u32>) -> Seq<Handle<K>>
    decreases ids.len(),
{
    if ids.len() == 0 {
        Seq::empty()
    } else {
        let prev = handles_of::<K>(ids.drop_last());
        match Handle::<K>::spec_from_raw(ids.last()) {
            Some(h) => prev.push(h),
            None => prev,
        }
    }
}

/// Whether the first `count` of `ids` are all nonzero.
pub open spec fn ids_nonzero(ids: Seq<u32>, count: u32) -> bool {
    forall|i: int| 0 <= i < count ==> ids[i] != 0
}

/// The handles for the first `count` of `ids`, in order; `None` when one
/// of them is zero, which names no object.
pub fn handles_from_ids<K>(ids: &[u32], count: u32) -> (r: Option<Vec<Handle<K>>>)
    requires
        count <= ids@.len(),
    ensures
        r is None <==> !ids_nonzero(ids@, count),
        r matches Some(v) ==> {
            &&& v@ == handles_of::<K>(ids@.take(count as int))
            &&& v@.len() == count
        },
{
    let mut out: Vec<Handle<K>> = Vec::new();
    let mut i: u32 = 0;
    while i < count
        invariant
            i <= count,
            count <= ids@.len(),
            ids_nonzero(ids@, i),
            out@ == handles_of::<K>(ids@.take(i as int)),
            out@.len() == i,
        decreases count - i,
    {
        assert(ids@.take(i + 1).drop_last() == ids@.take(i as int));
        match Handle::<K>::from_raw(ids[i as usize]) {
            Some(h) => out.push(h),
            None => {
                return None;
            },
        }
        i = i + 1;
    }
    Some(out)
}

/// Whether an id count fits the capacity that the request offered.
pub open spec fn count_fits(count: u32) -> bool {
    count <= RESOURCE_CAPACITY
}

/// Whether every reported id of every kind is nonzero.
pub open spec fn resource_ids_nonzero(reply: CardResources) -> bool {
    &&& ids_nonzero(reply.fb_ids@, reply.count_fbs)
    &&& ids_nonzero(reply.crtc_ids@, reply.count_crtcs)
    &&& ids_nonzero(reply.connector_ids@, reply.count_connectors)
    &&& ids_nonzero(reply.encoder_ids@, reply.count_encoders)
}

/// Whether the driver reported no more ids of any kind than fit.
pub open spec fn resources_fit(reply: CardResources) -> bool {
    &&& count_fits(reply.count_fbs)
    &&& count_fits(reply.count_crtcs)
    &&& count_fits(reply.count_connectors)
    &&& count_fits(reply.count_encoders)
}

/// A filter that picks, from a resource set's CRTCs, those an encoder can
/// drive: bit `i` stands for the `i`-th CRTC.
#[derive(Debug, Clone, Copy, PartialEq, Eq, Structural)]
pub struct CrtcListFilter(pub u32);

/// Whether bit `i` of `mask` is set.
pub open spec fn mask_selects(mask: u32, i: int) -> bool {
    0 <= i < 32 && (mask >> (i as u32)) & 1u32 == 1u32
}

/// The entries of `s` whose index bit is set in `mask`, in order.
pub open spec fn select_by_mask<T>(s: Seq<T>, mask: u32) -> Seq<T>
    decreases s.len(),
{
    if s.len() == 0 {
        Seq::empty()
    } else {
        let prev = select_by_mask(s.drop_last(), mask);
        if mask_selects(mask, s.len() - 1) {
            prev.push(s.last())
        } else {
            prev
        }
    }
}

/// The handles that a device controls, planes excepted, with the range of
/// framebuffer sizes it supports.
///
/// A snapshot: it goes stale when displays are plugged or unplugged.
#[derive(Debug, Clone, PartialEq, Eq, Hash)]
pub struct ResourceHandles {
    fbs: Vec<Handle<FramebufferKind>>,
    crtcs: Vec<Handle<CrtcKind>>,
    connectors: Vec<Handle<ConnectorKind>>,
    encoders: Vec<Handle<EncoderKind>>,
    min_width: u32,
    max_width: u32,
    min_height: u32,
    max_height: u32,
}

impl ResourceHandles {
    /// The framebuffer handles.
    pub closed spec fn fbs_view(&self) -> Seq<Handle<FramebufferKind>> {
        self.fbs@
    }

    /// The CRTC handles, in the kernel's order.
    pub closed spec fn crtcs_view(&self) -> Seq<Handle<CrtcKind>> {
        self.crtcs@
    }

    /// The connector handles.
    pub closed spec fn connectors_view(&self) -> Seq<Handle<ConnectorKind>> {
        self.connectors@
    }

    /// The encoder handles.
    pub closed spec fn encoders_view(&self) -> Seq<Handle<EncoderKind>> {
        self.encoders@
    }

    /// Minimum and maximum framebuffer width.
    pub closed spec fn width_view(&self) -> (u32, u32) {
        (self.min_width, self.max_width)
    }

    /// Minimum and maximum framebuffer height.
    pub closed spec fn height_view(&self) -> (u32, u32) {
        (self.min_height, self.max_height)
    }

    /// No list holds more handles than a query can return.
    pub open spec fn wf(&self) -> bool {
        &&& self.fbs_view().len() <= RESOURCE_CAPACITY
        &&& self.crtcs_view().len() <= RESOURCE_CAPACITY
        &&& self.connectors_view().len() <= RESOURCE_CAPACITY
        &&& self.encoders_view().len() <= RESOURCE_CAPACITY
    }

    /// Builds the set from a driver's reply to a resource query.
    ///
    /// A count beyond the offered capacity means the driver left ids out:
    /// that is `Overflow`, never a shortened set. A zero id among the
    /// reported ones names no object: the reply is malformed, an I/O error.
    /// Otherwise each list holds exactly the first `count` ids, in order, so
    /// that list positions match the bits of an encoder's CRTC mask.
    pub fn from_reply(reply: &CardResources) -> (r: Result<ResourceHandles, Error>)
        ensures
            (resources_fit(*reply) && resource_ids_nonzero(*reply)) <==> r is Ok,
            !resources_fit(*reply) ==> r == Err::<ResourceHandles, Error>(Error::Overflow),
            resources_fit(*reply) && !resource_ids_nonzero(*reply) ==> r == Err::<
                ResourceHandles,
                Error,
            >(Error::Io(EIO)),
            r matches Ok(s) ==> {
                &&& s.wf()
                &&& s.fbs_view().len() == reply.count_fbs
                &&& s.crtcs_view().len() == reply.count_crtcs
                &&& s.connectors_view().len() == reply.count_connectors
                &&& s.encoders_view().len() == reply.count_encoders
                &&& s.fbs_view() == handles_of::<FramebufferKind>(
                    reply.fb_ids@.take(reply.count_fbs as int),
                )
                &&& s.crtcs_view() == handles_of::<CrtcKind>(
                    reply.crtc_ids@.take(reply.count_crtcs as int),
                )
                &&& s.connectors_view() == handles_of::<ConnectorKind>(
                    reply.connector_ids@.take(reply.count_connectors as int),
                )
                &&& s.encoders_view() == handles_of::<EncoderKind>(
                    reply.encoder_ids@.take(reply.count_encoders as int),
                )
                &&& s.width_view() == (reply.min_width, reply.max_width)
                &&& s.height_view() == (reply.min_height, reply.max_height)
            },
    {
        if reply.count_fbs as usize > RESOURCE_CAPACITY || reply.count_crtcs as usize
            > RESOURCE_CAPACITY || reply.count_connectors as usize > RESOURCE_CAPACITY
            || reply.count_encoders as usize > RESOURCE_CAPACITY {
            return Err(Error::Overflow);
        }
        let fbs = handles_from_ids(reply.fb_ids.as_slice(), reply.count_fbs);
        let crtcs = handles_from_ids(reply.crtc_ids.as_slice(), reply.count_crtcs);
        let connectors = handles_from_ids(reply.connector_ids.as_slice(), reply.count_connectors);
        let encoders = handles_from_ids(reply.encoder_ids.as_slice(), reply.count_encoders);
        match (fbs, crtcs, connectors, encoders) {
            (Some(fbs), Some(crtcs), Some(connectors), Some(encoders)) => Ok(
                ResourceHandles {
                    fbs,
                    crtcs,
                    connectors,
                    encoders,
                    min_width: reply.min_width,
                    max_width: reply.max_width,
                    min_height: reply.min_height,
                    max_height: reply.max_height,
                },
            ),
            _ => Err(Error::Io(EIO)),
        }
    }

    /// The connector handles.
    pub fn connectors(&self) -> (r: &[Handle<ConnectorKind>])
        ensures
            r@ == self.connectors_view(),
    {
        self.connectors.as_slice()
    }

    /// The encoder handles.
    pub fn encoders(&self) -> (r: &[Handle<EncoderKind>])
        ensures
            r@ == self.encoders_view(),
    {
        self.encoders.as_slice()
    }

    /// The CRTC handles.
    pub fn crtcs(&self) -> (r: &[Handle<CrtcKind>])
        ensures
            r@ == self.crtcs_view(),
    {
        self.crtcs.as_slice()
    }

    /// The framebuffer handles.
    pub fn framebuffers(&self) -> (r: &[Handle<FramebufferKind>])
        ensures
            r@ == self.fbs_view(),
    {
        self.fbs.as_slice()
    }

    /// Minimum and maximum framebuffer width.
    pub fn width(&self) -> (r: (u32, u32))
        ensures
            r == self.width_view(),
    {
        (self.min_width, self.max_width)
    }

    /// Minimum and maximum framebuffer height.
    pub fn height(&self) -> (r: (u32, u32))
        ensures
            r == self.height_view(),
    {
        (self.min_height, self.max_height)
    }

    /// The CRTCs that `filter` allows, in the order of the resource list.
    pub fn filter_crtcs(&self, filter: CrtcListFilter) -> (r: Vec<Handle<CrtcKind>>)
        requires
            self.wf(),
        ensures
            r@ == select_by_mask(self.crtcs_view(), filter.0),
    {
        let mut out: Vec<Handle<CrtcKind>> = Vec::new();
        let n = self.crtcs.len();
        let mut i: usize = 0;
        while i < n
            invariant
                i <= n,
                n == self.crtcs@.len(),
                n <= RESOURCE_CAPACITY,
                out@ == select_by_mask(self.crtcs@.take(i as int), filter.0),
            decreases n - i,
        {
            let bit: u32 = i as u32;
            let mask: u32 = filter.0;
            assert(((1u32 << bit) & mask != 0u32) == ((mask >> bit) & 1u32 == 1u32)) by (bit_vector)
                requires
                    bit < 32u32,
            ;
            assert(self.crtcs@.take(i + 1).drop_last() == self.crtcs@.take(i as int));
            if (1u32 << bit) & mask != 0 {
                out.push(self.crtcs[i]);
            }
            i = i + 1;
        }
        assert(self.crtcs@.take(n as int) == self.crtcs@);
        out
    }
}

} // verus!
