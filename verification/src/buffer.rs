//! The request and reply storage for one probe.
//!
//! A buffer carries the caller's request payload and a raw reply area
//! that the probe primitive fills on completion.  The reply area is
//! pre-sized to hold the worst-case reply header of either address
//! family, protocol overhead, and an echo of the request payload.  Once
//! the reply has been parsed by the collaborator, the buffer records
//! which family answered, the responder's address and the echoed payload
//! length, and can hand the echoed payload back to the caller.

use vstd::prelude::*;
use vstd::slice::slice_subrange;

use crate::addr::{Ip4Addr, Ip6Addr, IpAddress};

verus! {

/// Size in bytes of the reply header that precedes the echoed payload
/// for an IPv4 reply.
pub const ECHO_REPLY4_SIZE: usize = 40;

/// Size in bytes of the reply header that precedes the echoed payload
/// for an IPv6 reply.
pub const ECHO_REPLY6_SIZE: usize = 36;

/// Extra room the reply area keeps beyond the header and the echoed
/// payload: a protocol error report plus a completion status block.
pub const REPLY_OVERHEAD: usize = 24;

/// The fixed part of the reply area: the larger reply header plus the
/// overhead room.
pub const REPLY_BASE_SIZE: usize = 64;

/// The reply area is sized in aligned chunks of this many bytes.
pub const REPLY_CHUNK_SIZE: usize = 8;

/// Largest request payload length a probe can carry.
pub const MAX_REQUEST_LEN: usize = 0xFFFF;

/// What the reply area of a buffer currently holds.
#[derive(Copy, Clone, Debug, PartialEq, Eq, Structural)]
pub enum ReplyState {
    /// No reply has been recorded.
    Empty,
    /// An IPv4 reply has been recorded.
    Filled4 {
        /// Length in bytes of the echoed payload.
        data_len: usize,
        /// The address the reply came from.
        addr: Ip4Addr,
    },
    /// An IPv6 reply has been recorded.
    Filled6 {
        /// Length in bytes of the echoed payload.
        data_len: usize,
        /// The address the reply came from.
        addr: Ip6Addr,
    },
}

/// A buffer for request and reply data.
#[derive(Clone, Debug)]
pub struct Buffer {
    /// The request payload to send.
    pub request_data: Vec<u8>,
    reply_area: Vec<u8>,
    state: ReplyState,
}

/// The number of bytes the reply area holds for a request payload of
/// the given length: the fixed part plus the payload length, rounded up
/// to whole chunks.
pub open spec fn spec_reply_size(request_len: int) -> int {
    let size = REPLY_BASE_SIZE + request_len;
    (size / REPLY_CHUNK_SIZE as int + if size % REPLY_CHUNK_SIZE as int == 0 {
        0int
    } else {
        1int
    }) * REPLY_CHUNK_SIZE as int
}

/// The payload found at the given offset of a reply area, or nothing
/// when the recorded length is zero or runs past the area's end.
pub open spec fn spec_extract(area: Seq<u8>, offset: int, len: int) -> Seq<u8> {
    if len == 0 || offset + len > area.len() {
        Seq::empty()
    } else {
        area.subrange(offset, offset + len)
    }
}

/// The echoed payload a buffer hands back: nothing before a reply is
/// recorded, otherwise the slice after the recorded family's header.
pub open spec fn spec_reply_data(b: Buffer) -> Seq<u8> {
    match b.reply_state() {
        ReplyState::Empty => Seq::empty(),
        ReplyState::Filled4 { data_len, .. } => spec_extract(
            b.reply_area_view(),
            ECHO_REPLY4_SIZE as int,
            data_len as int,
        ),
        ReplyState::Filled6 { data_len, .. } => spec_extract(
            b.reply_area_view(),
            ECHO_REPLY6_SIZE as int,
            data_len as int,
        ),
    }
}

/// The responding IPv4 address a buffer reports.
pub open spec fn spec_responding_ipv4(b: Buffer) -> Option<Ip4Addr> {
    match b.reply_state() {
        ReplyState::Filled4 { addr, .. } => Some(addr),
        _ => None,
    }
}

/// The responding IPv6 address a buffer reports.
pub open spec fn spec_responding_ipv6(b: Buffer) -> Option<Ip6Addr> {
    match b.reply_state() {
        ReplyState::Filled6 { addr, .. } => Some(addr),
        _ => None,
    }
}

impl Buffer {
    /// The bytes of the request payload.
    pub closed spec fn request_view(self) -> Seq<u8> {
        self.request_data@
    }

    /// The bytes of the reply area.
    pub closed spec fn reply_area_view(self) -> Seq<u8> {
        self.reply_area@
    }

    /// What the reply area currently holds.
    pub closed spec fn reply_state(self) -> ReplyState {
        self.state
    }

    /// Creates a new, empty buffer with no request data.
    pub fn new() -> (r: Buffer)
        ensures
            r.request_view() == Seq::<u8>::empty(),
            r.reply_area_view() == Seq::<u8>::empty(),
            r.reply_state() == ReplyState::Empty,
    {
        Buffer { request_data: Vec::new(), reply_area: Vec::new(), state: ReplyState::Empty }
    }

    /// Creates a new buffer with the provided request data.
    pub fn with_data(request_data: Vec<u8>) -> (r: Buffer)
        ensures
            r.request_view() == request_data@,
            r.reply_area_view() == Seq::<u8>::empty(),
            r.reply_state() == ReplyState::Empty,
    {
        Buffer { request_data, reply_area: Vec::new(), state: ReplyState::Empty }
    }

    /// Clears any recorded reply and sizes the reply area for the
    /// current request payload, zero-filled.
    pub fn init_for_send(&mut self)
        requires
            old(self).request_view().len() <= MAX_REQUEST_LEN,
        ensures
            final(self).request_view() == old(self).request_view(),
            final(self).reply_state() == ReplyState::Empty,
            final(self).reply_area_view().len() == spec_reply_size(
                old(self).request_view().len() as int,
            ),
            forall|i: int|
                0 <= i < final(self).reply_area_view().len() ==> final(self).reply_area_view()[i]
                    == 0u8,
    {
        let size: usize = REPLY_BASE_SIZE + self.request_data.len();
        let chunks: usize = size / REPLY_CHUNK_SIZE + if size % REPLY_CHUNK_SIZE == 0 {
            0
        } else {
            1
        };
        let n: usize = chunks * REPLY_CHUNK_SIZE;
        let mut area: Vec<u8> = Vec::new();
        while area.len() < n
            invariant
                area@.len() <= n,
                forall|i: int| 0 <= i < area@.len() ==> area@[i] == 0u8,
            decreases n - area@.len(),
        {
            area.push(0u8);
        }
        self.reply_area = area;
        self.state = ReplyState::Empty;
    }

    /// Length of the request payload, as the probe primitive takes it.
    pub fn request_data_len(&self) -> (r: u16)
        requires
            self.request_view().len() <= MAX_REQUEST_LEN,
        ensures
            r as int == self.request_view().len(),
    {
        self.request_data.len() as u16
    }

    /// Length of the reply area, as the probe primitive takes it.
    pub fn reply_data_len(&self) -> (r: u32)
        requires
            self.reply_area_view().len() <= u32::MAX,
        ensures
            r as int == self.reply_area_view().len(),
    {
        self.reply_area.len() as u32
    }

    /// Replaces the reply area with the bytes the probe primitive wrote,
    /// which must be the whole area.
    pub fn set_reply_area(&mut self, area: Vec<u8>)
        requires
            area@.len() == old(self).reply_area_view().len(),
        ensures
            final(self).reply_area_view() == area@,
            final(self).request_view() == old(self).request_view(),
            final(self).reply_state() == old(self).reply_state(),
    {
        self.reply_area = area;
    }

    /// Records that an IPv4 reply with the given echoed payload length
    /// arrived from the given address.
    pub fn set_filled4(&mut self, data_len: u16, addr: Ip4Addr)
        ensures
            final(self).reply_state() == (ReplyState::Filled4 {
                data_len: data_len as usize,
                addr,
            }),
            final(self).request_view() == old(self).request_view(),
            final(self).reply_area_view() == old(self).reply_area_view(),
    {
        self.state = ReplyState::Filled4 { data_len: data_len as usize, addr };
    }

    /// Records that an IPv6 reply arrived from the given address.  An
    /// IPv6 echo reply must carry the same payload as the request, so
    /// the recorded length is the request payload's length.
    pub fn set_filled6(&mut self, addr: Ip6Addr)
        ensures
            final(self).reply_state() == (ReplyState::Filled6 {
                data_len: old(self).request_view().len() as usize,
                addr,
            }),
            final(self).request_view() == old(self).request_view(),
            final(self).reply_area_view() == old(self).reply_area_view(),
    {
        let data_len: usize = self.request_data.len();
        self.state = ReplyState::Filled6 { data_len, addr };
    }

    /// The echoed payload from the last probe this buffer was used in.
    /// Empty when no reply was recorded, when the reply carried no
    /// payload, or when the recorded length runs past the reply area.
    pub fn reply_data(&self) -> (r: &[u8])
        ensures
            r@ == spec_reply_data(*self),
    {
        let area_len: usize = self.reply_area.len();
        let (len, offset): (usize, usize) = match self.state {
            ReplyState::Empty => (0, 0),
            ReplyState::Filled4 { data_len, .. } => (data_len, ECHO_REPLY4_SIZE),
            ReplyState::Filled6 { data_len, .. } => (data_len, ECHO_REPLY6_SIZE),
        };
        if len == 0 || len > area_len || offset > area_len - len {
            slice_subrange(self.reply_area.as_slice(), 0, 0)
        } else {
            slice_subrange(self.reply_area.as_slice(), offset, offset + len)
        }
    }

    /// The responding IPv4 address from the last probe this buffer was
    /// involved in, when the recorded reply is an IPv4 reply.
    pub fn responding_ipv4(&self) -> (r: Option<Ip4Addr>)
        ensures
            r == spec_responding_ipv4(*self),
    {
        match self.state {
            ReplyState::Filled4 { addr, .. } => Some(addr),
            _ => None,
        }
    }

    /// The responding IPv6 address from the last probe this buffer was
    /// involved in, when the recorded reply is an IPv6 reply.
    pub fn responding_ipv6(&self) -> (r: Option<Ip6Addr>)
        ensures
            r == spec_responding_ipv6(*self),
    {
        match self.state {
            ReplyState::Filled6 { addr, .. } => Some(addr),
            _ => None,
        }
    }

    /// The responding address of either family, when a reply was
    /// recorded.
    pub fn responding_ip(&self) -> (r: Option<IpAddress>)
        ensures
            self.reply_state() is Filled4 ==> r == Some(
                IpAddress::V4(spec_responding_ipv4(*self)->Some_0),
            ),
            self.reply_state() is Filled6 ==> r == Some(
                IpAddress::V6(spec_responding_ipv6(*self)->Some_0),
            ),
            self.reply_state() is Empty ==> r is None,
    {
        match self.state {
            ReplyState::Filled4 { addr, .. } => Some(IpAddress::V4(addr)),
            ReplyState::Filled6 { addr, .. } => Some(IpAddress::V6(addr)),
            ReplyState::Empty => None,
        }
    }
}

impl Default for Buffer {
    /// Creates a new, empty buffer with no request data.
    fn default() -> (r: Buffer)
        ensures
            r.request_view() == Seq::<u8>::empty(),
            r.reply_area_view() == Seq::<u8>::empty(),
            r.reply_state() == ReplyState::Empty,
    {
        Buffer::new()
    }
}

/// Round-trip identity for an IPv4 echo: when the reply area holds the
/// request payload right after the reply header and the recorded length
/// is the payload's length, the buffer hands back exactly that payload.
pub proof fn lemma_round_trip_identity_v4(b: Buffer, payload: Seq<u8>, addr: Ip4Addr)
    requires
        payload.len() <= MAX_REQUEST_LEN,
        b.reply_state() == (ReplyState::Filled4 { data_len: payload.len() as usize, addr }),
        b.reply_area_view().len() >= ECHO_REPLY4_SIZE + payload.len(),
        b.reply_area_view().subrange(
            ECHO_REPLY4_SIZE as int,
            ECHO_REPLY4_SIZE + payload.len(),
        ) == payload,
    ensures
        spec_reply_data(b) == payload,
{
    if payload.len() == 0 {
        assert(spec_reply_data(b) =~= payload);
    }
}

/// Round-trip identity for an IPv6 echo, stated the same way over the
/// IPv6 reply header.
pub proof fn lemma_round_trip_identity_v6(b: Buffer, payload: Seq<u8>, addr: Ip6Addr)
    requires
        payload.len() <= MAX_REQUEST_LEN,
        b.reply_state() == (ReplyState::Filled6 { data_len: payload.len() as usize, addr }),
        b.reply_area_view().len() >= ECHO_REPLY6_SIZE + payload.len(),
        b.reply_area_view().subrange(
            ECHO_REPLY6_SIZE as int,
            ECHO_REPLY6_SIZE + payload.len(),
        ) == payload,
    ensures
        spec_reply_data(b) == payload,
{
    if payload.len() == 0 {
        assert(spec_reply_data(b) =~= payload);
    }
}

} // verus!
