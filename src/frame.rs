//! Identifiers and frames of classic CAN, and their wire representation.

use vstd::prelude::*;
use vstd::slice::slice_subrange;

use crate::error::Error;

verus! {

/// Largest raw value of an 11-bit standard identifier.
pub const MAX_STANDARD_ID: u32 = 0x7FF;

/// Largest raw value of a 29-bit extended identifier.
pub const MAX_EXTENDED_ID: u32 = 0x1FFF_FFFF;

/// Most data bytes a classic CAN frame carries.
pub const MAX_DATA_LEN: usize = 8;

/// Bit of the wire message type that marks a remote frame.
pub const MSG_TYPE_RTR: u8 = 0x01;

/// Bit of the wire message type that marks an extended identifier.
pub const MSG_TYPE_EXTENDED: u8 = 0x02;

/// Wire message type of a standard data frame.
pub const MSG_TYPE_STANDARD: u8 = 0x00;

/// A CAN identifier, tagged with its format.
///
/// The raw value is kept as it was given; `valid` says whether it fits the
/// tag's bit width. The constructors only build valid identifiers.
#[derive(Clone, Copy, Debug, PartialEq, Eq, Structural)]
pub enum Id {
    Standard(u32),
    Extended(u32),
}

impl Id {
    /// The raw value fits the width of the tag.
    pub open spec fn valid(self) -> bool {
        match self {
            Id::Standard(raw) => raw <= MAX_STANDARD_ID,
            Id::Extended(raw) => raw <= MAX_EXTENDED_ID,
        }
    }

    pub open spec fn raw(self) -> u32 {
        match self {
            Id::Standard(raw) => raw,
            Id::Extended(raw) => raw,
        }
    }

    /// A standard identifier, or `None` when `raw` does not fit 11 bits.
    pub fn new_standard(raw: u32) -> (r: Option<Id>)
        ensures
            r == (if raw <= MAX_STANDARD_ID { Some(Id::Standard(raw)) } else { None::<Id> }),
    {
        if raw <= MAX_STANDARD_ID {
            Some(Id::Standard(raw))
        } else {
            None
        }
    }

    /// An extended identifier, or `None` when `raw` does not fit 29 bits.
    pub fn new_extended(raw: u32) -> (r: Option<Id>)
        ensures
            r == (if raw <= MAX_EXTENDED_ID { Some(Id::Extended(raw)) } else { None::<Id> }),
    {
        if raw <= MAX_EXTENDED_ID {
            Some(Id::Extended(raw))
        } else {
            None
        }
    }

    /// The raw value of the identifier.
    pub fn id(&self) -> (r: u32)
        ensures
            r == self.raw(),
    {
        match self {
            Id::Standard(raw) => *raw,
            Id::Extended(raw) => *raw,
        }
    }

    pub fn is_extended(&self) -> (r: bool)
        ensures
            r == (*self is Extended),
    {
        match self {
            Id::Standard(_) => false,
            Id::Extended(_) => true,
        }
    }

    pub fn is_standard(&self) -> (r: bool)
        ensures
            r == (*self is Standard),
    {
        !self.is_extended()
    }

    pub fn is_valid(&self) -> (r: bool)
        ensures
            r == self.valid(),
    {
        match self {
            Id::Standard(raw) => *raw <= MAX_STANDARD_ID,
            Id::Extended(raw) => *raw <= MAX_EXTENDED_ID,
        }
    }
}

/// A frame as the adapter driver reads and writes it: the raw identifier,
/// the type bits, the declared length and a fixed buffer of which the first
/// `len` bytes are meaningful.
#[derive(Clone, Copy, Debug)]
pub struct WireMsg {
    pub id: u32,
    pub msg_type: u8,
    pub len: u8,
    pub data: [u8; 8],
}

/// What a frame means: its tagged identifier, whether it is a remote frame,
/// its declared length, and its payload.
pub ghost struct FrameView {
    pub id: Id,
    pub remote: bool,
    pub dlc: nat,
    pub data: Seq<u8>,
}

/// The identifier of a wire message, tagged by its extended bit.
pub open spec fn decode_id(m: WireMsg) -> Id {
    if m.msg_type & MSG_TYPE_EXTENDED != 0 {
        Id::Extended(m.id)
    } else {
        Id::Standard(m.id)
    }
}

/// How many payload bytes a wire message carries: none for a remote frame,
/// else the declared length, capped at the buffer's size.
pub open spec fn payload_len(m: WireMsg) -> nat {
    if m.msg_type & MSG_TYPE_RTR != 0 {
        0
    } else if m.len <= 8 {
        m.len as nat
    } else {
        8
    }
}

/// The meaning of any wire message; every value of the type has one.
pub open spec fn decode(m: WireMsg) -> FrameView {
    FrameView {
        id: decode_id(m),
        remote: m.msg_type & MSG_TYPE_RTR != 0,
        dlc: m.len as nat,
        data: m.data@.subrange(0, payload_len(m) as int),
    }
}

/// `m` is the wire form of the data frame with identifier `id` and payload
/// `data`: unused buffer bytes are zero.
pub open spec fn encodes(m: WireMsg, id: Id, data: Seq<u8>) -> bool {
    &&& m.id == id.raw()
    &&& m.msg_type == (if id is Extended { MSG_TYPE_EXTENDED } else { MSG_TYPE_STANDARD })
    &&& m.len as nat == data.len()
    &&& m.data@.subrange(0, data.len() as int) == data
    &&& forall|i: int| data.len() <= i < 8 ==> m.data@[i] == 0
}

/// The data frame with identifier `id` and payload `data`, as a view.
pub open spec fn data_frame(id: Id, data: Seq<u8>) -> FrameView {
    FrameView { id, remote: false, dlc: data.len(), data }
}

/// Decoding the wire form of a data frame with a valid identifier and at
/// most eight bytes gives back that identifier and those bytes unchanged.
pub proof fn lemma_wire_round_trip(m: WireMsg, id: Id, data: Seq<u8>)
    requires
        id.valid(),
        data.len() <= MAX_DATA_LEN,
        encodes(m, id, data),
    ensures
        decode(m) == data_frame(id, data),
        decode(m).id == id,
        decode(m).data == data,
{
    assert(MSG_TYPE_EXTENDED & MSG_TYPE_EXTENDED != 0) by (bit_vector);
    assert(MSG_TYPE_STANDARD & MSG_TYPE_EXTENDED == 0) by (bit_vector);
    assert(MSG_TYPE_EXTENDED & MSG_TYPE_RTR == 0) by (bit_vector);
    assert(MSG_TYPE_STANDARD & MSG_TYPE_RTR == 0) by (bit_vector);
}

/// A classic CAN frame, held in its wire form.
#[derive(Clone, Copy, Debug)]
pub struct Frame {
    msg: WireMsg,
}

impl View for Frame {
    type V = FrameView;

    open spec fn view(&self) -> FrameView {
        decode(self.wire())
    }
}

impl Frame {
    /// The wire form that this frame holds.
    pub closed spec fn wire(self) -> WireMsg {
        self.msg
    }

    /// A data frame; fails with `InvalidFrame` when the identifier does not
    /// fit its tag or `data` holds more than eight bytes.
    pub fn new(id: Id, data: &[u8]) -> (r: Result<Frame, Error>)
        ensures
            r is Ok <==> (id.valid() && data@.len() <= MAX_DATA_LEN),
            r matches Ok(f) ==> encodes(f.wire(), id, data@) && f@ == data_frame(id, data@),
            r matches Err(e) ==> e is InvalidFrame,
    {
        if data.len() > MAX_DATA_LEN || !id.is_valid() {
            return Err(Error::InvalidFrame);
        }
        let mut buf: [u8; 8] = [0u8; 8];
        let mut i: usize = 0;
        while i < data.len()
            invariant
                i <= data@.len() <= 8,
                forall|j: int| 0 <= j < i ==> buf@[j] == data@[j],
                forall|j: int| i <= j < 8 ==> buf@[j] == 0,
            decreases data@.len() - i,
        {
            buf[i] = data[i];
            i += 1;
        }
        let msg_type = if id.is_extended() { MSG_TYPE_EXTENDED } else { MSG_TYPE_STANDARD };
        let msg = WireMsg { id: id.id(), msg_type, len: data.len() as u8, data: buf };
        assert(msg.data@.subrange(0, data@.len() as int) =~= data@);
        proof {
            lemma_wire_round_trip(msg, id, data@);
        }
        Ok(Frame { msg })
    }

    /// A data frame with a standard identifier.
    pub fn new_standard(id: u32, data: &[u8]) -> (r: Result<Frame, Error>)
        ensures
            r is Ok <==> (id <= MAX_STANDARD_ID && data@.len() <= MAX_DATA_LEN),
            r matches Ok(f) ==> encodes(f.wire(), Id::Standard(id), data@) && f@ == data_frame(
                Id::Standard(id),
                data@,
            ),
            r matches Err(e) ==> e is InvalidFrame,
    {
        Frame::new(Id::Standard(id), data)
    }

    /// A data frame with an extended identifier.
    pub fn new_extended(id: u32, data: &[u8]) -> (r: Result<Frame, Error>)
        ensures
            r is Ok <==> (id <= MAX_EXTENDED_ID && data@.len() <= MAX_DATA_LEN),
            r matches Ok(f) ==> encodes(f.wire(), Id::Extended(id), data@) && f@ == data_frame(
                Id::Extended(id),
                data@,
            ),
            r matches Err(e) ==> e is InvalidFrame,
    {
        Frame::new(Id::Extended(id), data)
    }

    /// The remote form of this frame: same identifier, remote bit set, no
    /// payload, and declared length `dlc`. Fails with `InvalidFrame` when
    /// `dlc` is 8 or more.
    pub fn mark_remote(&self, dlc: usize) -> (r: Result<Frame, Error>)
        ensures
            r is Ok <==> dlc < MAX_DATA_LEN,
            r matches Ok(f) ==> f@ == (FrameView {
                id: self@.id,
                remote: true,
                dlc: dlc as nat,
                data: Seq::empty(),
            }),
            r matches Ok(f) ==> f.wire().data@ == seq![0u8; 8] && f.wire().id == self.wire().id,
            r matches Err(e) ==> e is InvalidFrame,
    {
        if dlc >= MAX_DATA_LEN {
            return Err(Error::InvalidFrame);
        }
        let t = self.msg.msg_type;
        let msg_type = t | MSG_TYPE_RTR;
        assert(msg_type & MSG_TYPE_RTR != 0) by (bit_vector)
            requires
                msg_type == t | MSG_TYPE_RTR,
        ;
        assert((msg_type & MSG_TYPE_EXTENDED != 0) == (t & MSG_TYPE_EXTENDED != 0)) by (bit_vector)
            requires
                msg_type == t | MSG_TYPE_RTR,
        ;
        let msg = WireMsg { id: self.msg.id, msg_type, len: dlc as u8, data: [0u8; 8] };
        assert(msg.data@ =~= seq![0u8; 8]);
        assert(decode(msg).data =~= Seq::<u8>::empty());
        Ok(Frame { msg })
    }

    /// A remote frame; fails with `InvalidFrame` when the identifier does
    /// not fit its tag or `dlc` is 8 or more.
    pub fn new_remote(id: Id, dlc: usize) -> (r: Result<Frame, Error>)
        ensures
            r is Ok <==> (id.valid() && dlc < MAX_DATA_LEN),
            r matches Ok(f) ==> f@ == (FrameView {
                id,
                remote: true,
                dlc: dlc as nat,
                data: Seq::empty(),
            }),
            r matches Err(e) ==> e is InvalidFrame,
    {
        let empty: [u8; 0] = [];
        match Frame::new(id, empty.as_slice()) {
            Ok(f) => f.mark_remote(dlc),
            Err(e) => Err(e),
        }
    }

    /// Sets or clears the remote bit; the other fields stay as they are.
    pub fn set_rtr(&mut self, rtr: bool)
        ensures
            final(self)@.remote == rtr,
            final(self)@.id == old(self)@.id,
            final(self)@.dlc == old(self)@.dlc,
            final(self).wire().id == old(self).wire().id,
            final(self).wire().len == old(self).wire().len,
            final(self).wire().data == old(self).wire().data,
            rtr ==> final(self)@.data == Seq::<u8>::empty(),
            !rtr ==> final(self)@.data == decode(WireMsg {
                msg_type: MSG_TYPE_STANDARD,
                ..old(self).wire()
            }).data,
    {
        let t = self.msg.msg_type;
        let n = if rtr { t | MSG_TYPE_RTR } else { t & !MSG_TYPE_RTR };
        assert((n & MSG_TYPE_RTR != 0) == rtr) by (bit_vector)
            requires
                n == (if rtr { t | MSG_TYPE_RTR } else { t & !MSG_TYPE_RTR }),
        ;
        assert((n & MSG_TYPE_EXTENDED != 0) == (t & MSG_TYPE_EXTENDED != 0)) by (bit_vector)
            requires
                n == (if rtr { t | MSG_TYPE_RTR } else { t & !MSG_TYPE_RTR }),
        ;
        assert(MSG_TYPE_STANDARD & MSG_TYPE_RTR == 0) by (bit_vector);
        self.msg.msg_type = n;
    }

    /// Decodes a wire message. Every wire message decodes; its bits are kept
    /// verbatim, unknown type bits included.
    pub fn from_wire(msg: WireMsg) -> (r: Frame)
        ensures
            r.wire() == msg,
            r@ == decode(msg),
    {
        Frame { msg }
    }

    /// The wire form of this frame.
    pub fn to_wire(&self) -> (r: WireMsg)
        ensures
            r == self.wire(),
    {
        self.msg
    }

    pub fn is_extended(&self) -> (r: bool)
        ensures
            r == (self@.id is Extended),
    {
        self.msg.msg_type & MSG_TYPE_EXTENDED != 0
    }

    pub fn is_standard(&self) -> (r: bool)
        ensures
            r == (self@.id is Standard),
    {
        !self.is_extended()
    }

    pub fn is_remote_frame(&self) -> (r: bool)
        ensures
            r == self@.remote,
    {
        self.msg.msg_type & MSG_TYPE_RTR != 0
    }

    pub fn is_data_frame(&self) -> (r: bool)
        ensures
            r == !self@.remote,
    {
        !self.is_remote_frame()
    }

    /// The tagged identifier.
    pub fn id(&self) -> (r: Id)
        ensures
            r == self@.id,
    {
        if self.is_extended() {
            Id::Extended(self.msg.id)
        } else {
            Id::Standard(self.msg.id)
        }
    }

    /// The declared data length.
    pub fn dlc(&self) -> (r: usize)
        ensures
            r as nat == self@.dlc,
    {
        self.msg.len as usize
    }

    /// The payload: empty for a remote frame.
    pub fn data(&self) -> (r: &[u8])
        ensures
            r@ == self@.data,
    {
        let n: usize = if self.msg.msg_type & MSG_TYPE_RTR != 0 {
            0
        } else if self.msg.len <= 8 {
            self.msg.len as usize
        } else {
            8
        };
        slice_subrange(self.msg.data.as_slice(), 0, n)
    }
}

} // verus!
