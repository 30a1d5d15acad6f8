//! One HTTP datagram and its wire image: the quarter of the stream
//! identifier as a variable-length integer, then the payload to the end of
//! the message.

use vstd::prelude::*;
use crate::buffers::{bytes_view, put_bytes};
use crate::stream_id::{StreamId, MAX_STREAM_ID};
use crate::varint::{
    decode_varint, encode_varint, lemma_varint_round_trip, varint_encoding, varint_len,
    varint_parse,
};

verus! {

/// The code under which every failure to decode a datagram is reported to
/// the peer.
pub const H3_DATAGRAM_ERROR: u64 = 0x33;

/// Why a received message is no datagram. Either way the connection as a
/// whole is at fault, not a single stream.
#[derive(Clone, Copy, Debug, PartialEq, Eq)]
pub enum DatagramError {
    /// The message is empty or ends inside its variable-length integer.
    MalformedFrame,
    /// Four times the quarter stream id is no legal stream identifier.
    InvalidStreamId,
}

impl DatagramError {
    /// The error code of the connection error: `H3_DATAGRAM_ERROR`.
    pub fn code(&self) -> (c: u64)
        ensures
            c == H3_DATAGRAM_ERROR,
    {
        H3_DATAGRAM_ERROR
    }

    /// The cause, in words.
    pub fn cause(&self) -> (s: &'static str)
        ensures
            s@ == match *self {
                DatagramError::MalformedFrame => "malformed datagram frame"@,
                DatagramError::InvalidStreamId => "invalid stream id"@,
            },
    {
        match self {
            DatagramError::MalformedFrame => "malformed datagram frame",
            DatagramError::InvalidStreamId => "invalid stream id",
        }
    }
}

/// The wire image of a datagram of stream `id` with the given payload.
pub open spec fn datagram_encoding(id: nat, payload: Seq<u8>) -> Seq<u8>
    recommends
        id % 4 == 0,
        id <= MAX_STREAM_ID,
{
    varint_encoding(id / 4) + payload
}

/// What a received message decodes to: the stream identifier and the
/// payload, or the reason why it is no datagram.
pub open spec fn datagram_parse(s: Seq<u8>) -> Result<(nat, Seq<u8>), DatagramError> {
    match varint_parse(s) {
        None => Err(DatagramError::MalformedFrame),
        Some((quarter, n)) => if quarter * 4 > MAX_STREAM_ID {
            Err(DatagramError::InvalidStreamId)
        } else {
            Ok((quarter * 4, s.skip(n as int)))
        },
    }
}

/// The wire image is the payload and at most eight bytes more.
pub proof fn lemma_datagram_encoding_len(id: nat, payload: Seq<u8>)
    requires
        id <= MAX_STREAM_ID,
    ensures
        datagram_encoding(id, payload).len() == varint_len(id / 4) + payload.len(),
        1 <= varint_len(id / 4) <= 8,
{
    lemma_varint_round_trip(id / 4, payload);
}

/// Decoding the wire image of a datagram gives back its stream identifier
/// and its payload, for every legal identifier divisible by four and every
/// payload, the empty one included.
pub proof fn lemma_datagram_round_trip(id: nat, payload: Seq<u8>)
    requires
        id % 4 == 0,
        id <= MAX_STREAM_ID,
    ensures
        datagram_parse(datagram_encoding(id, payload)) == Ok::<_, DatagramError>((id, payload)),
{
    let wire = datagram_encoding(id, payload);
    lemma_varint_round_trip(id / 4, payload);
    assert(wire.skip(varint_len(id / 4) as int) =~= payload);
}

/// Whatever message decodes, the stream identifier it gives is legal and
/// divisible by four, and the payload is shorter than the message.
pub proof fn lemma_datagram_parse_aligned(s: Seq<u8>)
    ensures
        match datagram_parse(s) {
            Ok((id, payload)) => id % 4 == 0 && id <= MAX_STREAM_ID && payload.len() < s.len(),
            Err(_) => true,
        },
{
}

/// An HTTP datagram: the request stream it belongs to, and its payload.
///
/// The stream identifier of a datagram is always divisible by four. The
/// payload may be of any type; the wire image is defined for `bytes::Bytes`.
#[derive(Debug)]
pub struct Datagram<B = bytes::Bytes> {
    stream_id: StreamId,
    payload: B,
}

impl<B> Datagram<B> {
    #[verifier::type_invariant]
    spec fn aligned(self) -> bool {
        self.stream_id@ % 4 == 0
    }

    /// The identifier of the stream that the datagram belongs to.
    pub closed spec fn association_id(&self) -> nat {
        self.stream_id@
    }

    /// The payload that the datagram carries.
    pub closed spec fn payload_value(&self) -> B {
        self.payload
    }

    /// A datagram of the stream `stream_id`, which must be divisible by four.
    pub fn new(stream_id: StreamId, payload: B) -> (d: Self)
        requires
            stream_id@ % 4 == 0,
        ensures
            d.association_id() == stream_id@,
            d.payload_value() == payload,
    {
        Datagram { stream_id, payload }
    }

    /// A datagram of the stream `stream_id`, or `None` where `stream_id` is
    /// not divisible by four and so names no request stream.
    pub fn try_new(stream_id: StreamId, payload: B) -> (r: Option<Self>)
        ensures
            stream_id@ % 4 == 0 ==> r.is_some() && r.unwrap().association_id() == stream_id@
                && r.unwrap().payload_value() == payload,
            stream_id@ % 4 != 0 ==> r.is_none(),
    {
        if stream_id.into_inner() % 4 == 0 {
            Some(Datagram::new(stream_id, payload))
        } else {
            None
        }
    }

    /// The identifier of the stream that the datagram belongs to.
    pub fn stream_id(&self) -> (id: StreamId)
        ensures
            id@ == self.association_id(),
            id@ % 4 == 0,
    {
        proof {
            use_type_invariant(self);
        }
        self.stream_id
    }

    /// The payload.
    pub fn payload(&self) -> (p: &B)
        ensures
            *p == self.payload_value(),
    {
        &self.payload
    }

    /// The payload, out of the datagram.
    pub fn into_payload(self) -> (p: B)
        ensures
            p == self.payload_value(),
    {
        self.payload
    }
}

impl Datagram<bytes::Bytes> {
    /// The payload, byte by byte.
    pub open spec fn payload_bytes(&self) -> Seq<u8> {
        bytes_view(self.payload_value())
    }

    /// Decodes one received message: the stream identifier is four times the
    /// variable-length integer at its front, the payload is all that follows.
    pub fn decode(buf: bytes::Bytes) -> (r: Result<Self, DatagramError>)
        ensures
            match datagram_parse(bytes_view(buf)) {
                Ok((id, payload)) => r.is_ok() && r.unwrap().association_id() == id
                    && r.unwrap().payload_bytes() == payload,
                Err(e) => r == Err::<Self, _>(e),
            },
    {
        let mut buf = buf;
        let quarter: u64 = match decode_varint(&mut buf) {
            Some(q) => q,
            None => {
                return Err(DatagramError::MalformedFrame);
            },
        };
        let stream_id = match StreamId::from_u64(quarter * 4) {
            Some(id) => id,
            None => {
                return Err(DatagramError::InvalidStreamId);
            },
        };
        Ok(Datagram { stream_id, payload: buf })
    }

    /// Appends the wire image of the datagram to `buf`, which must have room
    /// for it.
    pub fn encode(self, buf: &mut Vec<u8>)
        requires
            old(buf)@.len() + datagram_encoding(self.association_id(), self.payload_bytes()).len()
                <= isize::MAX,
        ensures
            final(buf)@ == old(buf)@ + datagram_encoding(
                self.association_id(),
                self.payload_bytes(),
            ),
    {
        let id: u64 = self.stream_id.into_inner();
        proof {
            lemma_datagram_encoding_len(id as nat, self.payload_bytes());
        }
        encode_varint(id / 4, buf);
        put_bytes(buf, self.payload);
        assert(final(buf)@ =~= old(buf)@ + datagram_encoding(
            self.association_id(),
            self.payload_bytes(),
        ));
    }
}

} // verus!
