//! What a connection does with datagrams, apart from the transport itself:
//! the bytes to hand to the transport on sending, and what one answer of the
//! transport means to a pending read.

use vstd::prelude::*;
use crate::buffers::bytes_view;
use crate::datagram::{datagram_encoding, datagram_parse, Datagram, DatagramError};
use crate::stream_id::StreamId;

verus! {

/// The one error surface of the datagram operations.
#[derive(Debug)]
pub enum Error<E> {
    /// A received message was no datagram: the connection must be closed.
    Datagram(DatagramError),
    /// The transport failed; its error is handed on as it came.
    Transport(E),
}

/// One answer of the transport when asked for the next raw message.
#[derive(Debug)]
pub enum RecvEvent<E> {
    /// Nothing has arrived yet.
    Pending,
    /// One whole message.
    Message(bytes::Bytes),
    /// No further message will arrive.
    Closed,
    /// The transport failed.
    Failed(E),
}

/// How far a read has come after one answer of the transport.
#[derive(Debug)]
pub enum ReadPoll<E> {
    /// Still waiting: ask the transport again when it signals readiness.
    Pending,
    /// Resolved: a datagram, the end of the datagrams, or an error.
    Ready(Result<Option<Datagram<bytes::Bytes>>, Error<E>>),
}

/// What a read makes of one answer of the transport.
pub open spec fn read_outcome<E>(event: RecvEvent<E>, poll: ReadPoll<E>) -> bool {
    match event {
        RecvEvent::Pending => poll is Pending,
        RecvEvent::Closed => poll == ReadPoll::<E>::Ready(Ok(None)),
        RecvEvent::Failed(e) => poll == ReadPoll::Ready(Err(Error::Transport(e))),
        RecvEvent::Message(message) => match datagram_parse(bytes_view(message)) {
            Ok((id, payload)) => poll matches ReadPoll::Ready(Ok(Some(d)))
                && d.association_id() == id && d.payload_bytes() == payload,
            Err(e) => poll == ReadPoll::<E>::Ready(Err(Error::Datagram(e))),
        },
    }
}

/// The read of one datagram. It resolves once; after that it is spent.
#[derive(Debug)]
pub struct ReadDatagram {
    resolved: bool,
}

impl ReadDatagram {
    /// Whether the read has resolved.
    pub closed spec fn is_resolved(&self) -> bool {
        self.resolved
    }

    /// Whether the read has resolved, at run time.
    pub fn resolved(&self) -> (r: bool)
        ensures
            r == self.is_resolved(),
    {
        self.resolved
    }

    /// Takes one answer of the transport. A message is decoded at once, and
    /// a failure to decode it is the result of the read. Anything but
    /// `Pending` resolves the read.
    pub fn poll<E>(&mut self, event: RecvEvent<E>) -> (poll: ReadPoll<E>)
        requires
            !old(self).is_resolved(),
        ensures
            read_outcome(event, poll),
            final(self).is_resolved() == !(event is Pending),
    {
        match event {
            RecvEvent::Pending => ReadPoll::Pending,
            RecvEvent::Closed => {
                self.resolved = true;
                ReadPoll::Ready(Ok(None))
            },
            RecvEvent::Failed(e) => {
                self.resolved = true;
                ReadPoll::Ready(Err(Error::Transport(e)))
            },
            RecvEvent::Message(message) => {
                self.resolved = true;
                match Datagram::decode(message) {
                    Ok(d) => ReadPoll::Ready(Ok(Some(d))),
                    Err(e) => ReadPoll::Ready(Err(Error::Datagram(e))),
                }
            },
        }
    }
}

/// The wire image to hand to the transport for a datagram of the stream
/// `stream_id`, which must be divisible by four.
pub fn send_datagram(stream_id: StreamId, data: bytes::Bytes) -> (wire: Vec<u8>)
    requires
        stream_id@ % 4 == 0,
        datagram_encoding(stream_id@, bytes_view(data)).len() <= isize::MAX,
    ensures
        wire@ == datagram_encoding(stream_id@, bytes_view(data)),
{
    let mut wire: Vec<u8> = Vec::new();
    Datagram::new(stream_id, data).encode(&mut wire);
    assert(wire@ =~= datagram_encoding(stream_id@, bytes_view(data)));
    wire
}

/// A read that has not resolved yet. It asks nothing of the transport by
/// itself.
pub fn read_datagram() -> (read: ReadDatagram)
    ensures
        !read.is_resolved(),
{
    ReadDatagram { resolved: false }
}

} // verus!
