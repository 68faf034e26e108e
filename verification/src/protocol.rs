//! Framed request and response channels over an ordered byte stream.
//!
//! Each connection object owns two byte buffers: `incoming` holds bytes the
//! transport has delivered but the codec has not yet consumed, and `outgoing`
//! holds framed bytes the transport still owes the peer. The transport layer
//! feeds received bytes in, drains the outgoing bytes, and never has to know
//! about message boundaries; short reads and partial writes therefore never
//! reach the codec.

use vstd::prelude::*;
use crate::frame::{append_frame, frame_complete, frame_payload, frame_rest, frame_seq, header_ok, payload_ok, take_frame, FrameTake};
use crate::packet::{client_packet_bytes, client_packet_of, server_packet_bytes, server_packet_of, ClientWorkPacket, ServerWorkPacket, PACKET_BYTES};

verus! {

/// Why a receive could not produce a packet.
#[derive(Clone, Copy, PartialEq, Eq, Structural, Debug)]
pub enum RecvError {
    /// Fewer bytes are buffered than one whole frame; feed more and retry.
    NeedMoreData,
    /// The length prefix was zero or above the frame bound; the body was
    /// never read and the buffer is untouched.
    Protocol,
    /// The frame's payload was not a valid packet image; the frame was
    /// consumed.
    Malformed,
}

/// The receive contract shared by both packet channels, stated over the
/// buffered byte stream: exactly one of four outcomes holds, decided by the
/// bytes alone.
pub open spec fn recv_outcome<T>(
    pre: Seq<u8>,
    post: Seq<u8>,
    r: Result<T, RecvError>,
    decode: spec_fn(Seq<u8>) -> T,
) -> bool {
    &&& pre.len() < 8 ==> r == Result::<T, RecvError>::Err(RecvError::NeedMoreData) && post == pre
    &&& pre.len() >= 8 && !header_ok(pre) ==> r == Result::<T, RecvError>::Err(RecvError::Protocol)
        && post == pre
    &&& pre.len() >= 8 && header_ok(pre) && !frame_complete(pre) ==> r == Result::<
        T,
        RecvError,
    >::Err(RecvError::NeedMoreData) && post == pre
    &&& frame_complete(pre) && frame_payload(pre).len() == PACKET_BYTES ==> r == Result::<
        T,
        RecvError,
    >::Ok(decode(frame_payload(pre))) && post == frame_rest(pre)
    &&& frame_complete(pre) && frame_payload(pre).len() != PACKET_BYTES ==> r == Result::<
        T,
        RecvError,
    >::Err(RecvError::Malformed) && post == frame_rest(pre)
}

/// The request channel: sends and receives `ClientWorkPacket` frames.
pub struct ClientWorkPacketConn {
    /// Bytes delivered by the transport, not yet consumed by the codec.
    pub incoming: Vec<u8>,
    /// Framed bytes the transport still has to deliver to the peer.
    pub outgoing: Vec<u8>,
}

/// The response channel: sends and receives `ServerWorkPacket` frames.
pub struct ServerWorkPacketConn {
    /// Bytes delivered by the transport, not yet consumed by the codec.
    pub incoming: Vec<u8>,
    /// Framed bytes the transport still has to deliver to the peer.
    pub outgoing: Vec<u8>,
}

impl ClientWorkPacketConn {
    /// A channel with nothing buffered in either direction.
    pub fn new() -> (r: ClientWorkPacketConn)
        ensures
            r.incoming@ == Seq::<u8>::empty(),
            r.outgoing@ == Seq::<u8>::empty(),
    {
        ClientWorkPacketConn { incoming: Vec::new(), outgoing: Vec::new() }
    }

    /// Frames a request and queues it for the transport. The fixed 24-byte
    /// encoding always fits the frame bound, so this cannot fail.
    pub fn send_work_msg(&mut self, work_packet: ClientWorkPacket)
        ensures
            final(self).outgoing@ == old(self).outgoing@ + frame_seq(
                client_packet_bytes(work_packet),
            ),
            final(self).incoming@ == old(self).incoming@,
    {
        let bytes = work_packet.to_bytes();
        let ok = append_frame(&mut self.outgoing, &bytes);
        proof {
            assert(payload_ok(bytes@));
            assert(ok);
        }
    }

    /// Takes one request off the buffered byte stream, if a whole frame is
    /// there. A zero or over-limit length prefix fails without the body ever
    /// being read.
    pub fn recv_work_msg(&mut self) -> (r: Result<ClientWorkPacket, RecvError>)
        ensures
            recv_outcome(
                old(self).incoming@,
                final(self).incoming@,
                r,
                |b: Seq<u8>| client_packet_of(b),
            ),
            final(self).outgoing@ == old(self).outgoing@,
    {
        match take_frame(&mut self.incoming) {
            FrameTake::NeedMore => Err(RecvError::NeedMoreData),
            FrameTake::BadLength => Err(RecvError::Protocol),
            FrameTake::Payload(body) => match ClientWorkPacket::from_bytes(&body) {
                Some(p) => Ok(p),
                None => Err(RecvError::Malformed),
            },
        }
    }

    /// Hands the transport every byte owed to the peer, leaving the outgoing
    /// buffer empty.
    pub fn take_outgoing(&mut self) -> (r: Vec<u8>)
        ensures
            r@ == old(self).outgoing@,
            final(self).outgoing@ == Seq::<u8>::empty(),
            final(self).incoming@ == old(self).incoming@,
    {
        let mut drained: Vec<u8> = Vec::new();
        core::mem::swap(&mut drained, &mut self.outgoing);
        drained
    }

    /// Appends bytes the transport received, in delivery order.
    pub fn feed_incoming(&mut self, bytes: &Vec<u8>)
        ensures
            final(self).incoming@ == old(self).incoming@ + bytes@,
            final(self).outgoing@ == old(self).outgoing@,
    {
        let n = bytes.len();
        let mut i: usize = 0;
        while i < n
            invariant
                i <= n,
                n == bytes@.len(),
                self.incoming@ == old(self).incoming@ + bytes@.take(i as int),
                self.outgoing@ == old(self).outgoing@,
            decreases n - i,
        {
            self.incoming.push(bytes[i]);
            proof {
                assert(bytes@.take(i + 1) =~= bytes@.take(i as int).push(bytes@[i as int]));
            }
            i = i + 1;
        }
        proof {
            assert(self.incoming@ =~= old(self).incoming@ + bytes@);
        }
    }
}

impl ServerWorkPacketConn {
    /// A channel with nothing buffered in either direction.
    pub fn new() -> (r: ServerWorkPacketConn)
        ensures
            r.incoming@ == Seq::<u8>::empty(),
            r.outgoing@ == Seq::<u8>::empty(),
    {
        ServerWorkPacketConn { incoming: Vec::new(), outgoing: Vec::new() }
    }

    /// Frames a response and queues it for the transport. The fixed 24-byte
    /// encoding always fits the frame bound, so this cannot fail.
    pub fn send_work_msg(&mut self, packet: ServerWorkPacket)
        ensures
            final(self).outgoing@ == old(self).outgoing@ + frame_seq(server_packet_bytes(packet)),
            final(self).incoming@ == old(self).incoming@,
    {
        let bytes = packet.to_bytes();
        let ok = append_frame(&mut self.outgoing, &bytes);
        proof {
            assert(payload_ok(bytes@));
            assert(ok);
        }
    }

    /// Takes one response off the buffered byte stream, if a whole frame is
    /// there. A zero or over-limit length prefix fails without the body ever
    /// being read.
    pub fn recv_work_msg(&mut self) -> (r: Result<ServerWorkPacket, RecvError>)
        ensures
            recv_outcome(
                old(self).incoming@,
                final(self).incoming@,
                r,
                |b: Seq<u8>| server_packet_of(b),
            ),
            final(self).outgoing@ == old(self).outgoing@,
    {
        match take_frame(&mut self.incoming) {
            FrameTake::NeedMore => Err(RecvError::NeedMoreData),
            FrameTake::BadLength => Err(RecvError::Protocol),
            FrameTake::Payload(body) => match ServerWorkPacket::from_bytes(&body) {
                Some(p) => Ok(p),
                None => Err(RecvError::Malformed),
            },
        }
    }

    /// Hands the transport every byte owed to the peer, leaving the outgoing
    /// buffer empty.
    pub fn take_outgoing(&mut self) -> (r: Vec<u8>)
        ensures
            r@ == old(self).outgoing@,
            final(self).outgoing@ == Seq::<u8>::empty(),
            final(self).incoming@ == old(self).incoming@,
    {
        let mut drained: Vec<u8> = Vec::new();
        core::mem::swap(&mut drained, &mut self.outgoing);
        drained
    }

    /// Appends bytes the transport received, in delivery order.
    pub fn feed_incoming(&mut self, bytes: &Vec<u8>)
        ensures
            final(self).incoming@ == old(self).incoming@ + bytes@,
            final(self).outgoing@ == old(self).outgoing@,
    {
        let n = bytes.len();
        let mut i: usize = 0;
        while i < n
            invariant
                i <= n,
                n == bytes@.len(),
                self.incoming@ == old(self).incoming@ + bytes@.take(i as int),
                self.outgoing@ == old(self).outgoing@,
            decreases n - i,
        {
            self.incoming.push(bytes[i]);
            proof {
                assert(bytes@.take(i + 1) =~= bytes@.take(i as int).push(bytes@[i as int]));
            }
            i = i + 1;
        }
        proof {
            assert(self.incoming@ =~= old(self).incoming@ + bytes@);
        }
    }
}

/// Work-message round trip: a buffered stream that begins with the framed
/// image of a request parses back to exactly that request, leaving the bytes
/// that followed. The same holds of responses via
/// [`crate::packet::lemma_server_packet_round_trip`].
pub proof fn lemma_work_msg_round_trip(p: ClientWorkPacket, rest: Seq<u8>)
    ensures
        frame_complete(frame_seq(client_packet_bytes(p)) + rest),
        frame_payload(frame_seq(client_packet_bytes(p)) + rest).len() == PACKET_BYTES,
        client_packet_of(frame_payload(frame_seq(client_packet_bytes(p)) + rest)) == p,
        frame_rest(frame_seq(client_packet_bytes(p)) + rest) == rest,
{
    crate::packet::lemma_client_packet_round_trip(p);
    crate::frame::lemma_frame_round_trip(client_packet_bytes(p), rest);
}

} // verus!
