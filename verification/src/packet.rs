//! Request and response packets and their byte encodings.
//!
//! A request carries a correlation token, the sender's monotonic microsecond
//! timestamp, and an opaque work descriptor. A response carries whatever is
//! needed to recover the originating send timestamp, the server's processing
//! time, and an opaque result. Both encode to a fixed 24-byte image of three
//! big-endian 64-bit fields.

use vstd::prelude::*;
use crate::wire::{be_bytes_of_u64, lemma_u64_be_round_trip, read_be_u64, u64_of_be_bytes, write_be_u64};

verus! {

/// Byte length of an encoded request or response.
pub const PACKET_BYTES: usize = 24;

/// Opaque descriptor of the work a request asks the server to perform.
#[derive(Clone, Copy, PartialEq, Eq, Structural, Debug)]
pub struct Work {
    pub param: u64,
}

/// One request, created per client iteration.
#[derive(Clone, Copy, PartialEq, Eq, Structural, Debug)]
pub struct ClientWorkPacket {
    /// Correlation token binding this request to its response.
    pub token: u64,
    /// Monotonic microsecond timestamp taken when the request was built.
    pub send_ts: u64,
    /// Opaque work descriptor.
    pub work: Work,
}

/// One response, created once per served request.
#[derive(Clone, Copy, PartialEq, Eq, Structural, Debug)]
pub struct ServerWorkPacket {
    /// The send timestamp embedded in the originating request.
    pub send_ts: u64,
    /// Microseconds the server spent on the work.
    pub processing_time: u64,
    /// Opaque result of the work.
    pub result: u64,
}

/// One completed request's latency sample.
#[derive(Clone, Copy, PartialEq, Eq, Structural, Debug)]
pub struct LatencyRecord {
    /// `recv_ts - send_ts`, in microseconds.
    pub latency: u64,
    /// When the request was sent, monotonic microseconds.
    pub send_ts: u64,
    /// Microseconds the server spent on the work.
    pub server_processing_time: u64,
    /// When the response arrived, monotonic microseconds.
    pub recv_ts: u64,
}

impl LatencyRecord {
    /// A record is sound when the response did not arrive before the request
    /// was sent and the latency is exactly the difference.
    pub open spec fn wf(&self) -> bool {
        self.recv_ts >= self.send_ts && self.latency == self.recv_ts - self.send_ts
    }
}

/// Latency is non-negative: a sound record's receive timestamp is at or
/// after its send timestamp, and its latency is their exact difference.
pub proof fn lemma_latency_nonnegative(rec: LatencyRecord)
    requires
        rec.wf(),
    ensures
        rec.recv_ts >= rec.send_ts,
        rec.latency == rec.recv_ts - rec.send_ts,
{
}

/// The 24-byte image of a request: token, send timestamp, work parameter.
pub open spec fn client_packet_bytes(p: ClientWorkPacket) -> Seq<u8> {
    be_bytes_of_u64(p.token) + be_bytes_of_u64(p.send_ts) + be_bytes_of_u64(p.work.param)
}

/// The request encoded in a 24-byte image.
pub open spec fn client_packet_of(b: Seq<u8>) -> ClientWorkPacket
    recommends
        b.len() == PACKET_BYTES,
{
    ClientWorkPacket {
        token: u64_of_be_bytes(b.subrange(0, 8)),
        send_ts: u64_of_be_bytes(b.subrange(8, 16)),
        work: Work { param: u64_of_be_bytes(b.subrange(16, 24)) },
    }
}

/// The 24-byte image of a response: send timestamp, processing time, result.
pub open spec fn server_packet_bytes(p: ServerWorkPacket) -> Seq<u8> {
    be_bytes_of_u64(p.send_ts) + be_bytes_of_u64(p.processing_time) + be_bytes_of_u64(p.result)
}

/// The response encoded in a 24-byte image.
pub open spec fn server_packet_of(b: Seq<u8>) -> ServerWorkPacket
    recommends
        b.len() == PACKET_BYTES,
{
    ServerWorkPacket {
        send_ts: u64_of_be_bytes(b.subrange(0, 8)),
        processing_time: u64_of_be_bytes(b.subrange(8, 16)),
        result: u64_of_be_bytes(b.subrange(16, 24)),
    }
}

/// Decoding the image of a request gives the request back.
pub proof fn lemma_client_packet_round_trip(p: ClientWorkPacket)
    ensures
        client_packet_bytes(p).len() == PACKET_BYTES,
        client_packet_of(client_packet_bytes(p)) == p,
{
    let b = client_packet_bytes(p);
    lemma_u64_be_round_trip(p.token);
    lemma_u64_be_round_trip(p.send_ts);
    lemma_u64_be_round_trip(p.work.param);
    assert(b.subrange(0, 8) =~= be_bytes_of_u64(p.token));
    assert(b.subrange(8, 16) =~= be_bytes_of_u64(p.send_ts));
    assert(b.subrange(16, 24) =~= be_bytes_of_u64(p.work.param));
}

/// Decoding the image of a response gives the response back.
pub proof fn lemma_server_packet_round_trip(p: ServerWorkPacket)
    ensures
        server_packet_bytes(p).len() == PACKET_BYTES,
        server_packet_of(server_packet_bytes(p)) == p,
{
    let b = server_packet_bytes(p);
    lemma_u64_be_round_trip(p.send_ts);
    lemma_u64_be_round_trip(p.processing_time);
    lemma_u64_be_round_trip(p.result);
    assert(b.subrange(0, 8) =~= be_bytes_of_u64(p.send_ts));
    assert(b.subrange(8, 16) =~= be_bytes_of_u64(p.processing_time));
    assert(b.subrange(16, 24) =~= be_bytes_of_u64(p.result));
}

impl ClientWorkPacket {
    /// Builds a request from a correlation token, the send timestamp, and
    /// the work descriptor.
    pub fn new(token: u64, send_ts: u64, work: Work) -> (r: ClientWorkPacket)
        ensures
            r.token == token,
            r.send_ts == send_ts,
            r.work == work,
    {
        ClientWorkPacket { token, send_ts, work }
    }

    /// Serializes the request into its 24-byte image.
    pub fn to_bytes(&self) -> (r: Vec<u8>)
        ensures
            r@ == client_packet_bytes(*self),
            r@.len() == PACKET_BYTES,
    {
        let mut r: Vec<u8> = Vec::new();
        write_be_u64(&mut r, self.token);
        write_be_u64(&mut r, self.send_ts);
        write_be_u64(&mut r, self.work.param);
        proof {
            assert(r@ =~= client_packet_bytes(*self));
        }
        r
    }

    /// Deserializes a request from a byte image; any length other than 24
    /// bytes is malformed.
    pub fn from_bytes(b: &Vec<u8>) -> (r: Option<ClientWorkPacket>)
        ensures
            b@.len() == PACKET_BYTES ==> r == Some(client_packet_of(b@)),
            b@.len() != PACKET_BYTES ==> r is None,
    {
        if b.len() != PACKET_BYTES {
            return None;
        }
        let token = read_be_u64(b, 0);
        let send_ts = read_be_u64(b, 8);
        let param = read_be_u64(b, 16);
        Some(ClientWorkPacket { token, send_ts, work: Work { param } })
    }

    /// Builds the response to this request: the reply embeds this request's
    /// send timestamp so the client can recover it, together with the
    /// measured processing time and the opaque result of the work.
    pub fn reply(&self, processing_time: u64, result: u64) -> (r: ServerWorkPacket)
        ensures
            r.send_ts == self.send_ts,
            r.processing_time == processing_time,
            r.result == result,
    {
        ServerWorkPacket { send_ts: self.send_ts, processing_time, result }
    }
}

impl ServerWorkPacket {
    /// Serializes the response into its 24-byte image.
    pub fn to_bytes(&self) -> (r: Vec<u8>)
        ensures
            r@ == server_packet_bytes(*self),
            r@.len() == PACKET_BYTES,
    {
        let mut r: Vec<u8> = Vec::new();
        write_be_u64(&mut r, self.send_ts);
        write_be_u64(&mut r, self.processing_time);
        write_be_u64(&mut r, self.result);
        proof {
            assert(r@ =~= server_packet_bytes(*self));
        }
        r
    }

    /// Deserializes a response from a byte image; any length other than 24
    /// bytes is malformed.
    pub fn from_bytes(b: &Vec<u8>) -> (r: Option<ServerWorkPacket>)
        ensures
            b@.len() == PACKET_BYTES ==> r == Some(server_packet_of(b@)),
            b@.len() != PACKET_BYTES ==> r is None,
    {
        if b.len() != PACKET_BYTES {
            return None;
        }
        let send_ts = read_be_u64(b, 0);
        let processing_time = read_be_u64(b, 8);
        let result = read_be_u64(b, 16);
        Some(ServerWorkPacket { send_ts, processing_time, result })
    }

    /// Turns this response into a latency sample, given the moment it was
    /// received. A response whose embedded send timestamp lies after the
    /// receive timestamp yields no sample.
    pub fn calculate_latency(&self, recv_ts: u64) -> (r: Option<LatencyRecord>)
        ensures
            r is Some <==> recv_ts >= self.send_ts,
            r matches Some(rec) ==> rec == (LatencyRecord {
                latency: (recv_ts - self.send_ts) as u64,
                send_ts: self.send_ts,
                server_processing_time: self.processing_time,
                recv_ts,
            }) && rec.wf(),
    {
        if recv_ts >= self.send_ts {
            Some(
                LatencyRecord {
                    latency: recv_ts - self.send_ts,
                    send_ts: self.send_ts,
                    server_processing_time: self.processing_time,
                    recv_ts,
                },
            )
        } else {
            None
        }
    }
}

} // verus!
