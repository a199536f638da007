//! The 16-byte response wire format and its codec.
//!
//! A server reply is exactly 16 bytes: a 4-byte payload whose last byte
//! tells which probe it answers, 2 reserved bytes, the sender's externally
//! observed port (big-endian), the externally observed IPv4 address, and
//! the server's own local IPv4 address. Any other length is a decode
//! failure; a correctly sized buffer is trusted as-is, because the probe
//! round filters datagrams by source address, not by content.

use vstd::prelude::*;

use crate::addr::{Endpoint, Ipv4};

verus! {

/// Discriminator byte carried by a reply to an echo request.
pub const DISCRIMINATOR_ECHO: u8 = 0x65;

/// Discriminator byte carried by a reply to a cross-port receive request.
pub const DISCRIMINATOR_CROSS_PORT: u8 = 0x66;

/// Discriminator byte carried by a reply to a cross-server echo request.
pub const DISCRIMINATOR_CROSS_SERVER: u8 = 0x67;

/// Why a buffer failed to decode.
#[derive(Clone, Copy, Debug, PartialEq, Eq, Structural)]
pub enum DecodeError {
    /// The buffer is not exactly 16 bytes long.
    InvalidLength,
}

/// A decoded server reply.
#[derive(Clone, Copy, Debug, PartialEq, Eq)]
pub struct Response {
    /// The 4-byte payload; its last byte is the discriminator.
    pub payload: (u8, u8, u8, u8),
    /// Two reserved bytes, carried through unchanged and otherwise ignored.
    pub reserved: (u8, u8),
    /// The port the server observed the probe arriving from.
    pub port: u16,
    /// The IPv4 address the server observed the probe arriving from.
    pub remote_ip: Ipv4,
    /// The server's own local IPv4 address; unused by classification.
    pub local_ip: Ipv4,
}

impl Response {
    /// The discriminator byte identifying which probe this reply answers.
    pub open spec fn spec_unique_number(self) -> u8 {
        self.payload.3
    }

    /// Returns the discriminator byte.
    pub fn unique_number(&self) -> (r: u8)
        ensures
            r == self.spec_unique_number(),
    {
        self.payload.3
    }

    /// Returns whether the reply answers an echo request.
    pub fn is_payload_2(&self) -> (r: bool)
        ensures
            r == (self.spec_unique_number() == DISCRIMINATOR_ECHO),
    {
        self.payload.3 == DISCRIMINATOR_ECHO
    }

    /// Returns whether the reply answers a cross-port receive request.
    pub fn is_payload_3(&self) -> (r: bool)
        ensures
            r == (self.spec_unique_number() == DISCRIMINATOR_CROSS_PORT),
    {
        self.payload.3 == DISCRIMINATOR_CROSS_PORT
    }

    /// Returns whether the reply answers a cross-server echo request.
    pub fn is_payload_4(&self) -> (r: bool)
        ensures
            r == (self.spec_unique_number() == DISCRIMINATOR_CROSS_SERVER),
    {
        self.payload.3 == DISCRIMINATOR_CROSS_SERVER
    }

    /// The externally observed endpoint this reply reports.
    pub open spec fn spec_remote_addr(self) -> Endpoint {
        Endpoint { ip: self.remote_ip, port: self.port }
    }

    /// Returns the externally observed endpoint this reply reports.
    pub fn remote_addr(&self) -> (r: Endpoint)
        ensures
            r == self.spec_remote_addr(),
    {
        Endpoint { ip: self.remote_ip, port: self.port }
    }
}

/// The response a 16-byte buffer decodes to: the payload and reserved
/// bytes verbatim, the port from bytes 6 and 7 in big-endian order, and
/// the two IPv4 addresses from the remaining octets.
pub open spec fn spec_decode(s: Seq<u8>) -> Response
    recommends
        s.len() == 16,
{
    Response {
        payload: (s[0], s[1], s[2], s[3]),
        reserved: (s[4], s[5]),
        port: (s[6] * 256 + s[7]) as u16,
        remote_ip: Ipv4 { a: s[8], b: s[9], c: s[10], d: s[11] },
        local_ip: Ipv4 { a: s[12], b: s[13], c: s[14], d: s[15] },
    }
}

/// The 16 bytes a response encodes to; the inverse of `spec_decode`.
pub open spec fn spec_encode(r: Response) -> Seq<u8> {
    seq![
        r.payload.0,
        r.payload.1,
        r.payload.2,
        r.payload.3,
        r.reserved.0,
        r.reserved.1,
        (r.port / 256) as u8,
        (r.port % 256) as u8,
        r.remote_ip.a,
        r.remote_ip.b,
        r.remote_ip.c,
        r.remote_ip.d,
        r.local_ip.a,
        r.local_ip.b,
        r.local_ip.c,
        r.local_ip.d,
    ]
}

/// Decodes a received buffer. Succeeds exactly on 16-byte buffers; any
/// other length fails with `InvalidLength` regardless of content.
pub fn decode(buf: &[u8]) -> (r: Result<Response, DecodeError>)
    ensures
        buf@.len() == 16 ==> r == Ok::<Response, DecodeError>(spec_decode(buf@)),
        buf@.len() != 16 ==> r == Err::<Response, DecodeError>(DecodeError::InvalidLength),
{
    if buf.len() == 16 {
        let port: u16 = (buf[6] as u16) * 256 + (buf[7] as u16);
        Ok(
            Response {
                payload: (buf[0], buf[1], buf[2], buf[3]),
                reserved: (buf[4], buf[5]),
                port,
                remote_ip: Ipv4 { a: buf[8], b: buf[9], c: buf[10], d: buf[11] },
                local_ip: Ipv4 { a: buf[12], b: buf[13], c: buf[14], d: buf[15] },
            },
        )
    } else {
        Err(DecodeError::InvalidLength)
    }
}

/// Encodes a response into the 16-byte wire form.
pub fn encode(r: &Response) -> (out: Vec<u8>)
    ensures
        out@ == spec_encode(*r),
{
    let mut out: Vec<u8> = Vec::new();
    out.push(r.payload.0);
    out.push(r.payload.1);
    out.push(r.payload.2);
    out.push(r.payload.3);
    out.push(r.reserved.0);
    out.push(r.reserved.1);
    out.push((r.port / 256) as u8);
    out.push((r.port % 256) as u8);
    out.push(r.remote_ip.a);
    out.push(r.remote_ip.b);
    out.push(r.remote_ip.c);
    out.push(r.remote_ip.d);
    out.push(r.local_ip.a);
    out.push(r.local_ip.b);
    out.push(r.local_ip.c);
    out.push(r.local_ip.d);
    proof {
        assert(out@ =~= spec_encode(*r));
    }
    out
}

/// Encoding then decoding gives back the same response: the codec loses
/// nothing, for every response value.
pub proof fn lemma_encode_decode_roundtrip(r: Response)
    ensures
        spec_encode(r).len() == 16,
        spec_decode(spec_encode(r)) == r,
{
    vstd::arithmetic::div_mod::lemma_fundamental_div_mod(r.port as int, 256);
    assert(spec_decode(spec_encode(r)).port == r.port);
}

} // verus!
