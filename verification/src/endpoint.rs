//! Remote endpoints and their translation to the transport's IPv4 form.

use vstd::prelude::*;
use crate::error::AdapterError;

verus! {

/// The address of a remote host, by family.
#[derive(Clone, Copy, Debug, PartialEq, Eq)]
pub enum RemoteIp {
    /// Four octets, in network order.
    V4([u8; 4]),
    /// Sixteen octets, in network order.
    V6([u8; 16]),
}

/// Where a connection is to be opened: an address and a port.
#[derive(Clone, Copy, Debug, PartialEq, Eq)]
pub struct RemoteEndpoint {
    pub ip: RemoteIp,
    pub port: u16,
}

/// An endpoint in the only form the transport opens: IPv4 octets and a port.
#[derive(Clone, Copy, Debug, PartialEq, Eq)]
pub struct WireEndpoint {
    pub octets: [u8; 4],
    pub port: u16,
}

/// The wire form of `remote`: its octets and port if it is an IPv4
/// endpoint, and the unsupported-family fault otherwise.
pub open spec fn wire_endpoint_of(remote: RemoteEndpoint) -> Result<WireEndpoint, AdapterError> {
    match remote.ip {
        RemoteIp::V4(octets) => Ok(WireEndpoint { octets, port: remote.port }),
        RemoteIp::V6(_) => Err(AdapterError::UnsupportedAddressFamily),
    }
}

/// Calls `smoltcp::wire::Ipv4Address::new` and hands out the octets of the
/// address it built. The constructor stores its four arguments in order, so
/// the result holds `a0`, `a1`, `a2`, `a3`.
#[verifier::external_body]
fn ipv4_octets(a0: u8, a1: u8, a2: u8, a3: u8) -> (octets: [u8; 4])
    ensures
        octets@ == seq![a0, a1, a2, a3],
{
    smoltcp::wire::Ipv4Address::new(a0, a1, a2, a3).0
}

/// Translates a remote endpoint into the transport's address form.
pub fn wire_endpoint(remote: &RemoteEndpoint) -> (wire: Result<WireEndpoint, AdapterError>)
    ensures
        wire == wire_endpoint_of(*remote),
{
    match remote.ip {
        RemoteIp::V4(given) => {
            let octets = ipv4_octets(given[0], given[1], given[2], given[3]);
            assert(octets == given);
            Ok(WireEndpoint { octets, port: remote.port })
        },
        RemoteIp::V6(_) => Err(AdapterError::UnsupportedAddressFamily),
    }
}

/// The word whose four bytes, from the most significant down, are
/// `b0`, `b1`, `b2` and zero.
pub open spec fn packed_bits(b0: u8, b1: u8, b2: u8) -> int {
    b0 * 0x100_0000 + b1 * 0x1_0000 + b2 * 0x100
}

/// Packs the first three bytes of `bytes` into the upper 24 bits of a word,
/// most significant byte first; the low byte of the result is zero.
pub fn make_bits(bytes: &[u8]) -> (bits: u32)
    requires
        bytes@.len() >= 3,
    ensures
        bits == packed_bits(bytes@[0], bytes@[1], bytes@[2]),
{
    let b0: u32 = bytes[0] as u32;
    let b1: u32 = bytes[1] as u32;
    let b2: u32 = bytes[2] as u32;
    assert(((b0 << 24) | (b1 << 16) | (b2 << 8) | 0) == b0 * 0x100_0000 + b1 * 0x1_0000 + b2
        * 0x100) by (bit_vector)
        requires
            b0 < 256,
            b1 < 256,
            b2 < 256,
    ;
    (b0 << 24) | (b1 << 16) | (b2 << 8) | 0
}

} // verus!
