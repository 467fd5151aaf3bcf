use vstd::prelude::*;

verus! {

/// Transport protocol carried by a captured event.
#[derive(Debug, Clone, Copy, PartialEq, Eq, Structural)]
pub enum Proto {
    TCP,
    UDP,
}

/// Raw IPv4 socket address as the kernel reports it: the address as one
/// 32-bit integer whose most significant byte is the first octet.
#[derive(Debug, Clone, Copy, PartialEq, Eq, Structural)]
pub struct SockAddrV4 {
    pub ip: u32,
    pub port: u16,
}

/// Raw IPv6 socket address: the 128-bit address and the port.
#[derive(Debug, Clone, Copy, PartialEq, Eq, Structural)]
pub struct SockAddrV6 {
    pub ip: u128,
    pub port: u16,
}

/// A socket address of either family, as carried in an event record.
#[derive(Debug, Clone, Copy, PartialEq, Eq, Structural)]
pub enum Addr {
    V4(SockAddrV4),
    V6(SockAddrV6),
}

/// A resolved IP address: four octets in dotted-quad order, or 128 bits.
#[derive(Debug, Clone, Copy, PartialEq, Eq, Structural)]
pub enum HostIp {
    V4(u8, u8, u8, u8),
    V6(u128),
}

/// An endpoint in the analytics taxonomy: IP address and port.
#[derive(Debug, Clone, Copy, PartialEq, Eq, Structural)]
pub struct Host {
    pub ip: HostIp,
    pub port: u16,
}

/// The octets of a raw IPv4 address, most significant first.
pub open spec fn v4_octets(bits: u32) -> HostIp {
    HostIp::V4(
        (bits >> 24u32) as u8,
        (bits >> 16u32) as u8,
        (bits >> 8u32) as u8,
        bits as u8,
    )
}

/// The 32-bit value whose bytes, most significant first, are `a.b.c.d`.
pub open spec fn v4_bits(a: u8, b: u8, c: u8, d: u8) -> u32 {
    ((a as u32) << 24u32) | ((b as u32) << 16u32) | ((c as u32) << 8u32) | (d as u32)
}

/// The host an address denotes.
pub open spec fn host_of(addr: Addr) -> Host {
    match addr {
        Addr::V4(v) => Host { ip: v4_octets(v.ip), port: v.port },
        Addr::V6(v) => Host { ip: HostIp::V6(v.ip), port: v.port },
    }
}

/// Splits a raw IPv4 address into its four octets by shifting and masking.
pub fn octets(bits: u32) -> (r: HostIp)
    ensures
        r == v4_octets(bits),
{
    HostIp::V4((bits >> 24u32) as u8, (bits >> 16u32) as u8, (bits >> 8u32) as u8, bits as u8)
}

/// Converts a raw socket address into a host: IPv4 octets are put in
/// dotted-quad order, an IPv6 address is kept as is, the port is copied.
pub fn to_host(addr: Addr) -> (r: Host)
    ensures
        r == host_of(addr),
{
    match addr {
        Addr::V4(v) => Host { ip: octets(v.ip), port: v.port },
        Addr::V6(v) => Host { ip: HostIp::V6(v.ip), port: v.port },
    }
}

impl From<Addr> for Host {
    fn from(addr: Addr) -> (r: Host)
        ensures
            r == host_of(addr),
    {
        to_host(addr)
    }
}

impl vstd::std_specs::convert::FromSpecImpl<Addr> for Host {
    open spec fn obeys_from_spec() -> bool {
        true
    }

    open spec fn from_spec(addr: Addr) -> Host {
        host_of(addr)
    }
}

/// Re-encoding the octets of an IPv4 address with the same shifts gives
/// back the original 32-bit value.
pub proof fn lemma_v4_round_trip(bits: u32)
    ensures
        v4_octets(bits) matches HostIp::V4(a, b, c, d) && v4_bits(a, b, c, d) == bits,
{
    assert((((bits >> 24u32) as u8) as u32) << 24u32 | (((bits >> 16u32) as u8) as u32) << 16u32
        | (((bits >> 8u32) as u8) as u32) << 8u32 | ((bits as u8) as u32) == bits) by (bit_vector);
}

/// The host of an IPv4 address re-encodes to the address it came from.
pub proof fn lemma_host_round_trip(v: SockAddrV4)
    ensures
        host_of(Addr::V4(v)).ip matches HostIp::V4(a, b, c, d) && v4_bits(a, b, c, d) == v.ip,
        host_of(Addr::V4(v)).port == v.port,
{
    lemma_v4_round_trip(v.ip);
}

} // verus!
