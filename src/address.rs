use vstd::prelude::*;

use crate::error::Socks5Error;

verus! {

/// The address types that a CONNECT request or reply can carry.
#[derive(Clone, Copy, Debug, PartialEq, Eq, Structural)]
pub enum AddrType {
    IPv4,
    DomainName,
    IPv6,
}

/// The tag byte of each address type on the wire.
pub open spec fn addr_type_byte(t: AddrType) -> u8 {
    match t {
        AddrType::IPv4 => 0x01,
        AddrType::DomainName => 0x03,
        AddrType::IPv6 => 0x04,
    }
}

impl AddrType {
    /// The tag byte of this address type.
    pub fn as_byte(&self) -> (r: u8)
        ensures
            r == addr_type_byte(*self),
    {
        match self {
            AddrType::IPv4 => 0x01,
            AddrType::DomainName => 0x03,
            AddrType::IPv6 => 0x04,
        }
    }
}

/// The target that the proxy is asked to connect to.
#[allow(inconsistent_fields)]
#[derive(Clone, Debug)]
pub enum TargetAddress {
    IPv4 { octets: [u8; 4], port: u16 },
    IPv6 { octets: [u8; 16], port: u16 },
    /// A host name that the proxy resolves; `name` holds its bytes.
    Domain { name: Vec<u8>, port: u16 },
}

/// The largest length that a one-byte length prefix can announce.
pub const MAX_FIELD_LEN: usize = 255;

/// A port as two bytes, most significant first.
pub open spec fn port_bytes(port: u16) -> Seq<u8> {
    seq![(port / 256) as u8, (port % 256) as u8]
}

/// The port of a target.
pub open spec fn target_port(t: TargetAddress) -> u16 {
    match t {
        TargetAddress::IPv4 { port, .. } => port,
        TargetAddress::IPv6 { port, .. } => port,
        TargetAddress::Domain { port, .. } => port,
    }
}

/// A target can be written on the wire: a domain name fits its length byte.
pub open spec fn target_valid(t: TargetAddress) -> bool {
    match t {
        TargetAddress::Domain { name, .. } => name@.len() <= 255,
        _ => true,
    }
}

/// The address type byte and the address bytes of a target, as a request
/// carries them (a domain name behind its length byte).
pub open spec fn address_field(t: TargetAddress) -> Seq<u8> {
    match t {
        TargetAddress::IPv4 { octets, .. } => seq![0x01u8] + octets@,
        TargetAddress::IPv6 { octets, .. } => seq![0x04u8] + octets@,
        TargetAddress::Domain { name, .. } => seq![0x03u8, name@.len() as u8] + name@,
    }
}

/// The CONNECT request for a target: version, command, reserved byte, the
/// address field and the port.
pub open spec fn request_bytes(t: TargetAddress) -> Seq<u8> {
    seq![0x05u8, 0x01u8, 0x00u8] + address_field(t) + port_bytes(target_port(t))
}

impl TargetAddress {
    /// The address type of this target.
    pub fn addr_type(&self) -> (r: AddrType)
        ensures
            r == match *self {
                TargetAddress::IPv4 { .. } => AddrType::IPv4,
                TargetAddress::IPv6 { .. } => AddrType::IPv6,
                TargetAddress::Domain { .. } => AddrType::DomainName,
            },
    {
        match self {
            TargetAddress::IPv4 { .. } => AddrType::IPv4,
            TargetAddress::IPv6 { .. } => AddrType::IPv6,
            TargetAddress::Domain { .. } => AddrType::DomainName,
        }
    }

    /// The port of this target.
    pub fn port(&self) -> (r: u16)
        ensures
            r == target_port(*self),
    {
        match self {
            TargetAddress::IPv4 { port, .. } => *port,
            TargetAddress::IPv6 { port, .. } => *port,
            TargetAddress::Domain { port, .. } => *port,
        }
    }
}

/// Appends the bytes of `s` to `v`.
pub fn push_all(v: &mut Vec<u8>, s: &[u8])
    ensures
        final(v)@ == old(v)@ + s@,
{
    let mut i: usize = 0;
    while i < s.len()
        invariant
            0 <= i <= s@.len(),
            v@ == old(v)@ + s@.subrange(0, i as int),
        decreases s@.len() - i,
    {
        v.push(s[i]);
        i = i + 1;
        assert(s@.subrange(0, i as int) == s@.subrange(0, i - 1) + seq![s@[i - 1]]);
    }
    assert(s@.subrange(0, s@.len() as int) == s@);
}

/// Appends a port to `v`, most significant byte first.
pub fn push_port(v: &mut Vec<u8>, port: u16)
    ensures
        final(v)@ == old(v)@ + port_bytes(port),
{
    v.push((port / 256) as u8);
    v.push((port % 256) as u8);
    assert(final(v)@ =~= old(v)@ + port_bytes(port));
}

/// Encodes the CONNECT request for `target`.
///
/// A domain name longer than 255 bytes cannot be announced by its length
/// byte and is refused with `UnsupportedAddressType`; nothing is truncated.
pub fn connect_request(target: &TargetAddress) -> (r: Result<Vec<u8>, Socks5Error>)
    ensures
        r is Ok <==> target_valid(*target),
        r matches Ok(v) ==> v@ == request_bytes(*target),
        r matches Err(e) ==> e == Socks5Error::UnsupportedAddressType,
{
    let mut request: Vec<u8> = vec![0x05, 0x01, 0x00];
    let ghost head = request@;
    request.push(target.addr_type().as_byte());
    match target {
        TargetAddress::IPv4 { octets, .. } => {
            push_all(&mut request, octets.as_slice());
        },
        TargetAddress::IPv6 { octets, .. } => {
            push_all(&mut request, octets.as_slice());
        },
        TargetAddress::Domain { name, .. } => {
            if name.len() > MAX_FIELD_LEN {
                return Err(Socks5Error::UnsupportedAddressType);
            }
            request.push(name.len() as u8);
            push_all(&mut request, name.as_slice());
        },
    }
    assert(request@ =~= head + address_field(*target));
    push_port(&mut request, target.port());
    assert(request@ =~= request_bytes(*target));
    Ok(request)
}

/// For every IPv4 target A.B.C.D:P the CONNECT request is
/// `05 01 00 01 A B C D Phi Plo`.
pub proof fn ipv4_request_layout(octets: [u8; 4], port: u16)
    ensures
        request_bytes(TargetAddress::IPv4 { octets, port }) == seq![
            0x05u8,
            0x01u8,
            0x00u8,
            0x01u8,
            octets[0],
            octets[1],
            octets[2],
            octets[3],
            (port >> 8u16) as u8,
            (port & 0xffu16) as u8,
        ],
{
    assert((port >> 8u16) == port / 256 && (port & 0xffu16) == port % 256) by (bit_vector);
    assert(request_bytes(TargetAddress::IPv4 { octets, port }) =~= seq![
        0x05u8,
        0x01u8,
        0x00u8,
        0x01u8,
        octets[0],
        octets[1],
        octets[2],
        octets[3],
        (port >> 8u16) as u8,
        (port & 0xffu16) as u8,
    ]);
}

} // verus!
