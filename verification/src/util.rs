//! Hardware and network addresses as plain bytes.

use vstd::prelude::*;

verus! {

/// A hardware (MAC) address: its six bytes in the order in which they are written.
#[derive(Clone, Copy, Debug, PartialEq, Eq, Structural)]
pub struct MacAddr(pub u8, pub u8, pub u8, pub u8, pub u8, pub u8);

/// An IPv4 address: its four bytes in the order in which they are written.
#[derive(Clone, Copy, Debug, PartialEq, Eq, Structural)]
pub struct Ipv4Octets(pub u8, pub u8, pub u8, pub u8);

/// The six bytes of `mac`.
pub open spec fn mac_seq(mac: MacAddr) -> Seq<u8> {
    seq![mac.0, mac.1, mac.2, mac.3, mac.4, mac.5]
}

/// The address that six bytes spell.
pub open spec fn seq_mac(b: Seq<u8>) -> MacAddr {
    MacAddr(b[0], b[1], b[2], b[3], b[4], b[5])
}

/// The four bytes of `ip`.
pub open spec fn ip_seq(ip: Ipv4Octets) -> Seq<u8> {
    seq![ip.0, ip.1, ip.2, ip.3]
}

/// The address that four bytes spell.
pub open spec fn seq_ip(b: Seq<u8>) -> Ipv4Octets {
    Ipv4Octets(b[0], b[1], b[2], b[3])
}

/// The address with these six bytes.
pub fn bytes_to_mac(bytes: &[u8; 6]) -> (r: MacAddr)
    ensures
        r == seq_mac(bytes@),
        mac_seq(r) == bytes@,
{
    let r = MacAddr(bytes[0], bytes[1], bytes[2], bytes[3], bytes[4], bytes[5]);
    proof {
        assert(mac_seq(r) =~= bytes@);
    }
    r
}

/// The six bytes of the address.
pub fn mac_to_bytes(mac: &MacAddr) -> (r: [u8; 6])
    ensures
        r@ == mac_seq(*mac),
        seq_mac(r@) == *mac,
{
    let r: [u8; 6] = [mac.0, mac.1, mac.2, mac.3, mac.4, mac.5];
    proof {
        assert(r@ =~= mac_seq(*mac));
    }
    r
}

/// The address read from the six bytes of `data` at `at`.
pub fn mac_at(data: &[u8], at: usize) -> (r: MacAddr)
    requires
        at + 6 <= data@.len(),
    ensures
        r == seq_mac(data@.subrange(at as int, at + 6)),
{
    MacAddr(data[at], data[at + 1], data[at + 2], data[at + 3], data[at + 4], data[at + 5])
}

/// Appends the six bytes of the address to `out`.
pub fn put_mac(out: &mut Vec<u8>, mac: &MacAddr)
    ensures
        final(out)@ == old(out)@ + mac_seq(*mac),
{
    out.push(mac.0);
    out.push(mac.1);
    out.push(mac.2);
    out.push(mac.3);
    out.push(mac.4);
    out.push(mac.5);
    proof {
        assert(out@ =~= old(out)@ + mac_seq(*mac));
    }
}

/// The address read from the four bytes of `data` at `at`.
pub fn ip_at(data: &[u8], at: usize) -> (r: Ipv4Octets)
    requires
        at + 4 <= data@.len(),
    ensures
        r == seq_ip(data@.subrange(at as int, at + 4)),
{
    Ipv4Octets(data[at], data[at + 1], data[at + 2], data[at + 3])
}

/// Appends the four bytes of the address to `out`.
pub fn put_ip(out: &mut Vec<u8>, ip: &Ipv4Octets)
    ensures
        final(out)@ == old(out)@ + ip_seq(*ip),
{
    out.push(ip.0);
    out.push(ip.1);
    out.push(ip.2);
    out.push(ip.3);
    proof {
        assert(out@ =~= old(out)@ + ip_seq(*ip));
    }
}

} // verus!
