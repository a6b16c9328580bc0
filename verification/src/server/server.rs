//! Which peers may use the node's local administration interface.
use vstd::prelude::*;

verus! {

/// A peer address: four octets, or eight 16-bit segments.
#[derive(Debug, Clone, Copy)]
pub enum IpAddress {
    V4([u8; 4]),
    V6([u16; 8]),
}

/// Whether an IPv4 address lies in a private, loopback or link-local range
/// (10/8, 172.16/12, 192.168/16, 127/8, 169.254/16).
pub open spec fn local_v4(o: Seq<u8>) -> bool {
    ||| o[0] == 10
    ||| (o[0] == 172 && 16 <= o[1] <= 31)
    ||| (o[0] == 192 && o[1] == 168)
    ||| o[0] == 127
    ||| (o[0] == 169 && o[1] == 254)
}

/// Whether an IPv6 address is unique-local (fc00::/7), link-local
/// (fe80::/10) or the loopback address `::1`.
pub open spec fn local_v6(s: Seq<u16>) -> bool {
    ||| 0xfc00 <= s[0] <= 0xfdff
    ||| 0xfe80 <= s[0] <= 0xfebf
    ||| (forall|i: int| 0 <= i < 7 ==> s[i] == 0) && s[7] == 1
}

/// Whether an address belongs to the local network.
pub open spec fn local_address(a: IpAddress) -> bool {
    match a {
        IpAddress::V4(o) => local_v4(o@),
        IpAddress::V6(s) => local_v6(s@),
    }
}

/// Whether `addr` belongs to the local network.
pub fn is_local_network(addr: IpAddress) -> (r: bool)
    ensures
        r == local_address(addr),
{
    match addr {
        IpAddress::V4(o) => {
            o[0] == 10 || (o[0] == 172 && 16 <= o[1] && o[1] <= 31) || (o[0] == 192 && o[1] == 168)
                || o[0] == 127 || (o[0] == 169 && o[1] == 254)
        },
        IpAddress::V6(s) => {
            let first: u16 = s[0];
            let ula = (first & 0xfe00) == 0xfc00;
            let link = (first & 0xffc0) == 0xfe80;
            assert(ula == (0xfc00 <= first <= 0xfdff)) by (bit_vector)
                requires
                    ula == ((first & 0xfe00) == 0xfc00),
            ;
            assert(link == (0xfe80 <= first <= 0xfebf)) by (bit_vector)
                requires
                    link == ((first & 0xffc0) == 0xfe80),
            ;
            let loopback = s[0] == 0 && s[1] == 0 && s[2] == 0 && s[3] == 0 && s[4] == 0 && s[5]
                == 0 && s[6] == 0 && s[7] == 1;
            assert(loopback == ((forall|i: int| 0 <= i < 7 ==> s@[i] == 0) && s@[7] == 1)) by {
                if (forall|i: int| 0 <= i < 7 ==> s@[i] == 0) && s@[7] == 1 {
                    assert(s@[0] == 0 && s@[1] == 0 && s@[2] == 0 && s@[3] == 0);
                    assert(s@[4] == 0 && s@[5] == 0 && s@[6] == 0);
                }
            }
            ula || link || loopback
        },
    }
}

/// Whether a peer may use the administration interface: it must be on the
/// local network unless the server runs with TLS.
pub fn is_allowed(addr: IpAddress, ssl: bool) -> (r: bool)
    ensures
        r == (local_address(addr) || ssl),
{
    is_local_network(addr) || ssl
}

} // verus!
