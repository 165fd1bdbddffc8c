use vstd::prelude::*;

verus! {

/// An IP address by its octets: four for IPv4, sixteen for IPv6.
#[derive(Clone, Copy, Debug, PartialEq, Eq)]
pub enum IpAddress {
    V4([u8; 4]),
    V6([u8; 16]),
}

/// A socket address: an IP address and a port.
#[derive(Clone, Copy, Debug, PartialEq, Eq)]
pub struct SocketAddress {
    pub ip: IpAddress,
    pub port: u16,
}

/// The octets of an IP address, in network order.
pub open spec fn ip_octets(ip: IpAddress) -> Seq<u8> {
    match ip {
        IpAddress::V4(o) => o@,
        IpAddress::V6(o) => o@,
    }
}

/// A port as two bytes, most significant first.
pub open spec fn port_be(port: u16) -> Seq<u8> {
    seq![(port / 256) as u8, (port % 256) as u8]
}

impl IpAddress {
    /// The octets of this address, in network order.
    pub fn octets(&self) -> (r: Vec<u8>)
        ensures
            r@ == ip_octets(*self),
    {
        let mut r: Vec<u8> = Vec::new();
        match self {
            IpAddress::V4(o) => {
                let mut i: usize = 0;
                while i < 4
                    invariant
                        i <= 4,
                        r@ == o@.subrange(0, i as int),
                    decreases 4 - i,
                {
                    r.push(o[i]);
                    i = i + 1;
                }
                assert(r@ =~= o@);
            },
            IpAddress::V6(o) => {
                let mut i: usize = 0;
                while i < 16
                    invariant
                        i <= 16,
                        r@ == o@.subrange(0, i as int),
                    decreases 16 - i,
                {
                    r.push(o[i]);
                    i = i + 1;
                }
                assert(r@ =~= o@);
            },
        }
        r
    }
}

} // verus!
