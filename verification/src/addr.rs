//! Addresses as plain values, and the pairing of resolved addresses with a port.

use vstd::prelude::*;

verus! {

/// An IP address, held as the integer that its octets spell in network order.
#[derive(Clone, Copy, Debug, PartialEq, Eq, Structural)]
pub enum IpAddress {
    V4(u32),
    V6(u128),
}

/// An IP address together with a port.
#[derive(Clone, Copy, Debug, PartialEq, Eq, Structural)]
pub struct SocketAddress {
    pub ip: IpAddress,
    pub port: u16,
}

/// The integer that the octets `a.b.c.d` spell in network order.
pub open spec fn v4_bits(a: u8, b: u8, c: u8, d: u8) -> int {
    a * 0x100_0000 + b * 0x1_0000 + c * 0x100 + d
}

/// The addresses `ips`, each paired with `port`, in the order of `ips`.
pub open spec fn socket_addrs(ips: Seq<IpAddress>, port: u16) -> Seq<SocketAddress> {
    Seq::new(ips.len(), |i: int| SocketAddress { ip: ips[i], port })
}

impl IpAddress {
    /// The IPv4 address `a.b.c.d`.
    pub fn v4(a: u8, b: u8, c: u8, d: u8) -> (ip: IpAddress)
        ensures
            ip matches IpAddress::V4(bits) && bits == v4_bits(a, b, c, d),
    {
        let bits: u32 = (a as u32) * 0x100_0000 + (b as u32) * 0x1_0000 + (c as u32) * 0x100
            + (d as u32);
        IpAddress::V4(bits)
    }

    /// Whether this is an IPv4 address.
    pub fn is_ipv4(&self) -> (r: bool)
        ensures
            r == (*self is V4),
    {
        match self {
            IpAddress::V4(_) => true,
            IpAddress::V6(_) => false,
        }
    }
}

/// A single pass over the socket addresses of one lookup result: each resolved
/// address paired with the same port, handed out one at a time.
#[derive(Debug)]
pub struct SocketAddrs {
    ips: Vec<IpAddress>,
    pos: usize,
    port: u16,
}

impl SocketAddrs {
    #[verifier::type_invariant]
    spec fn in_bounds(self) -> bool {
        self.pos <= self.ips.len()
    }

    /// The addresses that have not been handed out yet, in order.
    pub closed spec fn remaining(self) -> Seq<SocketAddress> {
        socket_addrs(self.ips@.skip(self.pos as int), self.port)
    }

    /// Hands out the next address, or `None` once the lookup result is used up.
    pub fn next(&mut self) -> (r: Option<SocketAddress>)
        ensures
            old(self).remaining().len() == 0 ==> r is None && final(self).remaining()
                == old(self).remaining(),
            old(self).remaining().len() > 0 ==> r == Some(old(self).remaining()[0])
                && final(self).remaining() == old(self).remaining().skip(1),
    {
        proof {
            use_type_invariant(&*self);
        }
        if self.pos < self.ips.len() {
            let addr = SocketAddress { ip: self.ips[self.pos], port: self.port };
            self.pos = self.pos + 1;
            Some(addr)
        } else {
            None
        }
    }

    /// Hands out all the addresses that are left, at once.
    pub fn collect(self) -> (out: Vec<SocketAddress>)
        ensures
            out@ == self.remaining(),
    {
        proof {
            use_type_invariant(&self);
        }
        let mut out: Vec<SocketAddress> = Vec::new();
        let mut i: usize = self.pos;
        while i < self.ips.len()
            invariant
                self.pos <= i <= self.ips.len(),
                out@ == socket_addrs(self.ips@.subrange(self.pos as int, i as int), self.port),
            decreases self.ips.len() - i,
        {
            out.push(SocketAddress { ip: self.ips[i], port: self.port });
            i = i + 1;
        }
        out
    }
}

/// Turns a lookup result into the pass over its socket addresses: each
/// address paired with `port`, in the order in which the backend returned
/// them. Nothing is paired before it is asked for.
pub fn to_socket_addrs(lookup_result: Vec<IpAddress>, port: u16) -> (addrs: SocketAddrs)
    ensures
        addrs.remaining() == socket_addrs(lookup_result@, port),
{
    SocketAddrs { ips: lookup_result, pos: 0, port }
}

} // verus!
