//! Plain models of IPv4 and IPv6 addresses, with the scope
//! classifications that address selection ranks by.
use vstd::prelude::*;

verus! {

/// An IPv4 address as its four octets, most significant first.
#[derive(Clone, Copy, Debug, PartialEq, Eq, Structural, Hash)]
pub struct V4Addr {
    pub o0: u8,
    pub o1: u8,
    pub o2: u8,
    pub o3: u8,
}

/// An IPv6 address as its eight 16-bit segments, most significant first.
#[derive(Clone, Copy, Debug, PartialEq, Eq, Structural, Hash)]
pub struct V6Addr {
    pub s0: u16,
    pub s1: u16,
    pub s2: u16,
    pub s3: u16,
    pub s4: u16,
    pub s5: u16,
    pub s6: u16,
    pub s7: u16,
}

/// An address of either family.
#[derive(Clone, Copy, Debug, PartialEq, Eq, Structural, Hash)]
pub enum IpAddress {
    V4(V4Addr),
    V6(V6Addr),
}

impl V4Addr {
    pub open spec fn spec_new(o0: u8, o1: u8, o2: u8, o3: u8) -> V4Addr {
        V4Addr { o0, o1, o2, o3 }
    }

    pub fn new(o0: u8, o1: u8, o2: u8, o3: u8) -> (r: V4Addr)
        ensures
            r == V4Addr::spec_new(o0, o1, o2, o3),
    {
        V4Addr { o0, o1, o2, o3 }
    }

    /// 127.0.0.0/8
    pub open spec fn spec_is_loopback(self) -> bool {
        self.o0 == 127
    }

    /// 169.254.0.0/16
    pub open spec fn spec_is_link_local(self) -> bool {
        self.o0 == 169 && self.o1 == 254
    }

    /// 10.0.0.0/8, 172.16.0.0/12, 192.168.0.0/16
    pub open spec fn spec_is_private(self) -> bool {
        self.o0 == 10 || (self.o0 == 172 && 16 <= self.o1 < 32) || (self.o0 == 192 && self.o1
            == 168)
    }

    /// 100.64.0.0/10
    pub open spec fn spec_is_shared(self) -> bool {
        self.o0 == 100 && 64 <= self.o1 < 128
    }

    /// 192.0.2.0/24, 198.51.100.0/24, 203.0.113.0/24
    pub open spec fn spec_is_documentation(self) -> bool {
        (self.o0 == 192 && self.o1 == 0 && self.o2 == 2) || (self.o0 == 198 && self.o1 == 51
            && self.o2 == 100) || (self.o0 == 203 && self.o1 == 0 && self.o2 == 113)
    }

    /// 198.18.0.0/15
    pub open spec fn spec_is_benchmarking(self) -> bool {
        self.o0 == 198 && (self.o1 == 18 || self.o1 == 19)
    }

    /// 255.255.255.255
    pub open spec fn spec_is_broadcast(self) -> bool {
        self.o0 == 255 && self.o1 == 255 && self.o2 == 255 && self.o3 == 255
    }

    /// 240.0.0.0/4, except the broadcast address
    pub open spec fn spec_is_reserved(self) -> bool {
        self.o0 >= 240 && !self.spec_is_broadcast()
    }

    /// Globally reachable: outside every special-purpose range
    /// (this-network, private, shared, loopback, link-local, the
    /// 192.0.0.0/24 protocol block except 192.0.0.9 and 192.0.0.10,
    /// documentation, benchmarking, reserved, broadcast).
    pub open spec fn spec_is_global(self) -> bool {
        !(self.o0 == 0 || self.spec_is_private() || self.spec_is_shared()
            || self.spec_is_loopback() || self.spec_is_link_local() || (self.o0 == 192 && self.o1
            == 0 && self.o2 == 0 && self.o3 != 9 && self.o3 != 10) || self.spec_is_documentation()
            || self.spec_is_benchmarking() || self.spec_is_reserved() || self.spec_is_broadcast())
    }

    pub fn is_loopback(&self) -> (r: bool)
        ensures
            r == self.spec_is_loopback(),
    {
        self.o0 == 127
    }

    pub fn is_link_local(&self) -> (r: bool)
        ensures
            r == self.spec_is_link_local(),
    {
        self.o0 == 169 && self.o1 == 254
    }

    pub fn is_private(&self) -> (r: bool)
        ensures
            r == self.spec_is_private(),
    {
        self.o0 == 10 || (self.o0 == 172 && 16 <= self.o1 && self.o1 < 32) || (self.o0 == 192
            && self.o1 == 168)
    }

    pub fn is_global(&self) -> (r: bool)
        ensures
            r == self.spec_is_global(),
    {
        let broadcast = self.o0 == 255 && self.o1 == 255 && self.o2 == 255 && self.o3 == 255;
        let documentation = (self.o0 == 192 && self.o1 == 0 && self.o2 == 2) || (self.o0 == 198
            && self.o1 == 51 && self.o2 == 100) || (self.o0 == 203 && self.o1 == 0 && self.o2
            == 113);
        !(self.o0 == 0 || self.is_private() || (self.o0 == 100 && 64 <= self.o1 && self.o1 < 128)
            || self.is_loopback() || self.is_link_local() || (self.o0 == 192 && self.o1 == 0
            && self.o2 == 0 && self.o3 != 9 && self.o3 != 10) || documentation || (self.o0 == 198
            && (self.o1 == 18 || self.o1 == 19)) || (self.o0 >= 240 && !broadcast) || broadcast)
    }
}

impl V6Addr {
    pub open spec fn spec_seg(self, i: int) -> u16 {
        if i == 0 {
            self.s0
        } else if i == 1 {
            self.s1
        } else if i == 2 {
            self.s2
        } else if i == 3 {
            self.s3
        } else if i == 4 {
            self.s4
        } else if i == 5 {
            self.s5
        } else if i == 6 {
            self.s6
        } else {
            self.s7
        }
    }

    /// The segment sequence, most significant first.
    pub open spec fn segs(self) -> Seq<u16> {
        seq![self.s0, self.s1, self.s2, self.s3, self.s4, self.s5, self.s6, self.s7]
    }

    /// ::
    pub open spec fn spec_is_unspecified(self) -> bool {
        self.s0 == 0 && self.s1 == 0 && self.s2 == 0 && self.s3 == 0 && self.s4 == 0 && self.s5
            == 0 && self.s6 == 0 && self.s7 == 0
    }

    /// ::1
    pub open spec fn spec_is_loopback(self) -> bool {
        self.s0 == 0 && self.s1 == 0 && self.s2 == 0 && self.s3 == 0 && self.s4 == 0 && self.s5
            == 0 && self.s6 == 0 && self.s7 == 1
    }

    /// fe80::/10
    pub open spec fn spec_is_unicast_link_local(self) -> bool {
        0xfe80 <= self.s0 <= 0xfebf
    }

    /// fc00::/7
    pub open spec fn spec_is_unique_local(self) -> bool {
        0xfc00 <= self.s0 <= 0xfdff
    }

    /// 2001:db8::/32 and 3fff::/20
    pub open spec fn spec_is_documentation(self) -> bool {
        (self.s0 == 0x2001 && self.s1 == 0xdb8) || (self.s0 == 0x3fff && self.s1 < 0x1000)
    }

    /// Globally reachable: outside every special-purpose range
    /// (unspecified, loopback, IPv4-mapped, IPv4-IPv6 translation,
    /// discard-only, the IETF protocol-assignment block except its
    /// globally reachable carve-outs, 6to4, documentation,
    /// segment-routing, unique-local, link-local).
    pub open spec fn spec_is_global(self) -> bool {
        !(self.spec_is_unspecified() || self.spec_is_loopback() || (self.s0 == 0 && self.s1 == 0
            && self.s2 == 0 && self.s3 == 0 && self.s4 == 0 && self.s5 == 0xffff) || (self.s0
            == 0x64 && self.s1 == 0xff9b && self.s2 == 1) || (self.s0 == 0x100 && self.s1 == 0
            && self.s2 == 0 && self.s3 == 0) || (self.s0 == 0x2001 && self.s1 < 0x200 && !(
        self.spec_is_pcp_anycast() || (self.s1 == 3) || (self.s1 == 4 && self.s2 == 0x112) || (0x20
            <= self.s1 <= 0x3f))) || self.s0 == 0x2002 || self.spec_is_documentation() || self.s0
            == 0x5f00 || self.spec_is_unique_local() || self.spec_is_unicast_link_local())
    }

    /// 2001:1::1 and 2001:1::2
    pub open spec fn spec_is_pcp_anycast(self) -> bool {
        self.s0 == 0x2001 && self.s1 == 1 && self.s2 == 0 && self.s3 == 0 && self.s4 == 0
            && self.s5 == 0 && self.s6 == 0 && (self.s7 == 1 || self.s7 == 2)
    }

    pub fn is_loopback(&self) -> (r: bool)
        ensures
            r == self.spec_is_loopback(),
    {
        self.s0 == 0 && self.s1 == 0 && self.s2 == 0 && self.s3 == 0 && self.s4 == 0 && self.s5
            == 0 && self.s6 == 0 && self.s7 == 1
    }

    pub fn is_unicast_link_local(&self) -> (r: bool)
        ensures
            r == self.spec_is_unicast_link_local(),
    {
        0xfe80 <= self.s0 && self.s0 <= 0xfebf
    }

    pub fn is_unique_local(&self) -> (r: bool)
        ensures
            r == self.spec_is_unique_local(),
    {
        0xfc00 <= self.s0 && self.s0 <= 0xfdff
    }

    pub fn is_global(&self) -> (r: bool)
        ensures
            r == self.spec_is_global(),
    {
        let unspecified = self.s0 == 0 && self.s1 == 0 && self.s2 == 0 && self.s3 == 0 && self.s4
            == 0 && self.s5 == 0 && self.s6 == 0 && self.s7 == 0;
        let pcp_anycast = self.s0 == 0x2001 && self.s1 == 1 && self.s2 == 0 && self.s3 == 0
            && self.s4 == 0 && self.s5 == 0 && self.s6 == 0 && (self.s7 == 1 || self.s7 == 2);
        let documentation = (self.s0 == 0x2001 && self.s1 == 0xdb8) || (self.s0 == 0x3fff
            && self.s1 < 0x1000);
        !(unspecified || self.is_loopback() || (self.s0 == 0 && self.s1 == 0 && self.s2 == 0
            && self.s3 == 0 && self.s4 == 0 && self.s5 == 0xffff) || (self.s0 == 0x64 && self.s1
            == 0xff9b && self.s2 == 1) || (self.s0 == 0x100 && self.s1 == 0 && self.s2 == 0
            && self.s3 == 0) || (self.s0 == 0x2001 && self.s1 < 0x200 && !(pcp_anycast || (self.s1
            == 3) || (self.s1 == 4 && self.s2 == 0x112) || (0x20 <= self.s1 && self.s1 <= 0x3f)))
            || self.s0 == 0x2002 || documentation || self.s0 == 0x5f00 || self.is_unique_local()
            || self.is_unicast_link_local())
    }

    /// The segment at position `i`, counting from the most significant.
    pub fn seg(&self, i: usize) -> (r: u16)
        requires
            i < 8,
        ensures
            r == self.spec_seg(i as int),
    {
        if i == 0 {
            self.s0
        } else if i == 1 {
            self.s1
        } else if i == 2 {
            self.s2
        } else if i == 3 {
            self.s3
        } else if i == 4 {
            self.s4
        } else if i == 5 {
            self.s5
        } else if i == 6 {
            self.s6
        } else {
            self.s7
        }
    }
}

impl IpAddress {
    pub open spec fn spec_is_v4(self) -> bool {
        self is V4
    }

    pub open spec fn spec_is_v6(self) -> bool {
        self is V6
    }
}

} // verus!
