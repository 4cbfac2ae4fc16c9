//! Capabilities restricting which network addresses and ports a holder may
//! use.
//!
//! A capability pairs an address range with port ranges and is handed out at
//! board initialization; capsules prove possession of a visibility
//! capability before reading the layer of the capability that concerns them,
//! which keeps the network layers separate.

use vstd::prelude::*;

verus! {

broadcast use vstd::array::group_array_axioms;

/// Most addresses an address-set capability can enumerate.
pub const MAX_ADDR_SET_SIZE: usize = 16;

/// Most ports a port-set capability can enumerate.
pub const MAX_PORT_SET_SIZE: usize = 16;

/// A range of IPv4-sized addresses a capability allows.
#[derive(Debug, Clone, Copy, PartialEq)]
pub enum AddrRange {
    /// Any address.
    Any,
    /// No address at all.
    NoAddrs,
    /// Exactly the listed addresses.
    AddrSet([u32; MAX_ADDR_SET_SIZE]),
    /// Every address between the two bounds, inclusive.
    Range(u32, u32),
    /// One single address.
    Addr(u32),
}

/// Whether `addr` falls within the range.
pub open spec fn spec_addr_valid(range: AddrRange, addr: u32) -> bool {
    match range {
        AddrRange::Any => true,
        AddrRange::NoAddrs => false,
        AddrRange::AddrSet(allowed) => exists|i: int| 0 <= i < MAX_ADDR_SET_SIZE && allowed@[i] == addr,
        AddrRange::Range(low, high) => low <= addr <= high,
        AddrRange::Addr(allowed) => addr == allowed,
    }
}

/// Whether the address set lists `addr`.
fn addr_set_contains(allowed: &[u32; MAX_ADDR_SET_SIZE], addr: u32) -> (r: bool)
    ensures
        r == exists|i: int| 0 <= i < MAX_ADDR_SET_SIZE && allowed@[i] == addr,
{
    let mut i: usize = 0;
    while i < MAX_ADDR_SET_SIZE
        invariant
            i <= MAX_ADDR_SET_SIZE,
            forall|j: int| 0 <= j < i ==> allowed@[j] != addr,
        decreases MAX_ADDR_SET_SIZE - i,
    {
        if *vstd::array::array_index_get(allowed, i) == addr {
            proof {
                assert(allowed@[i as int] == addr);
            }
            return true;
        }
        i = i + 1;
    }
    false
}

impl AddrRange {
    /// Whether `addr` falls within the range.
    pub fn is_addr_valid(&self, addr: u32) -> (r: bool)
        ensures
            r == spec_addr_valid(*self, addr),
    {
        match self {
            AddrRange::Any => true,
            AddrRange::NoAddrs => false,
            AddrRange::AddrSet(allowed_addrs) => addr_set_contains(allowed_addrs, addr),
            AddrRange::Range(low, high) => *low <= addr && addr <= *high,
            AddrRange::Addr(allowed_addr) => addr == *allowed_addr,
        }
    }
}

/// A range of UDP ports a capability allows.
#[derive(Debug, Clone, Copy, PartialEq)]
pub enum PortRange {
    /// Any port.
    Any,
    /// No port at all.
    NoPorts,
    /// Exactly the listed ports.
    PortSet([u16; MAX_PORT_SET_SIZE]),
    /// Every port between the two bounds, inclusive.
    Range(u16, u16),
    /// One single port.
    Port(u16),
}

/// Whether `port` falls within the range.
pub open spec fn spec_port_valid(range: PortRange, port: u16) -> bool {
    match range {
        PortRange::Any => true,
        PortRange::NoPorts => false,
        PortRange::PortSet(allowed) => exists|i: int| 0 <= i < MAX_PORT_SET_SIZE && allowed@[i] == port,
        PortRange::Range(low, high) => low <= port <= high,
        PortRange::Port(allowed) => port == allowed,
    }
}

/// Whether the port set lists `port`.
fn port_set_contains(allowed: &[u16; MAX_PORT_SET_SIZE], port: u16) -> (r: bool)
    ensures
        r == exists|i: int| 0 <= i < MAX_PORT_SET_SIZE && allowed@[i] == port,
{
    let mut i: usize = 0;
    while i < MAX_PORT_SET_SIZE
        invariant
            i <= MAX_PORT_SET_SIZE,
            forall|j: int| 0 <= j < i ==> allowed@[j] != port,
        decreases MAX_PORT_SET_SIZE - i,
    {
        if *vstd::array::array_index_get(allowed, i) == port {
            proof {
                assert(allowed@[i as int] == port);
            }
            return true;
        }
        i = i + 1;
    }
    false
}

impl PortRange {
    /// Whether `port` falls within the range.
    pub fn is_port_valid(&self, port: u16) -> (r: bool)
        ensures
            r == spec_port_valid(*self, port),
    {
        match self {
            PortRange::Any => true,
            PortRange::NoPorts => false,
            PortRange::PortSet(allowed_ports) => port_set_contains(allowed_ports, port),
            PortRange::Range(low, high) => *low <= port && port <= *high,
            PortRange::Port(allowed_port) => port == *allowed_port,
        }
    }
}

/// An opaque descriptor that lets the holder send to a set of IP addresses.
#[derive(Clone, Copy, PartialEq)]
pub struct IpCapability {
    remote_addrs: AddrRange,
}

impl IpCapability {
    /// The range the capability allows.
    pub closed spec fn spec_range(&self) -> AddrRange {
        self.remote_addrs
    }

    /// Mint a capability for the given remote addresses. Only trusted
    /// board-initialization code may create capabilities.
    pub fn new(remote_addrs: AddrRange) -> (r: IpCapability)
        ensures
            r.spec_range() == remote_addrs,
    {
        IpCapability { remote_addrs }
    }

    /// The range the capability allows.
    pub fn get_range(&self) -> (r: AddrRange)
        ensures
            r == self.spec_range(),
    {
        self.remote_addrs
    }

    /// Whether the capability allows sending to `remote_addr`.
    pub fn remote_addr_valid(&self, remote_addr: u32) -> (r: bool)
        ensures
            r == spec_addr_valid(self.spec_range(), remote_addr),
    {
        self.remote_addrs.is_addr_valid(remote_addr)
    }
}

/// An opaque descriptor that lets the holder bind and send on UDP port
/// ranges.
#[derive(Clone, Copy, PartialEq)]
pub struct UdpCapability {
    remote_ports: PortRange,
    local_ports: PortRange,
}

impl UdpCapability {
    /// The destination ports the capability allows.
    pub closed spec fn spec_remote_ports(&self) -> PortRange {
        self.remote_ports
    }

    /// The source ports the capability allows.
    pub closed spec fn spec_local_ports(&self) -> PortRange {
        self.local_ports
    }

    /// Mint a capability for the given port ranges. Only trusted
    /// board-initialization code may create capabilities.
    pub fn new(remote_ports: PortRange, local_ports: PortRange) -> (r: UdpCapability)
        ensures
            r.spec_remote_ports() == remote_ports,
            r.spec_local_ports() == local_ports,
    {
        UdpCapability { remote_ports, local_ports }
    }

    /// The destination ports the capability allows.
    pub fn get_remote_ports(&self) -> (r: PortRange)
        ensures
            r == self.spec_remote_ports(),
    {
        self.remote_ports
    }

    /// The source ports the capability allows.
    pub fn get_local_ports(&self) -> (r: PortRange)
        ensures
            r == self.spec_local_ports(),
    {
        self.local_ports
    }

    /// Whether the capability allows sending to `remote_port`.
    pub fn remote_port_valid(&self, remote_port: u16) -> (r: bool)
        ensures
            r == spec_port_valid(self.spec_remote_ports(), remote_port),
    {
        self.remote_ports.is_port_valid(remote_port)
    }

    /// Whether the capability allows binding `local_port`.
    pub fn local_port_valid(&self, local_port: u16) -> (r: bool)
        ensures
            r == spec_port_valid(self.spec_local_ports(), local_port),
    {
        self.local_ports.is_port_valid(local_port)
    }
}

/// Mode marker: the UDP layer of the capability is visible.
#[derive(Clone, Copy, PartialEq)]
pub struct UdpMode;

/// Mode marker: the IP layer of the capability is visible.
#[derive(Clone, Copy, PartialEq)]
pub struct IpMode;

/// Mode marker: no layer of the capability is visible until a visibility
/// capability is shown.
#[derive(Clone, Copy, PartialEq)]
pub struct NeutralMode;

/// Possession proves the holder may read the UDP layer of a network
/// capability. Only trusted code implements it.
pub trait UdpVisCap {

}

/// Possession proves the holder may read the IP layer of a network
/// capability. Only trusted code implements it.
pub trait IpVisCap {

}

/// A capability bundling UDP and IP restrictions, unlocked layer by layer:
/// the mode records which layer the holder has proven it may read, and
/// converting between layers requires the matching visibility capability.
pub struct NetworkCapability<M> {
    udp_cap: UdpCapability,
    ip_cap: IpCapability,
    _mode: core::marker::PhantomData<M>,
}

impl NetworkCapability<NeutralMode> {
    /// Mint a network capability in neutral mode. Only trusted
    /// board-initialization code may create capabilities.
    pub fn new(udp_cap: UdpCapability, ip_cap: IpCapability) -> (r: NetworkCapability<NeutralMode>)
        ensures
            r.spec_udp_cap() == udp_cap,
            r.spec_ip_cap() == ip_cap,
    {
        NetworkCapability { udp_cap, ip_cap, _mode: core::marker::PhantomData }
    }
}

impl<M> NetworkCapability<M> {
    /// The UDP layer of the capability.
    pub closed spec fn spec_udp_cap(&self) -> UdpCapability {
        self.udp_cap
    }

    /// The IP layer of the capability.
    pub closed spec fn spec_ip_cap(&self) -> IpCapability {
        self.ip_cap
    }

    /// Unlock the UDP layer by showing a UDP visibility capability.
    pub fn into_udp_cap<T: UdpVisCap>(self, _udp_visibility_cap: &T) -> (r: NetworkCapability<
        UdpMode,
    >)
        ensures
            r.spec_udp_cap() == self.spec_udp_cap(),
            r.spec_ip_cap() == self.spec_ip_cap(),
    {
        NetworkCapability {
            udp_cap: self.udp_cap,
            ip_cap: self.ip_cap,
            _mode: core::marker::PhantomData,
        }
    }

    /// Unlock the IP layer by showing an IP visibility capability.
    pub fn into_ip_cap<T: IpVisCap>(self, _ip_visibility_cap: &T) -> (r: NetworkCapability<IpMode>)
        ensures
            r.spec_udp_cap() == self.spec_udp_cap(),
            r.spec_ip_cap() == self.spec_ip_cap(),
    {
        NetworkCapability {
            udp_cap: self.udp_cap,
            ip_cap: self.ip_cap,
            _mode: core::marker::PhantomData,
        }
    }

    /// Lock the capability back into neutral mode, so the next layer must
    /// prove possession of its visibility capability again.
    pub fn into_neutral_mode(self) -> (r: NetworkCapability<NeutralMode>)
        ensures
            r.spec_udp_cap() == self.spec_udp_cap(),
            r.spec_ip_cap() == self.spec_ip_cap(),
    {
        NetworkCapability {
            udp_cap: self.udp_cap,
            ip_cap: self.ip_cap,
            _mode: core::marker::PhantomData,
        }
    }
}

impl NetworkCapability<UdpMode> {
    /// The destination ports the capability allows.
    pub fn get_remote_ports(&self) -> (r: PortRange)
        ensures
            r == self.spec_udp_cap().spec_remote_ports(),
    {
        self.udp_cap.get_remote_ports()
    }

    /// The source ports the capability allows.
    pub fn get_local_ports(&self) -> (r: PortRange)
        ensures
            r == self.spec_udp_cap().spec_local_ports(),
    {
        self.udp_cap.get_local_ports()
    }
}

impl NetworkCapability<IpMode> {
    /// The remote addresses the capability allows.
    pub fn get_range(&self) -> (r: AddrRange)
        ensures
            r == self.spec_ip_cap().spec_range(),
    {
        self.ip_cap.get_range()
    }
}

} // verus!
