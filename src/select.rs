//! Choosing the local bind address from the host's network interfaces.
use vstd::prelude::*;

use crate::address::{spec_localhost_v4, IpAddress, Ipv4Address, SocketEndpoint};

verus! {

/// The family tag that the operating system gives an interface address.
#[derive(Clone, Copy, Debug, PartialEq, Eq, Structural)]
pub enum AddressKind {
    Ipv4,
    Ipv6,
    Link,
    Packet,
    Unknown(i32),
}

/// One address of an interface: its family tag and, where it applies, the
/// address itself.
#[derive(Clone, Copy, Debug, PartialEq, Eq, Structural)]
pub struct InterfaceAddress {
    pub kind: AddressKind,
    pub addr: Option<IpAddress>,
}

/// A network interface as the operating system reports it.
#[derive(Clone, Debug)]
pub struct NetworkInterface {
    pub name: String,
    pub up: bool,
    pub running: bool,
    pub loopback: bool,
    pub addresses: Vec<InterfaceAddress>,
}

/// An interface is a candidate when it is up, running and not the loopback.
pub open spec fn is_online(nic: NetworkInterface) -> bool {
    nic.up && nic.running && !nic.loopback
}

/// An address entry is usable when it is tagged IPv4 and carries an address.
pub open spec fn is_usable(a: InterfaceAddress) -> bool {
    a.kind == AddressKind::Ipv4 && a.addr is Some
}

/// The address of the first usable entry, if any.
pub open spec fn first_ipv4(addrs: Seq<InterfaceAddress>) -> Option<IpAddress>
    decreases addrs.len(),
{
    if addrs.len() == 0 {
        None
    } else if is_usable(addrs[0]) {
        addrs[0].addr
    } else {
        first_ipv4(addrs.drop_first())
    }
}

/// What one interface offers: its first IPv4 address, if it is online.
pub open spec fn offered_ip(nic: NetworkInterface) -> Option<IpAddress> {
    if is_online(nic) {
        first_ipv4(nic.addresses@)
    } else {
        None
    }
}

/// The address offered by the first interface, in enumeration order, that
/// offers one.
pub open spec fn assigned_ip(nics: Seq<NetworkInterface>) -> Option<IpAddress>
    decreases nics.len(),
{
    if nics.len() == 0 {
        None
    } else if offered_ip(nics[0]) is Some {
        offered_ip(nics[0])
    } else {
        assigned_ip(nics.drop_first())
    }
}

/// The local endpoint: the assigned address, or 127.0.0.1 when there is
/// none, with the given port.
pub open spec fn local_endpoint(nics: Seq<NetworkInterface>, port: u16) -> SocketEndpoint {
    SocketEndpoint {
        ip: match assigned_ip(nics) {
            Some(ip) => ip,
            None => spec_localhost_v4(),
        },
        port,
    }
}

/// If no entry before `i` is usable and entry `i` is, `first_ipv4` is the
/// address of entry `i`; if no entry at all is usable, it is `None`.
proof fn lemma_first_ipv4_at(addrs: Seq<InterfaceAddress>, i: int)
    requires
        0 <= i <= addrs.len(),
        forall|j: int| 0 <= j < i ==> !is_usable(#[trigger] addrs[j]),
    ensures
        i < addrs.len() && is_usable(addrs[i]) ==> first_ipv4(addrs) == addrs[i].addr,
        i == addrs.len() ==> first_ipv4(addrs) is None,
    decreases i,
{
    if i > 0 {
        let rest = addrs.drop_first();
        assert forall|j: int| 0 <= j < i - 1 implies !is_usable(#[trigger] rest[j]) by {
            assert(rest[j] == addrs[j + 1]);
        }
        assert(!is_usable(addrs[0]));
        lemma_first_ipv4_at(rest, i - 1);
        if i < addrs.len() {
            assert(rest[i - 1] == addrs[i]);
        }
    }
}

/// If no interface before `i` offers an address and interface `i` does,
/// `assigned_ip` is that address; if none offers one, it is `None`.
pub proof fn lemma_assigned_ip_at(nics: Seq<NetworkInterface>, i: int)
    requires
        0 <= i <= nics.len(),
        forall|j: int| 0 <= j < i ==> offered_ip(#[trigger] nics[j]) is None,
    ensures
        i < nics.len() && offered_ip(nics[i]) is Some ==> assigned_ip(nics) == offered_ip(nics[i]),
        i == nics.len() ==> assigned_ip(nics) is None,
    decreases i,
{
    if i > 0 {
        let rest = nics.drop_first();
        assert forall|j: int| 0 <= j < i - 1 implies offered_ip(#[trigger] rest[j]) is None by {
            assert(rest[j] == nics[j + 1]);
        }
        assert(offered_ip(nics[0]) is None);
        lemma_assigned_ip_at(rest, i - 1);
        if i < nics.len() {
            assert(rest[i - 1] == nics[i]);
        }
    }
}

/// The first usable IPv4 address among an interface's address entries.
fn first_usable_ipv4(addrs: &Vec<InterfaceAddress>) -> (r: Option<IpAddress>)
    ensures
        r == first_ipv4(addrs@),
{
    let mut i: usize = 0;
    while i < addrs.len()
        invariant
            0 <= i <= addrs.len(),
            forall|j: int| 0 <= j < i ==> !is_usable(#[trigger] addrs@[j]),
        decreases addrs.len() - i,
    {
        let entry = addrs[i];
        if entry.kind == AddressKind::Ipv4 && entry.addr.is_some() {
            proof {
                lemma_first_ipv4_at(addrs@, i as int);
            }
            return entry.addr;
        }
        i = i + 1;
    }
    proof {
        lemma_first_ipv4_at(addrs@, i as int);
    }
    None
}

/// The first IPv4 address of the first interface, in enumeration order, that
/// is up, running and not the loopback and has one.
pub fn find_assigned_ip(nics: &Vec<NetworkInterface>) -> (r: Option<IpAddress>)
    ensures
        r == assigned_ip(nics@),
{
    let mut i: usize = 0;
    while i < nics.len()
        invariant
            0 <= i <= nics.len(),
            forall|j: int| 0 <= j < i ==> offered_ip(#[trigger] nics@[j]) is None,
        decreases nics.len() - i,
    {
        let nic = &nics[i];
        if nic.up && nic.running && !nic.loopback {
            let found = first_usable_ipv4(&nic.addresses);
            if found.is_some() {
                proof {
                    lemma_assigned_ip_at(nics@, i as int);
                }
                return found;
            }
        }
        i = i + 1;
    }
    proof {
        lemma_assigned_ip_at(nics@, i as int);
    }
    None
}

/// The endpoint to bind locally on `port`: the first usable interface
/// address, or 127.0.0.1 when no interface offers one.
pub fn default_local_address(nics: &Vec<NetworkInterface>, port: u16) -> (r: SocketEndpoint)
    ensures
        r == local_endpoint(nics@, port),
        nics@.len() == 0 ==> r == (SocketEndpoint { ip: spec_localhost_v4(), port }),
{
    let ip = match find_assigned_ip(nics) {
        Some(ip) => ip,
        None => Ipv4Address::localhost(),
    };
    SocketEndpoint::new(ip, port)
}

/// With no interfaces at all, the local endpoint is 127.0.0.1 on the given
/// port.
pub proof fn lemma_no_interfaces_falls_back(port: u16)
    ensures
        local_endpoint(Seq::<NetworkInterface>::empty(), port) == (SocketEndpoint {
            ip: spec_localhost_v4(),
            port,
        }),
{
}

/// When exactly one interface is up, running, not the loopback and has an
/// IPv4 address, the local endpoint is that interface's first IPv4 address,
/// whatever other interfaces (down, loopback, without IPv4) stand beside it.
pub proof fn lemma_single_candidate_selected(
    nics: Seq<NetworkInterface>,
    i: int,
    a: IpAddress,
    port: u16,
)
    requires
        0 <= i < nics.len(),
        is_online(nics[i]),
        first_ipv4(nics[i].addresses@) == Some(a),
        forall|j: int| 0 <= j < nics.len() && j != i ==> offered_ip(#[trigger] nics[j]) is None,
    ensures
        local_endpoint(nics, port) == (SocketEndpoint { ip: a, port }),
{
    lemma_assigned_ip_at(nics, i);
}

/// Among candidate interfaces the first in enumeration order wins: when
/// interface `i` offers `a`, a later interface `k` offers `b`, and none before
/// `i` offers anything, the local endpoint uses `a`.
pub proof fn lemma_first_candidate_wins(
    nics: Seq<NetworkInterface>,
    i: int,
    k: int,
    a: IpAddress,
    b: IpAddress,
    port: u16,
)
    requires
        0 <= i < k < nics.len(),
        offered_ip(nics[i]) == Some(a),
        offered_ip(nics[k]) == Some(b),
        forall|j: int| 0 <= j < i ==> offered_ip(#[trigger] nics[j]) is None,
    ensures
        local_endpoint(nics, port) == (SocketEndpoint { ip: a, port }),
{
    lemma_assigned_ip_at(nics, i);
}

} // verus!
