//! Discovery: which interfaces of the host take part, where the announce
//! is broadcast to, and which address the host reports as its own.
//!
//! An interface takes part unless its name marks it as a virtual adapter
//! or its address is loopback, link-local or in 198.18.0.0/15. The
//! announce goes to the /24 directed broadcast address of every interface
//! that takes part and has a private address, and to the limited broadcast
//! address where there is none.

use vstd::prelude::*;
use crate::control::{DeviceInfo, DeviceView};
use crate::protocol::{Message, MessageView};
use crate::text::{chars_of, contains_text, has_substring, lowercase_of, to_lowercase};
use crate::transport::{parse_frame, Transport};

verus! {

/// An IPv4 address, by its four octets.
#[derive(Debug, Clone, Copy, PartialEq, Eq, Structural)]
pub struct Ipv4 {
    pub a: u8,
    pub b: u8,
    pub c: u8,
    pub d: u8,
}

/// A network interface of the host with an IPv4 address.
#[derive(Debug, PartialEq, Eq)]
pub struct Interface {
    pub name: String,
    pub addr: Ipv4,
}

/// What an [`Interface`] is, with its name as a sequence of characters.
pub struct InterfaceView {
    pub name: Seq<char>,
    pub addr: Ipv4,
}

impl View for Interface {
    type V = InterfaceView;

    open spec fn view(&self) -> InterfaceView {
        InterfaceView { name: self.name@, addr: self.addr }
    }
}

/// The views of a list of interfaces.
pub open spec fn interface_views(list: Seq<Interface>) -> Seq<InterfaceView> {
    list.map_values(|i: Interface| i@)
}

/// The limited broadcast address.
pub open spec fn limited_broadcast() -> Ipv4 {
    Ipv4 { a: 255, b: 255, c: 255, d: 255 }
}

/// Whether a name in lowercase is that of a virtual or tunnel adapter.
pub open spec fn is_virtual_name(lowered: Seq<char>) -> bool {
    ||| contains_text(lowered, "virtualbox"@)
    ||| contains_text(lowered, "vmware"@)
    ||| contains_text(lowered, "hyper-v"@)
    ||| contains_text(lowered, "vethernet"@)
    ||| contains_text(lowered, "docker"@)
    ||| contains_text(lowered, "wsl"@)
}

/// Whether an address is loopback, link-local or in 198.18.0.0/15.
pub open spec fn is_excluded_range(ip: Ipv4) -> bool {
    ||| ip.a == 127
    ||| ip.a == 169 && ip.b == 254
    ||| ip.a == 198 && (ip.b == 18 || ip.b == 19)
}

/// Whether an address is in 192.168.0.0/16.
pub open spec fn is_home_range(ip: Ipv4) -> bool {
    ip.a == 192 && ip.b == 168
}

/// Whether an address is in 10.0.0.0/8 or 172.16.0.0/12.
pub open spec fn is_other_private(ip: Ipv4) -> bool {
    ip.a == 10 || (ip.a == 172 && 16 <= ip.b <= 31)
}

/// Whether an interface takes part in discovery.
pub open spec fn takes_part(i: InterfaceView) -> bool {
    !is_virtual_name(lowercase_of(i.name)) && !is_excluded_range(i.addr)
}

/// Whether the announce is broadcast on an interface.
pub open spec fn is_announced_on(i: InterfaceView) -> bool {
    takes_part(i) && (is_home_range(i.addr) || is_other_private(i.addr))
}

/// The /24 directed broadcast address of the network of `ip`.
pub open spec fn directed_broadcast(ip: Ipv4) -> Ipv4 {
    Ipv4 { d: 255, ..ip }
}

/// The directed broadcast addresses of `list`, one for each interface that
/// the announce is broadcast on, in the order of `list`.
pub open spec fn directed_targets(list: Seq<InterfaceView>) -> Seq<Ipv4> {
    list.filter(|i: InterfaceView| is_announced_on(i)).map_values(
        |i: InterfaceView| directed_broadcast(i.addr),
    )
}

/// Where the announce goes.
pub open spec fn broadcast_targets(list: Seq<InterfaceView>) -> Seq<Ipv4> {
    if directed_targets(list).len() == 0 {
        seq![limited_broadcast()]
    } else {
        directed_targets(list)
    }
}

/// Whether `k` is the first interface of `list` that takes part and whose
/// address is in the home range, or, with `home` false, in another private
/// range.
pub open spec fn first_private(list: Seq<InterfaceView>, home: bool, k: int) -> bool {
    &&& 0 <= k < list.len()
    &&& takes_part(list[k])
    &&& if home {
        is_home_range(list[k].addr)
    } else {
        is_other_private(list[k].addr)
    }
    &&& forall|j: int|
        0 <= j < k ==> !(takes_part(#[trigger] list[j]) && if home {
            is_home_range(list[j].addr)
        } else {
            is_other_private(list[j].addr)
        })
}

/// Whether `ip` is the address that the host reports as its own: the
/// first in the home range, else the first in another private range, of the
/// interfaces that take part; none where there is no such interface.
pub open spec fn is_local_ip(list: Seq<InterfaceView>, ip: Option<Ipv4>) -> bool {
    match ip {
        Some(addr) => {
            ||| exists|k: int| first_private(list, true, k) && list[k].addr == addr
            ||| (forall|k: int| !first_private(list, true, k)) && exists|k: int|
                first_private(list, false, k) && list[k].addr == addr
        },
        None => forall|k: int|
            0 <= k < list.len() ==> !(takes_part(#[trigger] list[k]) && (is_home_range(
                list[k].addr,
            ) || is_other_private(list[k].addr))),
    }
}

/// Whether a name in lowercase is that of a virtual or tunnel adapter.
pub fn is_virtual_adapter(lowered: &str) -> (res: bool)
    ensures
        res == is_virtual_name(lowered@),
{
    let hay = chars_of(lowered);
    has_substring(&hay, &chars_of("virtualbox")) || has_substring(&hay, &chars_of("vmware"))
        || has_substring(&hay, &chars_of("hyper-v")) || has_substring(&hay, &chars_of("vethernet"))
        || has_substring(&hay, &chars_of("docker")) || has_substring(&hay, &chars_of("wsl"))
}

/// Whether an address is loopback, link-local or in 198.18.0.0/15.
pub fn in_excluded_range(ip: Ipv4) -> (res: bool)
    ensures
        res == is_excluded_range(ip),
{
    ip.a == 127 || (ip.a == 169 && ip.b == 254) || (ip.a == 198 && (ip.b == 18 || ip.b == 19))
}

/// Whether an interface takes part in discovery.
pub fn participates(interface: &Interface) -> (res: bool)
    ensures
        res == takes_part(interface@),
{
    if in_excluded_range(interface.addr) {
        return false;
    }
    let lowered = to_lowercase(interface.name.as_str());
    !is_virtual_adapter(lowered.as_str())
}

fn in_home_range(ip: Ipv4) -> (res: bool)
    ensures
        res == is_home_range(ip),
{
    ip.a == 192 && ip.b == 168
}

fn in_other_private(ip: Ipv4) -> (res: bool)
    ensures
        res == is_other_private(ip),
{
    ip.a == 10 || (ip.a == 172 && 16 <= ip.b && ip.b <= 31)
}

/// Where the announce goes: the directed broadcast address of each
/// interface that takes part and has a private address, or the limited
/// broadcast address where there is none.
pub fn broadcast_addresses(interfaces: &Vec<Interface>) -> (targets: Vec<Ipv4>)
    ensures
        targets@ == broadcast_targets(interface_views(interfaces@)),
{
    let ghost list = interface_views(interfaces@);
    let ghost keep = |i: InterfaceView| is_announced_on(i);
    let ghost to = |i: InterfaceView| directed_broadcast(i.addr);
    let mut targets: Vec<Ipv4> = Vec::new();
    let mut k: usize = 0;
    while k < interfaces.len()
        invariant
            k <= interfaces@.len(),
            list == interface_views(interfaces@),
            keep == |i: InterfaceView| is_announced_on(i),
            to == |i: InterfaceView| directed_broadcast(i.addr),
            targets@ == list.subrange(0, k as int).filter(keep).map_values(to),
        decreases interfaces@.len() - k,
    {
        let interface = &interfaces[k];
        let ip = interface.addr;
        proof {
            reveal(Seq::filter);
            assert(list.subrange(0, k + 1).drop_last() =~= list.subrange(0, k as int));
            assert(list.subrange(0, k + 1).last() == interface@);
        }
        if (in_home_range(ip) || in_other_private(ip)) && participates(interface) {
            targets.push(Ipv4 { a: ip.a, b: ip.b, c: ip.c, d: 255 });
            assert(targets@ =~= list.subrange(0, k + 1).filter(keep).map_values(to));
        }
        k = k + 1;
    }
    assert(list.subrange(0, k as int) =~= list);
    if targets.len() == 0 {
        targets.push(Ipv4 { a: 255, b: 255, c: 255, d: 255 });
        assert(targets@ =~= seq![limited_broadcast()]);
    }
    targets
}

/// The address that the host reports as its own, where its interfaces
/// give one.
pub fn select_local_ip(interfaces: &Vec<Interface>) -> (ip: Option<Ipv4>)
    ensures
        is_local_ip(interface_views(interfaces@), ip),
{
    let ghost list = interface_views(interfaces@);
    let mut other: Option<Ipv4> = None;
    let ghost mut other_at: int = 0;
    let mut k: usize = 0;
    while k < interfaces.len()
        invariant
            k <= interfaces@.len(),
            list == interface_views(interfaces@),
            forall|j: int|
                0 <= j < k ==> !(takes_part(#[trigger] list[j]) && is_home_range(list[j].addr)),
            other matches Some(addr) ==> first_private(list, false, other_at) && other_at < k
                && list[other_at].addr == addr,
            other is None ==> forall|j: int|
                0 <= j < k ==> !(takes_part(#[trigger] list[j]) && is_other_private(
                    list[j].addr,
                )),
        decreases interfaces@.len() - k,
    {
        let interface = &interfaces[k];
        let ip = interface.addr;
        assert(list[k as int] == interface@);
        if in_home_range(ip) {
            if participates(interface) {
                assert(first_private(list, true, k as int));
                return Some(ip);
            }
        } else if in_other_private(ip) && other.is_none() {
            if participates(interface) {
                other = Some(ip);
                proof {
                    other_at = k as int;
                }
                assert(first_private(list, false, k as int));
            }
        }
        k = k + 1;
    }
    other
}

/// The announce of `device`, which listens for sessions on `port`.
pub open spec fn announce_of(device: DeviceView, port: u16) -> MessageView {
    MessageView::Discovery { id: device.id, name: device.name, port }
}

/// The announce of `device`, which listens for sessions on `port`.
pub fn announce(device: &DeviceInfo, port: u16) -> (message: Message)
    ensures
        message@ == announce_of(device@, port),
{
    Message::Discovery { id: device.id.clone(), name: device.name.clone(), port }
}

/// The announce that a datagram carries: the message of the frame it
/// starts with, where that is an announce.
pub open spec fn announce_in(datagram: Seq<u8>) -> Option<MessageView> {
    match parse_frame(datagram) {
        Ok((m, _)) => if m is Discovery {
            Some(m)
        } else {
            None
        },
        Err(_) => None,
    }
}

/// The receiving end of discovery: it hands on the announces and counts
/// the datagrams that carry none.
#[derive(Debug)]
pub struct Listener {
    /// How many datagrams were dropped; it stays at the largest value once
    /// it is reached.
    pub dropped: u64,
}

impl Listener {
    /// A listener that has dropped nothing.
    pub fn new() -> (listener: Self)
        ensures
            listener.dropped == 0,
    {
        Listener { dropped: 0 }
    }

    /// Takes one datagram: gives the announce it carries, or counts it as
    /// dropped.
    pub fn receive(&mut self, datagram: &[u8]) -> (res: Option<Message>)
        ensures
            crate::routing::opt_message(res) == announce_in(datagram@),
            res is Some ==> final(self).dropped == old(self).dropped,
            res is None ==> final(self).dropped == if old(self).dropped == u64::MAX {
                u64::MAX
            } else {
                (old(self).dropped + 1) as u64
            },
    {
        let found = match Transport::decode_frame(datagram) {
            Ok((m, _)) => match m {
                Message::Discovery { id, name, port } => Some(Message::Discovery { id, name, port }),
                _ => None,
            },
            Err(_) => None,
        };
        if found.is_none() && self.dropped < u64::MAX {
            self.dropped = self.dropped + 1;
        }
        found
    }
}

} // verus!
