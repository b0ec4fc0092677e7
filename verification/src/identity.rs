//! Who this host is on the network: its identifier and its descriptor.

use vstd::prelude::*;
use vstd::string::*;
use crate::control::{DeviceInfo, DeviceView};
use crate::text::{lowercase_of, text_of_char, to_lowercase};

verus! {

/// `s` with a dash in place of every space.
pub open spec fn dashed(s: Seq<char>) -> Seq<char> {
    s.map_values(|c: char| if c == ' ' {
        '-'
    } else {
        c
    })
}

/// The identifier of the host named `hostname`: `device-`, then the name
/// with dashes for spaces, in lowercase.
pub open spec fn device_id_of(hostname: Seq<char>) -> Seq<char> {
    "device-"@ + lowercase_of(dashed(hostname))
}

/// The descriptor of the host named `hostname` at the address `ip`.
pub open spec fn local_device_of(hostname: Seq<char>, ip: Seq<char>) -> DeviceView {
    DeviceView { id: device_id_of(hostname), name: hostname, ip, device_type: "DESKTOP"@ }
}

/// `s` with a dash in place of every space.
pub fn dash_spaces(s: &str) -> (res: String)
    ensures
        res@ == dashed(s@),
{
    broadcast use group_string_axioms;

    let mut res = String::new();
    for c in it: s.chars()
        invariant
            it.seq() == s@,
            res@ == dashed(it.seq().subrange(0, it.index() as int)),
    {
        let d = if c == ' ' {
            '-'
        } else {
            c
        };
        res.append(text_of_char(d).as_str());
        assert(res@ =~= dashed(it.seq().subrange(0, it.index() + 1)));
    }
    assert(s@.subrange(0, s@.len() as int) =~= s@);
    res
}

/// The identifier made of a host name that is already dashed and in
/// lowercase.
pub fn prefixed_id(lowered: &str) -> (id: String)
    ensures
        id@ == "device-"@ + lowered@,
{
    "device-".to_owned().concat(lowered)
}

/// The identifier of the host named `hostname`.
pub fn device_id(hostname: &str) -> (id: String)
    ensures
        id@ == device_id_of(hostname@),
{
    let dashed = dash_spaces(hostname);
    let lowered = to_lowercase(dashed.as_str());
    prefixed_id(lowered.as_str())
}

/// The descriptor of the host named `hostname` at the address `ip`.
pub fn local_device(hostname: &str, ip: String) -> (device: DeviceInfo)
    ensures
        device@ == local_device_of(hostname@, ip@),
{
    DeviceInfo {
        id: device_id(hostname),
        name: hostname.to_owned(),
        ip,
        device_type: "DESKTOP".to_owned(),
    }
}

} // verus!
