//! The runtime handle that wacore's asynchronous operations are driven by.

use vstd::prelude::*;

use crate::jid::{Jid, JidView};

verus! {

/// Runtime-agnostic executor handle; it carries no state.
#[derive(Clone, Copy, Debug, PartialEq, Eq, Structural)]
pub struct RuntimeHandle;

impl RuntimeHandle {
    /// Create a new runtime handle.
    pub fn new() -> (r: Self)
        ensures
            r == RuntimeHandle,
    {
        RuntimeHandle
    }
}

/// The devices the server lists for one user.
#[derive(Debug)]
pub struct UserDevices {
    pub user: Jid,
    pub devices: Vec<u16>,
}

/// The user's JID with the device number `d`.
pub open spec fn with_device(j: JidView, d: u16) -> JidView {
    JidView { device: d, ..j }
}

/// The device JIDs of a device-list answer: for each user in order, the
/// user's JID once per listed device, carrying that device number.
pub open spec fn device_jids(lists: Seq<UserDevices>) -> Seq<JidView>
    decreases lists.len(),
{
    if lists.len() == 0 {
        Seq::empty()
    } else {
        device_jids(lists.drop_last())
            + lists.last().devices@.map_values(|d: u16| with_device(lists.last().user@, d))
    }
}

/// Expands a device-list answer into device JIDs.
pub fn expand_devices(lists: &Vec<UserDevices>) -> (r: Vec<Jid>)
    ensures
        r@.map_values(|j: Jid| j@) == device_jids(lists@),
{
    let mut out: Vec<Jid> = Vec::new();
    let mut i: usize = 0;
    while i < lists.len()
        invariant
            0 <= i <= lists@.len(),
            out@.map_values(|j: Jid| j@) == device_jids(lists@.take(i as int)),
        decreases lists.len() - i,
    {
        let entry = &lists[i];
        let ghost base = out@.map_values(|j: Jid| j@);
        let mut k: usize = 0;
        while k < entry.devices.len()
            invariant
                0 <= k <= entry.devices@.len(),
                out@.map_values(|j: Jid| j@) == base + entry.devices@.take(k as int).map_values(|d: u16| with_device(entry.user@, d)),
            decreases entry.devices.len() - k,
        {
            let d = entry.devices[k];
            let mut jid = entry.user.copy();
            jid.device = d;
            assert(jid@ == with_device(entry.user@, d));
            let ghost before = out@;
            out.push(jid);
            assert(out@.map_values(|j: Jid| j@) =~= before.map_values(|j: Jid| j@).push(with_device(entry.user@, d)));
            assert(entry.devices@.take(k as int + 1).map_values(|d: u16| with_device(entry.user@, d))
                =~= entry.devices@.take(k as int).map_values(|d: u16| with_device(entry.user@, d)).push(with_device(entry.user@, d)));
            k = k + 1;
            assert(out@.map_values(|j: Jid| j@) =~= base + entry.devices@.take(k as int).map_values(|d: u16| with_device(entry.user@, d)));
        }
        proof {
            assert(entry.devices@.take(k as int) =~= entry.devices@);
            assert(lists@.take(i as int + 1).drop_last() =~= lists@.take(i as int));
            assert(lists@.take(i as int + 1).last() == *entry);
        }
        i = i + 1;
    }
    assert(lists@.take(lists@.len() as int) =~= lists@);
    out
}

} // verus!
