//! Candidate input devices, modeled by what the pipeline reads of them: the
//! display name and the set of event types the device supports. The scan
//! itself (enumerating and opening device nodes) is outside the library; it
//! hands over one [`DeviceInfo`] per device it could open.

use vstd::prelude::*;

use crate::errors::Mouse2JoyError;
use crate::events::EV_REL;

verus! {

/// What the pipeline knows of one candidate input source.
#[derive(Debug)]
pub struct DeviceInfo {
    /// The device's display name, when the device reports one.
    pub name: Option<String>,
    /// The event type codes the device's capability set declares.
    pub event_types: Vec<u16>,
}

impl DeviceInfo {
    /// The device's capability set includes relative-axis events, so it
    /// qualifies as a mouse-like input source.
    pub open spec fn supports_relative_spec(self) -> bool {
        self.event_types@.contains(EV_REL)
    }

    /// Decides whether the device qualifies: its capability set must include
    /// relative-axis events.
    pub fn supports_relative(&self) -> (r: bool)
        ensures
            r == self.supports_relative_spec(),
    {
        let mut i: usize = 0;
        while i < self.event_types.len()
            invariant
                i <= self.event_types@.len(),
                forall|j: int| 0 <= j < i ==> self.event_types@[j] != EV_REL,
            decreases self.event_types@.len() - i,
        {
            if self.event_types[i] == EV_REL {
                return true;
            }
            i += 1;
        }
        false
    }

    /// The device's display name, falling back to a fixed label when the
    /// device reports none.
    pub fn display_name(&self) -> (r: &str)
        ensures
            match self.name {
                Some(ref n) => r@ == n@,
                None => r@ == "Unknown Device"@,
            },
    {
        match &self.name {
            Some(n) => n.as_str(),
            None => "Unknown Device",
        }
    }
}

/// The subsequence of candidates whose capability sets include relative-axis
/// events, in scan order.
pub open spec fn qualifying(devices: Seq<DeviceInfo>) -> Seq<DeviceInfo>
    decreases devices.len(),
{
    if devices.len() == 0 {
        Seq::empty()
    } else if devices.last().supports_relative_spec() {
        qualifying(devices.drop_last()).push(devices.last())
    } else {
        qualifying(devices.drop_last())
    }
}

/// Filters the scanned devices down to those that qualify as mouse-like input
/// sources, keeping scan order. Fails with the fatal no-input-source error
/// exactly when no device qualifies.
pub fn scan_filter(devices: Vec<DeviceInfo>) -> (r: Result<Vec<DeviceInfo>, Mouse2JoyError>)
    ensures
        match r {
            Ok(kept) => kept@ == qualifying(devices@) && kept@.len() > 0,
            Err(e) => e == Mouse2JoyError::NoMouseError && qualifying(devices@).len() == 0,
        },
{
    let ghost orig: Seq<DeviceInfo> = devices@;
    let mut rest = devices;
    let mut kept: Vec<DeviceInfo> = Vec::new();
    while rest.len() > 0
        invariant
            rest@ == orig.skip(orig.len() - rest@.len()),
            rest@.len() <= orig.len(),
            kept@ == qualifying(orig.take(orig.len() - rest@.len())),
        decreases rest@.len(),
    {
        let ghost k: int = orig.len() - rest@.len();
        let d = rest.remove(0);
        proof {
            assert(d == orig[k]);
            assert(rest@ =~= orig.skip(k + 1));
            assert(orig.take(k + 1).drop_last() =~= orig.take(k));
            assert(orig.take(k + 1).last() == orig[k]);
        }
        if d.supports_relative() {
            kept.push(d);
        }
        proof {
            assert(kept@ == qualifying(orig.take(k + 1)));
        }
    }
    proof {
        assert(orig.take(orig.len() as int) =~= orig);
    }
    if kept.len() == 0 {
        Err(Mouse2JoyError::NoMouseError)
    } else {
        Ok(kept)
    }
}

/// Removes the device a validated 1-based selection names, handing it out
/// together with the remaining, non-selected candidates in their scan
/// order.
pub fn select_device(devices: Vec<DeviceInfo>, index: usize) -> (r: (DeviceInfo, Vec<DeviceInfo>))
    requires
        1 <= index <= devices@.len(),
    ensures
        r.0 == devices@[index - 1],
        r.1@ == devices@.remove(index - 1),
{
    let mut rest = devices;
    let chosen = rest.remove(index - 1);
    (chosen, rest)
}

} // verus!
