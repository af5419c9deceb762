//! Capability gating: whether a parsed command is permitted against a
//! resolved device descriptor.
//!
//! Logo commands need the "logo" feature, boost fields of a power write need
//! the "boost" feature, and a fan-speed write must name a speed that appears
//! in the device's fan table (exact-match policy). Everything else is
//! permitted unconditionally.

use vstd::prelude::*;

use crate::args::{Args, ReadAttr, WriteAttr};
use crate::catalog::SupportedDevice;
use crate::error::ErrorKind;

verus! {

/// The command reads or writes the lid logo.
pub open spec fn requires_logo(cmd: Args) -> bool {
    ||| cmd matches Args::Read { attr: ReadAttr::Logo(_) }
    ||| cmd matches Args::Write { attr: WriteAttr::Logo(_) }
}

/// The command supplies a CPU or GPU boost field.
pub open spec fn requests_boost(cmd: Args) -> bool {
    cmd matches Args::Write { attr: WriteAttr::Power(p) } && (p.cpu_mode is Some
        || p.gpu_mode is Some)
}

/// The fan speed the command asks to write, if it is a fan write.
pub open spec fn fan_speed_request(cmd: Args) -> Option<i32> {
    match cmd {
        Args::Write { attr: WriteAttr::Fan(f) } => Some(f.speed),
        _ => None,
    }
}

/// The speed appears verbatim in the device's fan table.
pub open spec fn fan_table_contains(d: SupportedDevice, speed: i32) -> bool {
    exists|i: int| 0 <= i < d.fan@.len() && (#[trigger] d.fan@[i]) as i32 == speed
}

/// The device's descriptor permits the command.
pub open spec fn permitted(d: SupportedDevice, cmd: Args) -> bool {
    &&& (requires_logo(cmd) ==> d.spec_has_feature("logo"@))
    &&& (requests_boost(cmd) ==> d.spec_has_feature("boost"@))
    &&& (fan_speed_request(cmd) matches Some(s) ==> fan_table_contains(d, s))
}

/// A command that passed capability validation against some descriptor,
/// ready to hand to the transport layer.
#[derive(Debug, Copy, Clone, PartialEq, Eq)]
pub struct ValidatedCommand {
    pub cmd: Args,
}

fn fan_table_lookup(d: &SupportedDevice, speed: i32) -> (r: bool)
    ensures
        r == fan_table_contains(*d, speed),
{
    let mut i: usize = 0;
    while i < d.fan.len()
        invariant
            i <= d.fan@.len(),
            forall|j: int| 0 <= j < i ==> (#[trigger] d.fan@[j]) as i32 != speed,
        decreases d.fan@.len() - i,
    {
        if d.fan[i] as i32 == speed {
            return true;
        }
        i += 1;
    }
    false
}

/// Decide whether `cmd` is permitted against `device`.
///
/// Succeeds exactly on permitted commands and hands the command through
/// unchanged; a rejected command names the missing feature or the offending
/// field. The three checks apply to disjoint command shapes, so at most one
/// of them can reject.
pub fn validate(device: &SupportedDevice, cmd: Args) -> (r: Result<ValidatedCommand, ErrorKind>)
    ensures
        permitted(*device, cmd) <==> r is Ok,
        r matches Ok(v) ==> v.cmd == cmd,
        requires_logo(cmd) && !device.spec_has_feature("logo"@) ==> (r matches Err(e)
            && e matches ErrorKind::UnsupportedFeature(f) && f@ == "logo"@),
        requests_boost(cmd) && !device.spec_has_feature("boost"@) ==> (r matches Err(e)
            && e matches ErrorKind::UnsupportedFeature(f) && f@ == "boost"@),
        (fan_speed_request(cmd) matches Some(s) && !fan_table_contains(*device, s)) ==> (
        r matches Err(e) && e matches ErrorKind::InvalidArgument(f) && f@ == "speed"@),
    {
    let needs_logo = match &cmd {
        Args::Read { attr: ReadAttr::Logo(_) } => true,
        Args::Write { attr: WriteAttr::Logo(_) } => true,
        _ => false,
    };
    if needs_logo && !device.has_logo() {
        return Err(ErrorKind::UnsupportedFeature(String::from_str("logo")));
    }
    let needs_boost = match &cmd {
        Args::Write { attr: WriteAttr::Power(p) } => p.cpu_mode.is_some() || p.gpu_mode.is_some(),
        _ => false,
    };
    if needs_boost && !device.can_boost() {
        return Err(ErrorKind::UnsupportedFeature(String::from_str("boost")));
    }
    if let Args::Write { attr: WriteAttr::Fan(f) } = &cmd {
        if !fan_table_lookup(device, f.speed) {
            return Err(ErrorKind::InvalidArgument(String::from_str("speed")));
        }
    }
    Ok(ValidatedCommand { cmd })
}

} // verus!
