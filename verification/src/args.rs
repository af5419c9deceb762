//! The command vocabulary: read/write attribute commands and lighting
//! effects, with their typed, range-constrained parameters.
//!
//! Parameters whose semantic domain is narrower than their storage width
//! (a wave direction, an effect kind, a power level, the boost modes, a logo
//! mode) are only constructible through a checked constructor that rejects
//! out-of-domain values with `ErrorKind::InvalidArgument` naming the field.

use vstd::prelude::*;

use crate::error::ErrorKind;

verus! {

/// Selects which of the two persisted profiles a command targets.
#[derive(Debug, Copy, Clone, PartialEq, Eq)]
pub enum AcState {
    /// On battery.
    Bat,
    /// Plugged in.
    Ac,
}

/// Two-state switch argument.
#[derive(Debug, Copy, Clone, PartialEq, Eq, PartialOrd, Ord)]
pub enum OnOff {
    On,
    Off,
}

impl OnOff {
    pub fn is_on(&self) -> (r: bool)
        ensures
            r == (*self is On),
    {
        matches!(self, Self::On)
    }
}

/// Profile selector argument shared by the profile-scoped read commands.
#[derive(Debug, Copy, Clone, PartialEq, Eq)]
pub struct AcStateParam {
    /// battery/plugged in
    pub ac_state: AcState,
}

/// Top level of the command taxonomy.
#[derive(Debug, Copy, Clone, PartialEq, Eq)]
pub enum Args {
    /// Read the current configuration of the device for some attribute.
    Read { attr: ReadAttr },
    /// Write a new configuration to the device for some attribute.
    Write { attr: WriteAttr },
    /// Write a standard effect.
    StandardEffect { effect: StandardEffect },
    /// Write a custom effect.
    Effect { effect: Effect },
}

/// Attributes that can be read back from the device.
#[derive(Debug, Copy, Clone, PartialEq, Eq)]
pub enum ReadAttr {
    /// Read the current fan speed.
    Fan(AcStateParam),
    /// Read the current power mode.
    Power(AcStateParam),
    /// Read the current brightness.
    Brightness(AcStateParam),
    /// Read the current logo mode.
    Logo(AcStateParam),
    /// Read the current sync mode.
    Sync,
    /// Read the current bho mode.
    Bho,
    /// Read if light control is enabled.
    LightControl,
}

/// Attributes that can be written to the device.
#[derive(Debug, Copy, Clone, PartialEq, Eq)]
pub enum WriteAttr {
    /// Set the fan speed.
    Fan(FanParams),
    /// Set the power mode.
    Power(PowerParams),
    /// Set the brightness of the keyboard.
    Brightness(BrightnessParams),
    /// Set the logo mode.
    Logo(LogoParams),
    /// Set sync.
    Sync(SyncParams),
    /// Set battery health optimization.
    Bho(BhoParams),
    /// Enable or disable light control.
    LightControl(LightControlParams),
}

/// Power-mode write: level 0..=4, optional CPU boost 0..=3 and GPU boost
/// 0..=2.
#[derive(Debug, Copy, Clone, PartialEq, Eq)]
pub struct PowerParams {
    /// battery/plugged in
    pub ac_state: AcState,
    /// power mode (0, 1, 2, 3 or 4)
    pub pwr: u8,
    /// cpu boost (0, 1, 2 or 3)
    pub cpu_mode: Option<u8>,
    /// gpu boost (0, 1 or 2)
    pub gpu_mode: Option<u8>,
}

/// All power-mode fields lie in their semantic domains.
pub open spec fn power_domain_ok(pwr: u8, cpu_mode: Option<u8>, gpu_mode: Option<u8>) -> bool {
    &&& pwr <= 4
    &&& (cpu_mode matches Some(c) ==> c <= 3)
    &&& (gpu_mode matches Some(g) ==> g <= 2)
}

impl PowerParams {
    /// Checked constructor; rejects each out-of-domain field by name, the
    /// power level first, then the CPU boost, then the GPU boost.
    pub fn new(ac_state: AcState, pwr: u8, cpu_mode: Option<u8>, gpu_mode: Option<u8>) -> (r:
        Result<PowerParams, ErrorKind>)
        ensures
            power_domain_ok(pwr, cpu_mode, gpu_mode) <==> r is Ok,
            r matches Ok(p) ==> p == (PowerParams { ac_state, pwr, cpu_mode, gpu_mode }),
            pwr > 4 ==> (r matches Err(e) && e matches ErrorKind::InvalidArgument(f) && f@
                == "pwr"@),
            pwr <= 4 && (cpu_mode matches Some(c) && c > 3) ==> (r matches Err(e) && e matches
                ErrorKind::InvalidArgument(f) && f@ == "cpu_mode"@),
            pwr <= 4 && (cpu_mode matches Some(c) ==> c <= 3) && (gpu_mode matches Some(g) && g
                > 2) ==> (r matches Err(e) && e matches ErrorKind::InvalidArgument(f) && f@
                == "gpu_mode"@),
    {
        if pwr > 4 {
            return Err(ErrorKind::InvalidArgument(String::from_str("pwr")));
        }
        if let Some(c) = cpu_mode {
            if c > 3 {
                return Err(ErrorKind::InvalidArgument(String::from_str("cpu_mode")));
            }
        }
        if let Some(g) = gpu_mode {
            if g > 2 {
                return Err(ErrorKind::InvalidArgument(String::from_str("gpu_mode")));
            }
        }
        Ok(PowerParams { ac_state, pwr, cpu_mode, gpu_mode })
    }
}

/// Fan-speed write; the speed is checked against the device's fan table at
/// validation time, not here.
#[derive(Debug, Copy, Clone, PartialEq, Eq)]
pub struct FanParams {
    /// battery/plugged in
    pub ac_state: AcState,
    /// fan speed in RPM
    pub speed: i32,
}

/// Keyboard brightness write.
#[derive(Debug, Copy, Clone, PartialEq, Eq)]
pub struct BrightnessParams {
    /// battery/plugged in
    pub ac_state: AcState,
    /// brightness
    pub brightness: i32,
}

/// Logo-mode write: mode 0, 1 or 2.
#[derive(Debug, Copy, Clone, PartialEq, Eq)]
pub struct LogoParams {
    /// battery/plugged in
    pub ac_state: AcState,
    /// logo mode (0, 1 or 2)
    pub logo_state: i32,
}

impl LogoParams {
    /// Checked constructor; the mode domain is {0, 1, 2}.
    pub fn new(ac_state: AcState, logo_state: i32) -> (r: Result<LogoParams, ErrorKind>)
        ensures
            0 <= logo_state <= 2 <==> r is Ok,
            r matches Ok(p) ==> p == (LogoParams { ac_state, logo_state }),
            !(0 <= logo_state <= 2) ==> (r matches Err(e) && e matches ErrorKind::InvalidArgument(
                f,
            ) && f@ == "logo_state"@),
    {
        if logo_state < 0 || logo_state > 2 {
            return Err(ErrorKind::InvalidArgument(String::from_str("logo_state")));
        }
        Ok(LogoParams { ac_state, logo_state })
    }
}

/// Sync write.
#[derive(Debug, Copy, Clone, PartialEq, Eq)]
pub struct SyncParams {
    pub sync_state: OnOff,
}

/// Battery health optimization write.
#[derive(Debug, Copy, Clone, PartialEq, Eq)]
pub struct BhoParams {
    pub state: OnOff,
    /// charging threshold
    pub threshold: Option<u8>,
}

/// Light-control write.
#[derive(Debug, Copy, Clone, PartialEq, Eq)]
pub struct LightControlParams {
    pub enable: OnOff,
}

/// Built-in lighting patterns.
#[derive(Debug, Copy, Clone, PartialEq, Eq)]
pub enum StandardEffect {
    Off,
    Wave(WaveParams),
    Reactive(ReactiveParams),
    Breathing(BreathingParams),
    Spectrum,
    Static(StaticParams),
    Starlight(StarlightParams),
}

/// Wave effect: direction 0 or 1.
#[derive(Debug, Copy, Clone, PartialEq, Eq)]
pub struct WaveParams {
    /// direction (0 or 1)
    pub direction: u8,
}

impl WaveParams {
    /// Checked constructor; the direction domain is {0, 1}.
    pub fn new(direction: u8) -> (r: Result<WaveParams, ErrorKind>)
        ensures
            direction <= 1 <==> r is Ok,
            r matches Ok(w) ==> w == (WaveParams { direction }),
            direction > 1 ==> (r matches Err(e) && e matches ErrorKind::InvalidArgument(f) && f@
                == "direction"@),
    {
        if direction > 1 {
            return Err(ErrorKind::InvalidArgument(String::from_str("direction")));
        }
        Ok(WaveParams { direction })
    }
}

/// Reactive effect; every field spans its full storage range.
#[derive(Debug, Copy, Clone, PartialEq, Eq)]
pub struct ReactiveParams {
    /// speed (0-255)
    pub speed: u8,
    /// red (0-255)
    pub red: u8,
    /// green (0-255)
    pub green: u8,
    /// blue (0-255)
    pub blue: u8,
}

/// Breathing effect: kind 0..=2 and two colors.
#[derive(Debug, Copy, Clone, PartialEq, Eq)]
pub struct BreathingParams {
    /// kind (0-2)
    pub kind: u8,
    /// red1 (0-255)
    pub red1: u8,
    /// green1 (0-255)
    pub green1: u8,
    /// blue1 (0-255)
    pub blue1: u8,
    /// red2 (0-255)
    pub red2: u8,
    /// green2 (0-255)
    pub green2: u8,
    /// blue2 (0-255)
    pub blue2: u8,
}

impl BreathingParams {
    /// Checked constructor; the kind domain is {0, 1, 2}.
    pub fn new(kind: u8, red1: u8, green1: u8, blue1: u8, red2: u8, green2: u8, blue2: u8) -> (r:
        Result<BreathingParams, ErrorKind>)
        ensures
            kind <= 2 <==> r is Ok,
            r matches Ok(p) ==> p == (BreathingParams {
                kind,
                red1,
                green1,
                blue1,
                red2,
                green2,
                blue2,
            }),
            kind > 2 ==> (r matches Err(e) && e matches ErrorKind::InvalidArgument(f) && f@
                == "kind"@),
    {
        if kind > 2 {
            return Err(ErrorKind::InvalidArgument(String::from_str("kind")));
        }
        Ok(BreathingParams { kind, red1, green1, blue1, red2, green2, blue2 })
    }
}

/// Starlight effect: kind 0..=2, a speed and two colors.
#[derive(Debug, Copy, Clone, PartialEq, Eq)]
pub struct StarlightParams {
    /// kind (0-2)
    pub kind: u8,
    /// speed (0-255)
    pub speed: u8,
    /// red1 (0-255)
    pub red1: u8,
    /// green1 (0-255)
    pub green1: u8,
    /// blue1 (0-255)
    pub blue1: u8,
    /// red2 (0-255)
    pub red2: u8,
    /// green2 (0-255)
    pub green2: u8,
    /// blue2 (0-255)
    pub blue2: u8,
}

impl StarlightParams {
    /// Checked constructor; the kind domain is {0, 1, 2}.
    pub fn new(
        kind: u8,
        speed: u8,
        red1: u8,
        green1: u8,
        blue1: u8,
        red2: u8,
        green2: u8,
        blue2: u8,
    ) -> (r: Result<StarlightParams, ErrorKind>)
        ensures
            kind <= 2 <==> r is Ok,
            r matches Ok(p) ==> p == (StarlightParams {
                kind,
                speed,
                red1,
                green1,
                blue1,
                red2,
                green2,
                blue2,
            }),
            kind > 2 ==> (r matches Err(e) && e matches ErrorKind::InvalidArgument(f) && f@
                == "kind"@),
    {
        if kind > 2 {
            return Err(ErrorKind::InvalidArgument(String::from_str("kind")));
        }
        Ok(StarlightParams { kind, speed, red1, green1, blue1, red2, green2, blue2 })
    }
}

/// Custom lighting patterns, defined purely by color/gradient/duration
/// parameters.
#[derive(Debug, Copy, Clone, PartialEq, Eq)]
pub enum Effect {
    Static(StaticParams),
    StaticGradient(StaticGradientParams),
    WaveGradient(WaveGradientParams),
    BreathingSingle(BreathingSingleParams),
}

/// Single static color.
#[derive(Debug, Copy, Clone, PartialEq, Eq)]
pub struct StaticParams {
    /// red (0-255)
    pub red: u8,
    /// green (0-255)
    pub green: u8,
    /// blue (0-255)
    pub blue: u8,
}

/// Static two-color gradient.
#[derive(Debug, Copy, Clone, PartialEq, Eq)]
pub struct StaticGradientParams {
    /// red1 (0-255)
    pub red1: u8,
    /// green1 (0-255)
    pub green1: u8,
    /// blue1 (0-255)
    pub blue1: u8,
    /// red2 (0-255)
    pub red2: u8,
    /// green2 (0-255)
    pub green2: u8,
    /// blue2 (0-255)
    pub blue2: u8,
}

/// Moving two-color gradient.
#[derive(Debug, Copy, Clone, PartialEq, Eq)]
pub struct WaveGradientParams {
    /// red1 (0-255)
    pub red1: u8,
    /// green1 (0-255)
    pub green1: u8,
    /// blue1 (0-255)
    pub blue1: u8,
    /// red2 (0-255)
    pub red2: u8,
    /// green2 (0-255)
    pub green2: u8,
    /// blue2 (0-255)
    pub blue2: u8,
}

/// Single-color breathing with a duration.
#[derive(Debug, Copy, Clone, PartialEq, Eq)]
pub struct BreathingSingleParams {
    /// red (0-255)
    pub red: u8,
    /// green (0-255)
    pub green: u8,
    /// blue (0-255)
    pub blue: u8,
    /// duration (0-255)
    pub duration: u8,
}

/// One parsed top-level command.
#[derive(Debug, Copy, Clone, PartialEq, Eq)]
pub struct Cli {
    pub args: Args,
}

} // verus!
