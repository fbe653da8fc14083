//! Enumerations carried inside payload fields.
//!
//! Each enumeration travels on the wire as a fixed-width integer.  Decoding
//! is strict: a value outside the documented set is rejected as a protocol
//! error rather than silently mapped to a default, so truly unknown device
//! behaviour surfaces instead of being masked.

use vstd::prelude::*;

verus! {

/// What services are exposed by the device.
///
/// LIFX only documents the UDP service, though bulbs may support other
/// undocumented services.
#[derive(Debug, Copy, Clone, PartialEq, Eq, Structural)]
pub enum Service {
    UDP,
    Reserved1,
    Reserved2,
    Reserved3,
    Reserved4,
}

impl Service {
    /// Wire value of this variant.
    pub open spec fn spec_byte(self) -> u8 {
        match self {
            Service::UDP => 1,
            Service::Reserved1 => 2,
            Service::Reserved2 => 3,
            Service::Reserved3 => 4,
            Service::Reserved4 => 5,
        }
    }

    /// Whether `b` names a documented service.
    pub open spec fn spec_valid(b: u8) -> bool {
        1 <= b <= 5
    }

    /// The service named by `b`; meaningful only when `spec_valid(b)`.
    pub open spec fn spec_of(b: u8) -> Service {
        if b == 2 {
            Service::Reserved1
        } else if b == 3 {
            Service::Reserved2
        } else if b == 4 {
            Service::Reserved3
        } else if b == 5 {
            Service::Reserved4
        } else {
            Service::UDP
        }
    }

    /// Encodes this service as its wire byte.
    pub fn to_byte(self) -> (r: u8)
        ensures
            r == self.spec_byte(),
    {
        match self {
            Service::UDP => 1,
            Service::Reserved1 => 2,
            Service::Reserved2 => 3,
            Service::Reserved3 => 4,
            Service::Reserved4 => 5,
        }
    }

    /// Decodes a wire byte; `None` exactly on undocumented values.
    pub fn from_byte(b: u8) -> (r: Option<Service>)
        ensures
            r matches Some(s) ==> Self::spec_valid(b) && s == Self::spec_of(b),
            r is None <==> !Self::spec_valid(b),
    {
        match b {
            1 => Some(Service::UDP),
            2 => Some(Service::Reserved1),
            3 => Some(Service::Reserved2),
            4 => Some(Service::Reserved3),
            5 => Some(Service::Reserved4),
            _ => None,
        }
    }
}

/// Device power level: only standby (0) and full power (65535) exist on the
/// wire.
#[derive(Debug, Copy, Clone, PartialEq, Eq, Structural)]
pub enum PowerLevel {
    Standby,
    Enabled,
}

impl PowerLevel {
    /// Wire value of this variant.
    pub open spec fn spec_word(self) -> u16 {
        match self {
            PowerLevel::Standby => 0,
            PowerLevel::Enabled => 65535,
        }
    }

    /// Whether `w` names a documented power level.
    pub open spec fn spec_valid(w: u16) -> bool {
        w == 0 || w == 65535
    }

    /// The power level named by `w`; meaningful only when `spec_valid(w)`.
    pub open spec fn spec_of(w: u16) -> PowerLevel {
        if w == 0 {
            PowerLevel::Standby
        } else {
            PowerLevel::Enabled
        }
    }

    /// Encodes this power level as its wire word.
    pub fn to_word(self) -> (r: u16)
        ensures
            r == self.spec_word(),
    {
        match self {
            PowerLevel::Standby => 0,
            PowerLevel::Enabled => 65535,
        }
    }

    /// Decodes a wire word; `None` exactly on undocumented values.
    pub fn from_word(w: u16) -> (r: Option<PowerLevel>)
        ensures
            r matches Some(p) ==> Self::spec_valid(w) && p == Self::spec_of(w),
            r is None <==> !Self::spec_valid(w),
    {
        match w {
            0 => Some(PowerLevel::Standby),
            65535 => Some(PowerLevel::Enabled),
            _ => None,
        }
    }
}

/// Controls how and when multizone devices apply colour changes.
#[derive(Debug, Copy, Clone, PartialEq, Eq, Structural)]
pub enum ApplicationRequest {
    /// Don't apply the requested changes until a message with Apply or
    /// ApplyOnly is sent.
    NoApply,
    /// Apply the changes immediately and apply any pending changes.
    Apply,
    /// Ignore the requested changes in this message and only apply pending
    /// changes.
    ApplyOnly,
}

impl ApplicationRequest {
    /// Wire value of this variant.
    pub open spec fn spec_byte(self) -> u8 {
        match self {
            ApplicationRequest::NoApply => 0,
            ApplicationRequest::Apply => 1,
            ApplicationRequest::ApplyOnly => 2,
        }
    }

    /// Whether `b` names a documented application request.
    pub open spec fn spec_valid(b: u8) -> bool {
        b <= 2
    }

    /// The request named by `b`; meaningful only when `spec_valid(b)`.
    pub open spec fn spec_of(b: u8) -> ApplicationRequest {
        if b == 1 {
            ApplicationRequest::Apply
        } else if b == 2 {
            ApplicationRequest::ApplyOnly
        } else {
            ApplicationRequest::NoApply
        }
    }

    /// Encodes this request as its wire byte.
    pub fn to_byte(self) -> (r: u8)
        ensures
            r == self.spec_byte(),
    {
        match self {
            ApplicationRequest::NoApply => 0,
            ApplicationRequest::Apply => 1,
            ApplicationRequest::ApplyOnly => 2,
        }
    }

    /// Decodes a wire byte; `None` exactly on undocumented values.
    pub fn from_byte(b: u8) -> (r: Option<ApplicationRequest>)
        ensures
            r matches Some(a) ==> Self::spec_valid(b) && a == Self::spec_of(b),
            r is None <==> !Self::spec_valid(b),
    {
        match b {
            0 => Some(ApplicationRequest::NoApply),
            1 => Some(ApplicationRequest::Apply),
            2 => Some(ApplicationRequest::ApplyOnly),
            _ => None,
        }
    }
}

/// Waveform used for light transitions.
#[derive(Debug, Copy, Clone, PartialEq, Eq, Structural)]
pub enum Waveform {
    Saw,
    Sine,
    HalfSign,
    Triangle,
    Pulse,
}

impl Waveform {
    /// Wire value of this variant.
    pub open spec fn spec_byte(self) -> u8 {
        match self {
            Waveform::Saw => 0,
            Waveform::Sine => 1,
            Waveform::HalfSign => 2,
            Waveform::Triangle => 3,
            Waveform::Pulse => 4,
        }
    }

    /// Whether `b` names a documented waveform.
    pub open spec fn spec_valid(b: u8) -> bool {
        b <= 4
    }

    /// The waveform named by `b`; meaningful only when `spec_valid(b)`.
    pub open spec fn spec_of(b: u8) -> Waveform {
        if b == 1 {
            Waveform::Sine
        } else if b == 2 {
            Waveform::HalfSign
        } else if b == 3 {
            Waveform::Triangle
        } else if b == 4 {
            Waveform::Pulse
        } else {
            Waveform::Saw
        }
    }

    /// Encodes this waveform as its wire byte.
    pub fn to_byte(self) -> (r: u8)
        ensures
            r == self.spec_byte(),
    {
        match self {
            Waveform::Saw => 0,
            Waveform::Sine => 1,
            Waveform::HalfSign => 2,
            Waveform::Triangle => 3,
            Waveform::Pulse => 4,
        }
    }

    /// Decodes a wire byte; `None` exactly on undocumented values.
    pub fn from_byte(b: u8) -> (r: Option<Waveform>)
        ensures
            r matches Some(w) ==> Self::spec_valid(b) && w == Self::spec_of(b),
            r is None <==> !Self::spec_valid(b),
    {
        match b {
            0 => Some(Waveform::Saw),
            1 => Some(Waveform::Sine),
            2 => Some(Waveform::HalfSign),
            3 => Some(Waveform::Triangle),
            4 => Some(Waveform::Pulse),
            _ => None,
        }
    }
}

/// How the last HEV (germicidal) cycle on the device ended.
#[derive(Debug, Copy, Clone, PartialEq, Eq, Structural)]
pub enum LastHevCycleResult {
    Success,
    Busy,
    InterruptedByReset,
    InterruptedByHomekit,
    InterruptedByLan,
    InterruptedByCloud,
    NoResult,
}

impl LastHevCycleResult {
    /// Wire value of this variant.
    pub open spec fn spec_byte(self) -> u8 {
        match self {
            LastHevCycleResult::Success => 0,
            LastHevCycleResult::Busy => 1,
            LastHevCycleResult::InterruptedByReset => 2,
            LastHevCycleResult::InterruptedByHomekit => 3,
            LastHevCycleResult::InterruptedByLan => 4,
            LastHevCycleResult::InterruptedByCloud => 5,
            LastHevCycleResult::NoResult => 255,
        }
    }

    /// Whether `b` names a documented cycle result.
    pub open spec fn spec_valid(b: u8) -> bool {
        b <= 5 || b == 255
    }

    /// The cycle result named by `b`; meaningful only when `spec_valid(b)`.
    pub open spec fn spec_of(b: u8) -> LastHevCycleResult {
        if b == 0 {
            LastHevCycleResult::Success
        } else if b == 1 {
            LastHevCycleResult::Busy
        } else if b == 2 {
            LastHevCycleResult::InterruptedByReset
        } else if b == 3 {
            LastHevCycleResult::InterruptedByHomekit
        } else if b == 4 {
            LastHevCycleResult::InterruptedByLan
        } else if b == 5 {
            LastHevCycleResult::InterruptedByCloud
        } else {
            LastHevCycleResult::NoResult
        }
    }

    /// Encodes this cycle result as its wire byte.
    pub fn to_byte(self) -> (r: u8)
        ensures
            r == self.spec_byte(),
    {
        match self {
            LastHevCycleResult::Success => 0,
            LastHevCycleResult::Busy => 1,
            LastHevCycleResult::InterruptedByReset => 2,
            LastHevCycleResult::InterruptedByHomekit => 3,
            LastHevCycleResult::InterruptedByLan => 4,
            LastHevCycleResult::InterruptedByCloud => 5,
            LastHevCycleResult::NoResult => 255,
        }
    }

    /// Decodes a wire byte; `None` exactly on undocumented values.
    pub fn from_byte(b: u8) -> (r: Option<LastHevCycleResult>)
        ensures
            r matches Some(c) ==> Self::spec_valid(b) && c == Self::spec_of(b),
            r is None <==> !Self::spec_valid(b),
    {
        match b {
            0 => Some(LastHevCycleResult::Success),
            1 => Some(LastHevCycleResult::Busy),
            2 => Some(LastHevCycleResult::InterruptedByReset),
            3 => Some(LastHevCycleResult::InterruptedByHomekit),
            4 => Some(LastHevCycleResult::InterruptedByLan),
            5 => Some(LastHevCycleResult::InterruptedByCloud),
            255 => Some(LastHevCycleResult::NoResult),
            _ => None,
        }
    }
}

/// Firmware effect running on a multizone device.
#[derive(Debug, Copy, Clone, PartialEq, Eq, Structural)]
pub enum MultiZoneEffectType {
    Off,
    Move,
    Reserved1,
    Reserved2,
}

impl MultiZoneEffectType {
    /// Wire value of this variant.
    pub open spec fn spec_byte(self) -> u8 {
        match self {
            MultiZoneEffectType::Off => 0,
            MultiZoneEffectType::Move => 1,
            MultiZoneEffectType::Reserved1 => 2,
            MultiZoneEffectType::Reserved2 => 3,
        }
    }

    /// Whether `b` names a documented effect type.
    pub open spec fn spec_valid(b: u8) -> bool {
        b <= 3
    }

    /// The effect type named by `b`; meaningful only when `spec_valid(b)`.
    pub open spec fn spec_of(b: u8) -> MultiZoneEffectType {
        if b == 1 {
            MultiZoneEffectType::Move
        } else if b == 2 {
            MultiZoneEffectType::Reserved1
        } else if b == 3 {
            MultiZoneEffectType::Reserved2
        } else {
            MultiZoneEffectType::Off
        }
    }

    /// Encodes this effect type as its wire byte.
    pub fn to_byte(self) -> (r: u8)
        ensures
            r == self.spec_byte(),
    {
        match self {
            MultiZoneEffectType::Off => 0,
            MultiZoneEffectType::Move => 1,
            MultiZoneEffectType::Reserved1 => 2,
            MultiZoneEffectType::Reserved2 => 3,
        }
    }

    /// Decodes a wire byte; `None` exactly on undocumented values.
    pub fn from_byte(b: u8) -> (r: Option<MultiZoneEffectType>)
        ensures
            r matches Some(t) ==> Self::spec_valid(b) && t == Self::spec_of(b),
            r is None <==> !Self::spec_valid(b),
    {
        match b {
            0 => Some(MultiZoneEffectType::Off),
            1 => Some(MultiZoneEffectType::Move),
            2 => Some(MultiZoneEffectType::Reserved1),
            3 => Some(MultiZoneEffectType::Reserved2),
            _ => None,
        }
    }
}

} // verus!
