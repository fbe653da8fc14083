//! The typed union of every documented message kind.
//!
//! A [`Message`] converts to and from `(type id, payload bytes)`.  The spec
//! functions pin the numeric id of each kind, the exact payload image each
//! kind encodes to, and the exact value each known payload decodes to; the
//! round-trip law [`lemma_message_round_trip`] is proved from them for
//! every constructible message.
//!
//! Decoding is strict about enumeration fields (an undocumented value is a
//! protocol error) and lenient about boolean fields (any nonzero byte reads
//! as true), and an unknown type id is reported as such rather than
//! rejected: devices are known to send undocumented kinds.

use vstd::prelude::*;

verus! {

use crate::enums::ApplicationRequest;
use crate::enums::LastHevCycleResult;
use crate::enums::MultiZoneEffectType;
use crate::enums::PowerLevel;
use crate::enums::Service;
use crate::enums::Waveform;
use crate::error::Error;
use crate::types::EchoPayload;
use crate::types::HSBK;
use crate::types::LifxIdent;
use crate::types::LifxString;
use crate::types::dec_echo;
use crate::types::dec_hsbk;
use crate::types::dec_hsbk_seq;
use crate::types::dec_ident;
use crate::types::dec_string;
use crate::types::enc_echo;
use crate::types::enc_hsbk;
use crate::types::enc_hsbk_seq;
use crate::types::enc_ident;
use crate::types::enc_string;
use crate::types::lemma_dec_hsbk_of_enc;
use crate::types::lemma_enc_hsbk_seq_index;
use crate::types::lemma_enc_hsbk_seq_len;
use crate::types::lemma_nonzero_of_padded;
use crate::types::lemma_seq_to_array;
use crate::types::lemma_string_of;
use crate::types::nonzero_bytes;
use crate::types::put_bytes;
use crate::types::put_echo;
use crate::types::put_hsbk;
use crate::types::put_hsbk_array;
use crate::types::put_ident;
use crate::types::put_string;
use crate::types::read_bytes;
use crate::types::read_echo;
use crate::types::read_hsbk;
use crate::types::read_hsbk_array;
use crate::types::read_ident;
use crate::types::read_string;
use crate::types::seq_to_array;
use crate::types::zero_pad;
use crate::wire::dec_bool;
use crate::wire::dec_i16;
use crate::wire::dec_u16;
use crate::wire::dec_u32;
use crate::wire::dec_u64;
use crate::wire::dec_u8;
use crate::wire::enc_bool;
use crate::wire::enc_i16;
use crate::wire::enc_u16;
use crate::wire::enc_u32;
use crate::wire::enc_u64;
use crate::wire::enc_u8;
use crate::wire::put_bool;
use crate::wire::put_i16;
use crate::wire::put_u16;
use crate::wire::put_u32;
use crate::wire::put_u64;
use crate::wire::put_u8;
use crate::wire::read_bool;
use crate::wire::read_i16;
use crate::wire::read_u16;
use crate::wire::read_u32;
use crate::wire::read_u64;
use crate::wire::read_u8;

/// Decoded LIFX messages: one variant per message kind known to this
/// library.  Other kinds exist but are not officially documented; decoding
/// reports them as unknown rather than failing.
#[derive(Debug, Clone, PartialEq)]
pub enum Message {
    /// Sent by a client to acquire responses from all devices on the local
    /// network. No payload is required; devices answer with a `StateService`
    /// message.
    ///
    /// Message type 2.
    GetService,
    /// Response to `GetService`. Callers should keep the port number so later
    /// messages can be sent directly to the device.
    ///
    /// Message type 3.
    StateService {
        /// Which service the device exposes.
        service: Service,
        /// Port number of the device; zero when the service is temporarily
        /// unavailable.
        port: u32,
    },
    /// Asks for host MCU information; the device answers with `StateHostInfo`.
    ///
    /// Message type 12.
    GetHostInfo,
    /// Response to `GetHostInfo`, with host MCU information.
    ///
    /// Message type 13.
    StateHostInfo {
        /// Radio receive signal strength in milliwatts, as the bits of an IEEE
        /// 754 single-precision float; this crate carries the bits through
        /// unchanged.
        signal: u32,
        /// Bytes transmitted since power on.
        tx: u32,
        /// Bytes received since power on.
        rx: u32,
        reserved: i16,
    },
    /// Asks for host MCU firmware information; the device answers with
    /// `StateHostFirmware`.
    ///
    /// Message type 14.
    GetHostFirmware,
    /// Response to `GetHostFirmware`, with host firmware information.
    ///
    /// Message type 15.
    StateHostFirmware {
        /// Firmware build time, in nanoseconds since the epoch.
        build: u64,
        reserved: u64,
        /// Minor component of the firmware version.
        version_minor: u16,
        /// Major component of the firmware version.
        version_major: u16,
    },
    /// Asks for Wifi subsystem information; the device answers with
    /// `StateWifiInfo`.
    ///
    /// Message type 16.
    GetWifiInfo,
    /// Response to `GetWifiInfo`, with Wifi subsystem information.
    ///
    /// Message type 17.
    StateWifiInfo {
        /// Radio receive signal strength, as the bits of an IEEE 754 single-
        /// precision float; its unit varies between products.
        signal: u32,
        /// Reserved; this field used to store bytes transmitted since power on.
        reserved6: u32,
        /// Reserved; this field used to store bytes received since power on.
        reserved7: u32,
        reserved: i16,
    },
    /// Asks for Wifi subsystem firmware information; the device answers with
    /// `StateWifiFirmware`.
    ///
    /// Message type 18.
    GetWifiFirmware,
    /// Response to `GetWifiFirmware`, with Wifi firmware information.
    ///
    /// Message type 19.
    StateWifiFirmware {
        /// Firmware build time, in nanoseconds since the epoch.
        build: u64,
        reserved: u64,
        /// Minor component of the firmware version.
        version_minor: u16,
        /// Major component of the firmware version.
        version_major: u16,
    },
    /// Asks for the device power level; the device answers with `StatePower`.
    ///
    /// Message type 20.
    GetPower,
    /// Sets the device power level.
    ///
    /// Message type 21.
    SetPower {
        /// Only standby and full power are supported on the wire.
        level: PowerLevel,
    },
    /// Response to `GetPower`, with the device power level.
    ///
    /// Message type 22.
    StatePower {
        /// Zero means off and 65535 full power; during a transition any value
        /// between may appear.
        level: u16,
    },
    /// Asks for the device label; the device answers with `StateLabel`.
    ///
    /// Message type 23.
    GetLabel,
    /// Sets the device label text.
    ///
    /// Message type 24.
    SetLabel {
        label: LifxString,
    },
    /// Response to `GetLabel`, with the device label.
    ///
    /// Message type 25.
    StateLabel {
        label: LifxString,
    },
    /// Asks for the hardware version; the device answers with `StateVersion`.
    ///
    /// Message type 32.
    GetVersion,
    /// Response to `GetVersion`. `get_product_info` turns the vendor and
    /// product ids into capability flags.
    ///
    /// Message type 33.
    StateVersion {
        /// Vendor id; 1 for LIFX products.
        vendor: u32,
        /// Product id.
        product: u32,
        /// Reserved; previously the hardware version.
        reserved: u32,
    },
    /// Asks for run-time information; the device answers with `StateInfo`.
    ///
    /// Message type 34.
    GetInfo,
    /// Response to `GetInfo`, with run-time information.
    ///
    /// Message type 35.
    StateInfo {
        /// Current time according to the device, in nanoseconds since the
        /// epoch; most likely inaccurate.
        time: u64,
        /// Time in nanoseconds the device has been online since the last power
        /// on.
        uptime: u64,
        /// Power-off time in nanoseconds, accurate to 5 seconds.
        downtime: u64,
    },
    /// Response to any message sent with `ack_required` set. The wire format
    /// carries no payload for this kind; the sequence number is taken from the
    /// enclosing frame address.
    ///
    /// Message type 45.
    Acknowledgement {
        seq: u8,
    },
    /// Asks for the device location; the device answers with `StateLocation`.
    ///
    /// Message type 48.
    GetLocation,
    /// Sets the device location.
    ///
    /// Message type 49.
    SetLocation {
        /// GUID byte array naming the location.
        location: LifxIdent,
        /// Name assigned to this location.
        label: LifxString,
        /// When this location was set on the device, in nanoseconds since the
        /// epoch.
        updated_at: u64,
    },
    /// Response to `GetLocation`, with the device location.
    ///
    /// Message type 50.
    StateLocation {
        location: LifxIdent,
        label: LifxString,
        updated_at: u64,
    },
    /// Asks for the device group membership; the device answers with
    /// `StateGroup`.
    ///
    /// Message type 51.
    GetGroup,
    /// Sets the device group.
    ///
    /// Message type 52.
    SetGroup {
        group: LifxIdent,
        label: LifxString,
        updated_at: u64,
    },
    /// Response to `GetGroup`, with the device group.
    ///
    /// Message type 53.
    StateGroup {
        /// Unique identifier of this group.
        group: LifxIdent,
        /// Name assigned to this group.
        label: LifxString,
        /// When this group was set on the device, in nanoseconds since the
        /// epoch.
        updated_at: u64,
    },
    /// Asks the device to echo back an arbitrary payload; it answers with
    /// `EchoResponse`.
    ///
    /// Message type 58.
    EchoRequest {
        payload: EchoPayload,
    },
    /// Response to `EchoRequest`, echoing its payload.
    ///
    /// Message type 59.
    EchoResponse {
        payload: EchoPayload,
    },
    /// Asks for the light state; the device answers with `LightState`. Known as
    /// `GetColor` in the LIFX docs.
    ///
    /// Message type 101.
    LightGet,
    /// Changes the light state. When `res_required` is set the device answers
    /// with `LightState`.
    ///
    /// Message type 102.
    LightSetColor {
        reserved: u8,
        /// Colour to display.
        color: HSBK,
        /// Colour transition time in milliseconds.
        duration: u32,
    },
    /// Applies an effect to the bulb.
    ///
    /// Message type 103.
    SetWaveform {
        reserved: u8,
        transient: bool,
        color: HSBK,
        /// Duration of a cycle in milliseconds.
        period: u32,
        /// Number of cycles, as the bits of an IEEE 754 single-precision float.
        cycles: u32,
        /// Waveform skew, scaled from [-32768, 32767] to [0, 1].
        skew_ratio: i16,
        /// Waveform to use for the transition.
        waveform: Waveform,
    },
    /// Current light state, sent in reply to `LightGet`, `LightSetColor`,
    /// `SetWaveform` and `SetWaveformOptional`.
    ///
    /// Message type 107.
    LightState {
        color: HSBK,
        reserved: i16,
        /// Current power level of the device.
        power: u16,
        /// Current label on the device.
        label: LifxString,
        reserved2: u64,
    },
    /// Asks for the light power level; the device answers with
    /// `LightStatePower`.
    ///
    /// Message type 116.
    LightGetPower,
    /// Changes the light power level over a transition time. Any nonzero level
    /// is written to the wire as full power, since some devices only understand
    /// binary on/off.
    ///
    /// Message type 117.
    LightSetPower {
        level: u16,
        /// Power level transition time in milliseconds.
        duration: u32,
    },
    /// Current light power level.
    ///
    /// Message type 118.
    LightStatePower {
        level: u16,
    },
    /// Applies an effect to the bulb, with per-channel flags saying which
    /// colour components to change.
    ///
    /// Message type 119.
    SetWaveformOptional {
        reserved: u8,
        transient: bool,
        color: HSBK,
        /// Duration of a cycle in milliseconds.
        period: u32,
        /// Number of cycles, as the bits of an IEEE 754 single-precision float.
        cycles: u32,
        skew_ratio: i16,
        waveform: Waveform,
        set_hue: bool,
        set_saturation: bool,
        set_brightness: bool,
        set_kelvin: bool,
    },
    /// Asks for the current maximum power level of the infrared channel.
    ///
    /// Message type 120.
    LightGetInfrared,
    /// Current maximum setting for the infrared channel.
    ///
    /// Message type 121.
    LightStateInfrared {
        brightness: u16,
    },
    /// Sets the current maximum brightness for the infrared channel.
    ///
    /// Message type 122.
    LightSetInfrared {
        brightness: u16,
    },
    /// Asks for the state of the HEV LEDs; the device answers with
    /// `LightStateHevCycle`. Requires the `hev` capability.
    ///
    /// Message type 142.
    LightGetHevCycle,
    /// Starts or stops a HEV cycle.
    ///
    /// Message type 143.
    LightSetHevCycle {
        /// False turns the cycle off; true starts it.
        enable: bool,
        /// Duration of the cycle in seconds; zero uses the default set by
        /// `LightSetHevCycleConfiguration`.
        duration: u32,
    },
    /// Whether a HEV cycle is running on the device.
    ///
    /// Message type 144.
    LightStateHevCycle {
        /// Duration in seconds this cycle was set to.
        duration: u32,
        /// Seconds remaining in this cycle.
        remaining: u32,
        /// Power state before the cycle started, restored once it completes.
        last_power: bool,
    },
    /// Asks for the default HEV cycle configuration. Requires the `hev`
    /// capability.
    ///
    /// Message type 145.
    LightGetHevCycleConfiguration,
    /// Sets the default HEV cycle configuration.
    ///
    /// Message type 146.
    LightSetHevCycleConfiguration {
        indication: bool,
        duration: u32,
    },
    /// Current default HEV cycle configuration.
    ///
    /// Message type 147.
    LightStateHevCycleConfiguration {
        indication: bool,
        duration: u32,
    },
    /// Asks how the last HEV cycle ended.
    ///
    /// Message type 148.
    LightGetLastHevCycleResult,
    /// How the last HEV cycle ended.
    ///
    /// Message type 149.
    LightStateLastHevCycleResult {
        result: LastHevCycleResult,
    },
    /// Changes the colour of one or more zones. Changes are buffered and
    /// applied according to `apply`.
    ///
    /// Message type 501.
    SetColorZones {
        start_index: u8,
        end_index: u8,
        color: HSBK,
        duration: u32,
        apply: ApplicationRequest,
    },
    /// Asks for the zone colours of a range of zones; the device answers with
    /// `StateZone` or `StateMultiZone` messages covering at least that range.
    ///
    /// Message type 502.
    GetColorZones {
        start_index: u8,
        end_index: u8,
    },
    /// State of a single zone; `count` is the total number of zones on the
    /// device.
    ///
    /// Message type 503.
    StateZone {
        count: u8,
        index: u8,
        color: HSBK,
    },
    /// State of eight consecutive zones: `index` is the zone of `color0` and
    /// the rest follow consecutively.
    ///
    /// Message type 506.
    StateMultiZone {
        count: u8,
        index: u8,
        color0: HSBK,
        color1: HSBK,
        color2: HSBK,
        color3: HSBK,
        color4: HSBK,
        color5: HSBK,
        color6: HSBK,
        color7: HSBK,
    },
    /// Asks for the firmware effect running on a multizone device.
    ///
    /// Message type 507.
    GetMultiZoneEffect,
    /// The firmware effect running on a multizone device.
    ///
    /// Message type 509.
    StateMultiZoneEffect {
        /// Unique value identifying this effect.
        instance_id: u32,
        typ: MultiZoneEffectType,
        reserved: u16,
        /// Time one cycle of the effect takes, in milliseconds.
        speed: u32,
        /// Time left in the current effect, in nanoseconds.
        duration: u64,
        reserved7: u32,
        reserved8: u32,
        /// Parameters that were used in the request.
        parameters: [u8; 32],
    },
    /// Asks for the zone colours of an extended multizone device.
    ///
    /// Message type 511.
    GetExtendedColorZone,
    /// Zone colours of an extended multizone device.
    ///
    /// Message type 512.
    StateExtendedColorZones {
        zones_count: u16,
        zone_index: u16,
        colors_count: u8,
        colors: [HSBK; 82],
    },
    /// Asks for the power state of a relay. Requires the `relays` capability.
    ///
    /// Message type 816.
    RelayGetPower {
        /// The relay on the switch, starting from 0.
        relay_index: u8,
    },
    /// Sets the power state of a relay.
    ///
    /// Message type 817.
    RelaySetPower {
        /// The relay on the switch, starting from 0.
        relay_index: u8,
        /// Current switches have no dimming: the two valid values are 0 for off
        /// and 65535 for on.
        level: u16,
    },
    /// The power state of a relay.
    ///
    /// Message type 818.
    RelayStatePower {
        /// The relay on the switch, starting from 0.
        relay_index: u8,
        /// 0 for off, 65535 for on.
        level: u16,
    },
}

impl Message {
    /// The numeric wire id of this message kind, used in the `typ`
    /// field of the protocol header.
    pub open spec fn spec_num(self) -> u16 {
        match self {
            Message::GetService => 2,
            Message::StateService { .. } => 3,
            Message::GetHostInfo => 12,
            Message::StateHostInfo { .. } => 13,
            Message::GetHostFirmware => 14,
            Message::StateHostFirmware { .. } => 15,
            Message::GetWifiInfo => 16,
            Message::StateWifiInfo { .. } => 17,
            Message::GetWifiFirmware => 18,
            Message::StateWifiFirmware { .. } => 19,
            Message::GetPower => 20,
            Message::SetPower { .. } => 21,
            Message::StatePower { .. } => 22,
            Message::GetLabel => 23,
            Message::SetLabel { .. } => 24,
            Message::StateLabel { .. } => 25,
            Message::GetVersion => 32,
            Message::StateVersion { .. } => 33,
            Message::GetInfo => 34,
            Message::StateInfo { .. } => 35,
            Message::Acknowledgement { .. } => 45,
            Message::GetLocation => 48,
            Message::SetLocation { .. } => 49,
            Message::StateLocation { .. } => 50,
            Message::GetGroup => 51,
            Message::SetGroup { .. } => 52,
            Message::StateGroup { .. } => 53,
            Message::EchoRequest { .. } => 58,
            Message::EchoResponse { .. } => 59,
            Message::LightGet => 101,
            Message::LightSetColor { .. } => 102,
            Message::SetWaveform { .. } => 103,
            Message::LightState { .. } => 107,
            Message::LightGetPower => 116,
            Message::LightSetPower { .. } => 117,
            Message::LightStatePower { .. } => 118,
            Message::SetWaveformOptional { .. } => 119,
            Message::LightGetInfrared => 120,
            Message::LightStateInfrared { .. } => 121,
            Message::LightSetInfrared { .. } => 122,
            Message::LightGetHevCycle => 142,
            Message::LightSetHevCycle { .. } => 143,
            Message::LightStateHevCycle { .. } => 144,
            Message::LightGetHevCycleConfiguration => 145,
            Message::LightSetHevCycleConfiguration { .. } => 146,
            Message::LightStateHevCycleConfiguration { .. } => 147,
            Message::LightGetLastHevCycleResult => 148,
            Message::LightStateLastHevCycleResult { .. } => 149,
            Message::SetColorZones { .. } => 501,
            Message::GetColorZones { .. } => 502,
            Message::StateZone { .. } => 503,
            Message::StateMultiZone { .. } => 506,
            Message::GetMultiZoneEffect => 507,
            Message::StateMultiZoneEffect { .. } => 509,
            Message::GetExtendedColorZone => 511,
            Message::StateExtendedColorZones { .. } => 512,
            Message::RelayGetPower { .. } => 816,
            Message::RelaySetPower { .. } => 817,
            Message::RelayStatePower { .. } => 818,
        }
    }

    /// Whether every label field carries a well-formed label.  Labels
    /// built by this crate always are; the condition matters only for
    /// values conjured in specifications.
    pub open spec fn wf(self) -> bool {
        match self {
            Message::SetLabel { label } => label.wf(),
            Message::StateLabel { label } => label.wf(),
            Message::SetLocation { label, .. } => label.wf(),
            Message::StateLocation { label, .. } => label.wf(),
            Message::SetGroup { label, .. } => label.wf(),
            Message::StateGroup { label, .. } => label.wf(),
            Message::LightState { label, .. } => label.wf(),
            _ => true,
        }
    }

    /// What a message decodes back to after encoding: the same message,
    /// except that a light power level is normalised to off or full on,
    /// and an acknowledgement takes its sequence number from the
    /// enclosing frame address.
    pub open spec fn spec_normalized(self, sequence: u8) -> Message {
        match self {
            Message::LightSetPower { level, duration } => (Message::LightSetPower {
                level: spec_wire_level(level),
                duration,
            }),
            Message::Acknowledgement { .. } => (Message::Acknowledgement { seq: sequence }),
            _ => self,
        }
    }

    /// The exact payload bytes this message encodes to.
    pub open spec fn spec_payload(self) -> Seq<u8> {
        match self {
            Message::GetService => Seq::<u8>::empty(),
            Message::StateService { service, port } => enc_u8(service.spec_byte()) + enc_u32(port),
            Message::GetHostInfo => Seq::<u8>::empty(),
            Message::StateHostInfo { signal, tx, rx, reserved } => enc_u32(signal) + enc_u32(tx) + enc_u32(rx) + enc_i16(reserved),
            Message::GetHostFirmware => Seq::<u8>::empty(),
            Message::StateHostFirmware { build, reserved, version_minor, version_major } => enc_u64(build) + enc_u64(reserved) + enc_u16(version_minor) + enc_u16(version_major),
            Message::GetWifiInfo => Seq::<u8>::empty(),
            Message::StateWifiInfo { signal, reserved6, reserved7, reserved } => enc_u32(signal) + enc_u32(reserved6) + enc_u32(reserved7) + enc_i16(reserved),
            Message::GetWifiFirmware => Seq::<u8>::empty(),
            Message::StateWifiFirmware { build, reserved, version_minor, version_major } => enc_u64(build) + enc_u64(reserved) + enc_u16(version_minor) + enc_u16(version_major),
            Message::GetPower => Seq::<u8>::empty(),
            Message::SetPower { level } => enc_u16(level.spec_word()),
            Message::StatePower { level } => enc_u16(level),
            Message::GetLabel => Seq::<u8>::empty(),
            Message::SetLabel { label } => enc_string(label),
            Message::StateLabel { label } => enc_string(label),
            Message::GetVersion => Seq::<u8>::empty(),
            Message::StateVersion { vendor, product, reserved } => enc_u32(vendor) + enc_u32(product) + enc_u32(reserved),
            Message::GetInfo => Seq::<u8>::empty(),
            Message::StateInfo { time, uptime, downtime } => enc_u64(time) + enc_u64(uptime) + enc_u64(downtime),
            Message::Acknowledgement { .. } => Seq::<u8>::empty(),
            Message::GetLocation => Seq::<u8>::empty(),
            Message::SetLocation { location, label, updated_at } => enc_ident(location) + enc_string(label) + enc_u64(updated_at),
            Message::StateLocation { location, label, updated_at } => enc_ident(location) + enc_string(label) + enc_u64(updated_at),
            Message::GetGroup => Seq::<u8>::empty(),
            Message::SetGroup { group, label, updated_at } => enc_ident(group) + enc_string(label) + enc_u64(updated_at),
            Message::StateGroup { group, label, updated_at } => enc_ident(group) + enc_string(label) + enc_u64(updated_at),
            Message::EchoRequest { payload } => enc_echo(payload),
            Message::EchoResponse { payload } => enc_echo(payload),
            Message::LightGet => Seq::<u8>::empty(),
            Message::LightSetColor { reserved, color, duration } => enc_u8(reserved) + enc_hsbk(color) + enc_u32(duration),
            Message::SetWaveform { reserved, transient, color, period, cycles, skew_ratio, waveform } => enc_u8(reserved) + enc_bool(transient) + enc_hsbk(color) + enc_u32(period) + enc_u32(cycles) + enc_i16(skew_ratio) + enc_u8(waveform.spec_byte()),
            Message::LightState { color, reserved, power, label, reserved2 } => enc_hsbk(color) + enc_i16(reserved) + enc_u16(power) + enc_string(label) + enc_u64(reserved2),
            Message::LightGetPower => Seq::<u8>::empty(),
            Message::LightSetPower { level, duration } => enc_u16(spec_wire_level(level))
                + enc_u32(duration),
            Message::LightStatePower { level } => enc_u16(level),
            Message::SetWaveformOptional { reserved, transient, color, period, cycles, skew_ratio, waveform, set_hue, set_saturation, set_brightness, set_kelvin } => enc_u8(reserved) + enc_bool(transient) + enc_hsbk(color) + enc_u32(period) + enc_u32(cycles) + enc_i16(skew_ratio) + enc_u8(waveform.spec_byte()) + enc_bool(set_hue) + enc_bool(set_saturation) + enc_bool(set_brightness) + enc_bool(set_kelvin),
            Message::LightGetInfrared => Seq::<u8>::empty(),
            Message::LightStateInfrared { brightness } => enc_u16(brightness),
            Message::LightSetInfrared { brightness } => enc_u16(brightness),
            Message::LightGetHevCycle => Seq::<u8>::empty(),
            Message::LightSetHevCycle { enable, duration } => enc_bool(enable) + enc_u32(duration),
            Message::LightStateHevCycle { duration, remaining, last_power } => enc_u32(duration) + enc_u32(remaining) + enc_bool(last_power),
            Message::LightGetHevCycleConfiguration => Seq::<u8>::empty(),
            Message::LightSetHevCycleConfiguration { indication, duration } => enc_bool(indication) + enc_u32(duration),
            Message::LightStateHevCycleConfiguration { indication, duration } => enc_bool(indication) + enc_u32(duration),
            Message::LightGetLastHevCycleResult => Seq::<u8>::empty(),
            Message::LightStateLastHevCycleResult { result } => enc_u8(result.spec_byte()),
            Message::SetColorZones { start_index, end_index, color, duration, apply } => enc_u8(start_index) + enc_u8(end_index) + enc_hsbk(color) + enc_u32(duration) + enc_u8(apply.spec_byte()),
            Message::GetColorZones { start_index, end_index } => enc_u8(start_index) + enc_u8(end_index),
            Message::StateZone { count, index, color } => enc_u8(count) + enc_u8(index) + enc_hsbk(color),
            Message::StateMultiZone { count, index, color0, color1, color2, color3, color4, color5, color6, color7 } => enc_u8(count) + enc_u8(index) + enc_hsbk(color0) + enc_hsbk(color1) + enc_hsbk(color2) + enc_hsbk(color3) + enc_hsbk(color4) + enc_hsbk(color5) + enc_hsbk(color6) + enc_hsbk(color7),
            Message::GetMultiZoneEffect => Seq::<u8>::empty(),
            Message::StateMultiZoneEffect { instance_id, typ, reserved, speed, duration, reserved7, reserved8, parameters } => enc_u32(instance_id) + enc_u8(typ.spec_byte()) + enc_u16(reserved) + enc_u32(speed) + enc_u64(duration) + enc_u32(reserved7) + enc_u32(reserved8) + parameters@,
            Message::GetExtendedColorZone => Seq::<u8>::empty(),
            Message::StateExtendedColorZones { zones_count, zone_index, colors_count, colors } => enc_u16(zones_count) + enc_u16(zone_index) + enc_u8(colors_count) + enc_hsbk_seq(colors@),
            Message::RelayGetPower { relay_index } => enc_u8(relay_index),
            Message::RelaySetPower { relay_index, level } => enc_u8(relay_index) + enc_u16(level),
            Message::RelayStatePower { relay_index, level } => enc_u8(relay_index) + enc_u16(level),
        }
    }
}

/// The level a light power request carries on the wire: some devices only
/// understand binary on/off, so any nonzero requested level is sent as
/// full power.
pub open spec fn spec_wire_level(level: u16) -> u16 {
    if level > 0 {
        65535
    } else {
        0
    }
}

/// Whether `typ` is a message kind known to this library.
pub open spec fn spec_known(typ: u16) -> bool {
    match typ {
        2 | 3 | 12 | 13 | 14 | 15 | 16 | 17 | 18 | 19 | 20 | 21 | 22 | 23 | 24 | 25 | 32 | 33 | 34 | 35 | 45 | 48 | 49 | 50 | 51 | 52 | 53 | 58 | 59 | 101 | 102 | 103 | 107 | 116 | 117 | 118 | 119 | 120 | 121 | 122 | 142 | 143 | 144 | 145 | 146 | 147 | 148 | 149 | 501 | 502 | 503 | 506 | 507 | 509 | 511 | 512 | 816 | 817 | 818 => true,
        _ => false,
    }
}

/// How many payload bytes the layout of kind `typ` requires.
pub open spec fn spec_min_len(typ: u16) -> int {
    match typ {
        2 => 0,
        3 => 5,
        12 => 0,
        13 => 14,
        14 => 0,
        15 => 20,
        16 => 0,
        17 => 14,
        18 => 0,
        19 => 20,
        20 => 0,
        21 => 2,
        22 => 2,
        23 => 0,
        24 => 32,
        25 => 32,
        32 => 0,
        33 => 12,
        34 => 0,
        35 => 24,
        45 => 0,
        48 => 0,
        49 => 56,
        50 => 56,
        51 => 0,
        52 => 56,
        53 => 56,
        58 => 64,
        59 => 64,
        101 => 0,
        102 => 13,
        103 => 21,
        107 => 52,
        116 => 0,
        117 => 6,
        118 => 2,
        119 => 25,
        120 => 0,
        121 => 2,
        122 => 2,
        142 => 0,
        143 => 5,
        144 => 9,
        145 => 0,
        146 => 5,
        147 => 5,
        148 => 0,
        149 => 1,
        501 => 15,
        502 => 2,
        503 => 10,
        506 => 66,
        507 => 0,
        509 => 59,
        511 => 0,
        512 => 661,
        816 => 1,
        817 => 3,
        818 => 3,
        _ => 0,
    }
}

/// Whether every enumeration field of a payload of kind `typ` holds a
/// documented value.  Kinds without enumeration fields are always valid.
pub open spec fn spec_fields_valid(typ: u16, p: Seq<u8>) -> bool {
    match typ {
        3 => Service::spec_valid(dec_u8(p, 0)),
        21 => PowerLevel::spec_valid(dec_u16(p, 0)),
        103 => Waveform::spec_valid(dec_u8(p, 20)),
        119 => Waveform::spec_valid(dec_u8(p, 20)),
        149 => LastHevCycleResult::spec_valid(dec_u8(p, 0)),
        501 => ApplicationRequest::spec_valid(dec_u8(p, 14)),
        509 => MultiZoneEffectType::spec_valid(dec_u8(p, 4)),
        _ => true,
    }
}

/// The message a payload of kind `typ` decodes to, given the sequence
/// number of the enclosing frame address.  Meaningful when `typ` is
/// known, the payload is long enough and its enumeration fields are
/// valid.
pub open spec fn spec_decode_payload(typ: u16, p: Seq<u8>, sequence: u8) -> Message {
    match typ {
        2 => Message::GetService,
        3 => (Message::StateService {
            service: Service::spec_of(dec_u8(p, 0)),
            port: dec_u32(p, 1),
        }),
        12 => Message::GetHostInfo,
        13 => (Message::StateHostInfo {
            signal: dec_u32(p, 0),
            tx: dec_u32(p, 4),
            rx: dec_u32(p, 8),
            reserved: dec_i16(p, 12),
        }),
        14 => Message::GetHostFirmware,
        15 => (Message::StateHostFirmware {
            build: dec_u64(p, 0),
            reserved: dec_u64(p, 8),
            version_minor: dec_u16(p, 16),
            version_major: dec_u16(p, 18),
        }),
        16 => Message::GetWifiInfo,
        17 => (Message::StateWifiInfo {
            signal: dec_u32(p, 0),
            reserved6: dec_u32(p, 4),
            reserved7: dec_u32(p, 8),
            reserved: dec_i16(p, 12),
        }),
        18 => Message::GetWifiFirmware,
        19 => (Message::StateWifiFirmware {
            build: dec_u64(p, 0),
            reserved: dec_u64(p, 8),
            version_minor: dec_u16(p, 16),
            version_major: dec_u16(p, 18),
        }),
        20 => Message::GetPower,
        21 => (Message::SetPower {
            level: PowerLevel::spec_of(dec_u16(p, 0)),
        }),
        22 => (Message::StatePower {
            level: dec_u16(p, 0),
        }),
        23 => Message::GetLabel,
        24 => (Message::SetLabel {
            label: dec_string(p, 0),
        }),
        25 => (Message::StateLabel {
            label: dec_string(p, 0),
        }),
        32 => Message::GetVersion,
        33 => (Message::StateVersion {
            vendor: dec_u32(p, 0),
            product: dec_u32(p, 4),
            reserved: dec_u32(p, 8),
        }),
        34 => Message::GetInfo,
        35 => (Message::StateInfo {
            time: dec_u64(p, 0),
            uptime: dec_u64(p, 8),
            downtime: dec_u64(p, 16),
        }),
        45 => (Message::Acknowledgement { seq: sequence }),
        48 => Message::GetLocation,
        49 => (Message::SetLocation {
            location: dec_ident(p, 0),
            label: dec_string(p, 16),
            updated_at: dec_u64(p, 48),
        }),
        50 => (Message::StateLocation {
            location: dec_ident(p, 0),
            label: dec_string(p, 16),
            updated_at: dec_u64(p, 48),
        }),
        51 => Message::GetGroup,
        52 => (Message::SetGroup {
            group: dec_ident(p, 0),
            label: dec_string(p, 16),
            updated_at: dec_u64(p, 48),
        }),
        53 => (Message::StateGroup {
            group: dec_ident(p, 0),
            label: dec_string(p, 16),
            updated_at: dec_u64(p, 48),
        }),
        58 => (Message::EchoRequest {
            payload: dec_echo(p, 0),
        }),
        59 => (Message::EchoResponse {
            payload: dec_echo(p, 0),
        }),
        101 => Message::LightGet,
        102 => (Message::LightSetColor {
            reserved: dec_u8(p, 0),
            color: dec_hsbk(p, 1),
            duration: dec_u32(p, 9),
        }),
        103 => (Message::SetWaveform {
            reserved: dec_u8(p, 0),
            transient: dec_bool(p, 1),
            color: dec_hsbk(p, 2),
            period: dec_u32(p, 10),
            cycles: dec_u32(p, 14),
            skew_ratio: dec_i16(p, 18),
            waveform: Waveform::spec_of(dec_u8(p, 20)),
        }),
        107 => (Message::LightState {
            color: dec_hsbk(p, 0),
            reserved: dec_i16(p, 8),
            power: dec_u16(p, 10),
            label: dec_string(p, 12),
            reserved2: dec_u64(p, 44),
        }),
        116 => Message::LightGetPower,
        117 => (Message::LightSetPower {
            level: dec_u16(p, 0),
            duration: dec_u32(p, 2),
        }),
        118 => (Message::LightStatePower {
            level: dec_u16(p, 0),
        }),
        119 => (Message::SetWaveformOptional {
            reserved: dec_u8(p, 0),
            transient: dec_bool(p, 1),
            color: dec_hsbk(p, 2),
            period: dec_u32(p, 10),
            cycles: dec_u32(p, 14),
            skew_ratio: dec_i16(p, 18),
            waveform: Waveform::spec_of(dec_u8(p, 20)),
            set_hue: dec_bool(p, 21),
            set_saturation: dec_bool(p, 22),
            set_brightness: dec_bool(p, 23),
            set_kelvin: dec_bool(p, 24),
        }),
        120 => Message::LightGetInfrared,
        121 => (Message::LightStateInfrared {
            brightness: dec_u16(p, 0),
        }),
        122 => (Message::LightSetInfrared {
            brightness: dec_u16(p, 0),
        }),
        142 => Message::LightGetHevCycle,
        143 => (Message::LightSetHevCycle {
            enable: dec_bool(p, 0),
            duration: dec_u32(p, 1),
        }),
        144 => (Message::LightStateHevCycle {
            duration: dec_u32(p, 0),
            remaining: dec_u32(p, 4),
            last_power: dec_bool(p, 8),
        }),
        145 => Message::LightGetHevCycleConfiguration,
        146 => (Message::LightSetHevCycleConfiguration {
            indication: dec_bool(p, 0),
            duration: dec_u32(p, 1),
        }),
        147 => (Message::LightStateHevCycleConfiguration {
            indication: dec_bool(p, 0),
            duration: dec_u32(p, 1),
        }),
        148 => Message::LightGetLastHevCycleResult,
        149 => (Message::LightStateLastHevCycleResult {
            result: LastHevCycleResult::spec_of(dec_u8(p, 0)),
        }),
        501 => (Message::SetColorZones {
            start_index: dec_u8(p, 0),
            end_index: dec_u8(p, 1),
            color: dec_hsbk(p, 2),
            duration: dec_u32(p, 10),
            apply: ApplicationRequest::spec_of(dec_u8(p, 14)),
        }),
        502 => (Message::GetColorZones {
            start_index: dec_u8(p, 0),
            end_index: dec_u8(p, 1),
        }),
        503 => (Message::StateZone {
            count: dec_u8(p, 0),
            index: dec_u8(p, 1),
            color: dec_hsbk(p, 2),
        }),
        506 => (Message::StateMultiZone {
            count: dec_u8(p, 0),
            index: dec_u8(p, 1),
            color0: dec_hsbk(p, 2),
            color1: dec_hsbk(p, 10),
            color2: dec_hsbk(p, 18),
            color3: dec_hsbk(p, 26),
            color4: dec_hsbk(p, 34),
            color5: dec_hsbk(p, 42),
            color6: dec_hsbk(p, 50),
            color7: dec_hsbk(p, 58),
        }),
        507 => Message::GetMultiZoneEffect,
        509 => (Message::StateMultiZoneEffect {
            instance_id: dec_u32(p, 0),
            typ: MultiZoneEffectType::spec_of(dec_u8(p, 4)),
            reserved: dec_u16(p, 5),
            speed: dec_u32(p, 7),
            duration: dec_u64(p, 11),
            reserved7: dec_u32(p, 19),
            reserved8: dec_u32(p, 23),
            parameters: seq_to_array(p.subrange(27, 59)),
        }),
        511 => Message::GetExtendedColorZone,
        512 => (Message::StateExtendedColorZones {
            zones_count: dec_u16(p, 0),
            zone_index: dec_u16(p, 2),
            colors_count: dec_u8(p, 4),
            colors: seq_to_array(dec_hsbk_seq(p, 5, 82)),
        }),
        816 => (Message::RelayGetPower {
            relay_index: dec_u8(p, 0),
        }),
        817 => (Message::RelaySetPower {
            relay_index: dec_u8(p, 0),
            level: dec_u16(p, 1),
        }),
        818 => (Message::RelayStatePower {
            relay_index: dec_u8(p, 0),
            level: dec_u16(p, 1),
        }),
        _ => Message::GetService,
    }
}

impl Message {
    /// The numeric wire id of this message kind, for the `typ` field of
    /// the protocol header.
    pub fn get_num(&self) -> (r: u16)
        ensures
            r == self.spec_num(),
    {
        match self {
            Message::GetService => 2,
            Message::StateService { .. } => 3,
            Message::GetHostInfo => 12,
            Message::StateHostInfo { .. } => 13,
            Message::GetHostFirmware => 14,
            Message::StateHostFirmware { .. } => 15,
            Message::GetWifiInfo => 16,
            Message::StateWifiInfo { .. } => 17,
            Message::GetWifiFirmware => 18,
            Message::StateWifiFirmware { .. } => 19,
            Message::GetPower => 20,
            Message::SetPower { .. } => 21,
            Message::StatePower { .. } => 22,
            Message::GetLabel => 23,
            Message::SetLabel { .. } => 24,
            Message::StateLabel { .. } => 25,
            Message::GetVersion => 32,
            Message::StateVersion { .. } => 33,
            Message::GetInfo => 34,
            Message::StateInfo { .. } => 35,
            Message::Acknowledgement { .. } => 45,
            Message::GetLocation => 48,
            Message::SetLocation { .. } => 49,
            Message::StateLocation { .. } => 50,
            Message::GetGroup => 51,
            Message::SetGroup { .. } => 52,
            Message::StateGroup { .. } => 53,
            Message::EchoRequest { .. } => 58,
            Message::EchoResponse { .. } => 59,
            Message::LightGet => 101,
            Message::LightSetColor { .. } => 102,
            Message::SetWaveform { .. } => 103,
            Message::LightState { .. } => 107,
            Message::LightGetPower => 116,
            Message::LightSetPower { .. } => 117,
            Message::LightStatePower { .. } => 118,
            Message::SetWaveformOptional { .. } => 119,
            Message::LightGetInfrared => 120,
            Message::LightStateInfrared { .. } => 121,
            Message::LightSetInfrared { .. } => 122,
            Message::LightGetHevCycle => 142,
            Message::LightSetHevCycle { .. } => 143,
            Message::LightStateHevCycle { .. } => 144,
            Message::LightGetHevCycleConfiguration => 145,
            Message::LightSetHevCycleConfiguration { .. } => 146,
            Message::LightStateHevCycleConfiguration { .. } => 147,
            Message::LightGetLastHevCycleResult => 148,
            Message::LightStateLastHevCycleResult { .. } => 149,
            Message::SetColorZones { .. } => 501,
            Message::GetColorZones { .. } => 502,
            Message::StateZone { .. } => 503,
            Message::StateMultiZone { .. } => 506,
            Message::GetMultiZoneEffect => 507,
            Message::StateMultiZoneEffect { .. } => 509,
            Message::GetExtendedColorZone => 511,
            Message::StateExtendedColorZones { .. } => 512,
            Message::RelayGetPower { .. } => 816,
            Message::RelaySetPower { .. } => 817,
            Message::RelayStatePower { .. } => 818,
        }
    }

    /// Encodes this message to its type id and payload bytes.  Every
    /// field is written in its documented wire order; a nonzero light
    /// power level is written as full power.
    pub fn encode(&self) -> (r: (u16, Vec<u8>))
        ensures
            r.0 == self.spec_num(),
            r.1@ == self.spec_payload(),
    {
        match self {
            Message::GetService => (2, Vec::new()),
            Message::StateService { service, port } => {
                let mut v: Vec<u8> = Vec::new();
                put_u8(&mut v, service.to_byte());
                put_u32(&mut v, *port);
                proof {
                    assert(v@ =~= self.spec_payload());
                }
                (3, v)
            },
            Message::GetHostInfo => (12, Vec::new()),
            Message::StateHostInfo { signal, tx, rx, reserved } => {
                let mut v: Vec<u8> = Vec::new();
                put_u32(&mut v, *signal);
                put_u32(&mut v, *tx);
                put_u32(&mut v, *rx);
                put_i16(&mut v, *reserved);
                proof {
                    assert(v@ =~= self.spec_payload());
                }
                (13, v)
            },
            Message::GetHostFirmware => (14, Vec::new()),
            Message::StateHostFirmware { build, reserved, version_minor, version_major } => {
                let mut v: Vec<u8> = Vec::new();
                put_u64(&mut v, *build);
                put_u64(&mut v, *reserved);
                put_u16(&mut v, *version_minor);
                put_u16(&mut v, *version_major);
                proof {
                    assert(v@ =~= self.spec_payload());
                }
                (15, v)
            },
            Message::GetWifiInfo => (16, Vec::new()),
            Message::StateWifiInfo { signal, reserved6, reserved7, reserved } => {
                let mut v: Vec<u8> = Vec::new();
                put_u32(&mut v, *signal);
                put_u32(&mut v, *reserved6);
                put_u32(&mut v, *reserved7);
                put_i16(&mut v, *reserved);
                proof {
                    assert(v@ =~= self.spec_payload());
                }
                (17, v)
            },
            Message::GetWifiFirmware => (18, Vec::new()),
            Message::StateWifiFirmware { build, reserved, version_minor, version_major } => {
                let mut v: Vec<u8> = Vec::new();
                put_u64(&mut v, *build);
                put_u64(&mut v, *reserved);
                put_u16(&mut v, *version_minor);
                put_u16(&mut v, *version_major);
                proof {
                    assert(v@ =~= self.spec_payload());
                }
                (19, v)
            },
            Message::GetPower => (20, Vec::new()),
            Message::SetPower { level } => {
                let mut v: Vec<u8> = Vec::new();
                put_u16(&mut v, level.to_word());
                proof {
                    assert(v@ =~= self.spec_payload());
                }
                (21, v)
            },
            Message::StatePower { level } => {
                let mut v: Vec<u8> = Vec::new();
                put_u16(&mut v, *level);
                proof {
                    assert(v@ =~= self.spec_payload());
                }
                (22, v)
            },
            Message::GetLabel => (23, Vec::new()),
            Message::SetLabel { label } => {
                let mut v: Vec<u8> = Vec::new();
                put_string(&mut v, label);
                proof {
                    assert(v@ =~= self.spec_payload());
                }
                (24, v)
            },
            Message::StateLabel { label } => {
                let mut v: Vec<u8> = Vec::new();
                put_string(&mut v, label);
                proof {
                    assert(v@ =~= self.spec_payload());
                }
                (25, v)
            },
            Message::GetVersion => (32, Vec::new()),
            Message::StateVersion { vendor, product, reserved } => {
                let mut v: Vec<u8> = Vec::new();
                put_u32(&mut v, *vendor);
                put_u32(&mut v, *product);
                put_u32(&mut v, *reserved);
                proof {
                    assert(v@ =~= self.spec_payload());
                }
                (33, v)
            },
            Message::GetInfo => (34, Vec::new()),
            Message::StateInfo { time, uptime, downtime } => {
                let mut v: Vec<u8> = Vec::new();
                put_u64(&mut v, *time);
                put_u64(&mut v, *uptime);
                put_u64(&mut v, *downtime);
                proof {
                    assert(v@ =~= self.spec_payload());
                }
                (35, v)
            },
            Message::Acknowledgement { .. } => (45, Vec::new()),
            Message::GetLocation => (48, Vec::new()),
            Message::SetLocation { location, label, updated_at } => {
                let mut v: Vec<u8> = Vec::new();
                put_ident(&mut v, location);
                put_string(&mut v, label);
                put_u64(&mut v, *updated_at);
                proof {
                    assert(v@ =~= self.spec_payload());
                }
                (49, v)
            },
            Message::StateLocation { location, label, updated_at } => {
                let mut v: Vec<u8> = Vec::new();
                put_ident(&mut v, location);
                put_string(&mut v, label);
                put_u64(&mut v, *updated_at);
                proof {
                    assert(v@ =~= self.spec_payload());
                }
                (50, v)
            },
            Message::GetGroup => (51, Vec::new()),
            Message::SetGroup { group, label, updated_at } => {
                let mut v: Vec<u8> = Vec::new();
                put_ident(&mut v, group);
                put_string(&mut v, label);
                put_u64(&mut v, *updated_at);
                proof {
                    assert(v@ =~= self.spec_payload());
                }
                (52, v)
            },
            Message::StateGroup { group, label, updated_at } => {
                let mut v: Vec<u8> = Vec::new();
                put_ident(&mut v, group);
                put_string(&mut v, label);
                put_u64(&mut v, *updated_at);
                proof {
                    assert(v@ =~= self.spec_payload());
                }
                (53, v)
            },
            Message::EchoRequest { payload } => {
                let mut v: Vec<u8> = Vec::new();
                put_echo(&mut v, payload);
                proof {
                    assert(v@ =~= self.spec_payload());
                }
                (58, v)
            },
            Message::EchoResponse { payload } => {
                let mut v: Vec<u8> = Vec::new();
                put_echo(&mut v, payload);
                proof {
                    assert(v@ =~= self.spec_payload());
                }
                (59, v)
            },
            Message::LightGet => (101, Vec::new()),
            Message::LightSetColor { reserved, color, duration } => {
                let mut v: Vec<u8> = Vec::new();
                put_u8(&mut v, *reserved);
                put_hsbk(&mut v, *color);
                put_u32(&mut v, *duration);
                proof {
                    assert(v@ =~= self.spec_payload());
                }
                (102, v)
            },
            Message::SetWaveform { reserved, transient, color, period, cycles, skew_ratio, waveform } => {
                let mut v: Vec<u8> = Vec::new();
                put_u8(&mut v, *reserved);
                put_bool(&mut v, *transient);
                put_hsbk(&mut v, *color);
                put_u32(&mut v, *period);
                put_u32(&mut v, *cycles);
                put_i16(&mut v, *skew_ratio);
                put_u8(&mut v, waveform.to_byte());
                proof {
                    assert(v@ =~= self.spec_payload());
                }
                (103, v)
            },
            Message::LightState { color, reserved, power, label, reserved2 } => {
                let mut v: Vec<u8> = Vec::new();
                put_hsbk(&mut v, *color);
                put_i16(&mut v, *reserved);
                put_u16(&mut v, *power);
                put_string(&mut v, label);
                put_u64(&mut v, *reserved2);
                proof {
                    assert(v@ =~= self.spec_payload());
                }
                (107, v)
            },
            Message::LightGetPower => (116, Vec::new()),
            Message::LightSetPower { level, duration } => {
                let mut v: Vec<u8> = Vec::new();
                put_u16(&mut v, if *level > 0 {
                    65535
                } else {
                    0
                });
                put_u32(&mut v, *duration);
                proof {
                    assert(v@ =~= self.spec_payload());
                }
                (117, v)
            },
            Message::LightStatePower { level } => {
                let mut v: Vec<u8> = Vec::new();
                put_u16(&mut v, *level);
                proof {
                    assert(v@ =~= self.spec_payload());
                }
                (118, v)
            },
            Message::SetWaveformOptional { reserved, transient, color, period, cycles, skew_ratio, waveform, set_hue, set_saturation, set_brightness, set_kelvin } => {
                let mut v: Vec<u8> = Vec::new();
                put_u8(&mut v, *reserved);
                put_bool(&mut v, *transient);
                put_hsbk(&mut v, *color);
                put_u32(&mut v, *period);
                put_u32(&mut v, *cycles);
                put_i16(&mut v, *skew_ratio);
                put_u8(&mut v, waveform.to_byte());
                put_bool(&mut v, *set_hue);
                put_bool(&mut v, *set_saturation);
                put_bool(&mut v, *set_brightness);
                put_bool(&mut v, *set_kelvin);
                proof {
                    assert(v@ =~= self.spec_payload());
                }
                (119, v)
            },
            Message::LightGetInfrared => (120, Vec::new()),
            Message::LightStateInfrared { brightness } => {
                let mut v: Vec<u8> = Vec::new();
                put_u16(&mut v, *brightness);
                proof {
                    assert(v@ =~= self.spec_payload());
                }
                (121, v)
            },
            Message::LightSetInfrared { brightness } => {
                let mut v: Vec<u8> = Vec::new();
                put_u16(&mut v, *brightness);
                proof {
                    assert(v@ =~= self.spec_payload());
                }
                (122, v)
            },
            Message::LightGetHevCycle => (142, Vec::new()),
            Message::LightSetHevCycle { enable, duration } => {
                let mut v: Vec<u8> = Vec::new();
                put_bool(&mut v, *enable);
                put_u32(&mut v, *duration);
                proof {
                    assert(v@ =~= self.spec_payload());
                }
                (143, v)
            },
            Message::LightStateHevCycle { duration, remaining, last_power } => {
                let mut v: Vec<u8> = Vec::new();
                put_u32(&mut v, *duration);
                put_u32(&mut v, *remaining);
                put_bool(&mut v, *last_power);
                proof {
                    assert(v@ =~= self.spec_payload());
                }
                (144, v)
            },
            Message::LightGetHevCycleConfiguration => (145, Vec::new()),
            Message::LightSetHevCycleConfiguration { indication, duration } => {
                let mut v: Vec<u8> = Vec::new();
                put_bool(&mut v, *indication);
                put_u32(&mut v, *duration);
                proof {
                    assert(v@ =~= self.spec_payload());
                }
                (146, v)
            },
            Message::LightStateHevCycleConfiguration { indication, duration } => {
                let mut v: Vec<u8> = Vec::new();
                put_bool(&mut v, *indication);
                put_u32(&mut v, *duration);
                proof {
                    assert(v@ =~= self.spec_payload());
                }
                (147, v)
            },
            Message::LightGetLastHevCycleResult => (148, Vec::new()),
            Message::LightStateLastHevCycleResult { result } => {
                let mut v: Vec<u8> = Vec::new();
                put_u8(&mut v, result.to_byte());
                proof {
                    assert(v@ =~= self.spec_payload());
                }
                (149, v)
            },
            Message::SetColorZones { start_index, end_index, color, duration, apply } => {
                let mut v: Vec<u8> = Vec::new();
                put_u8(&mut v, *start_index);
                put_u8(&mut v, *end_index);
                put_hsbk(&mut v, *color);
                put_u32(&mut v, *duration);
                put_u8(&mut v, apply.to_byte());
                proof {
                    assert(v@ =~= self.spec_payload());
                }
                (501, v)
            },
            Message::GetColorZones { start_index, end_index } => {
                let mut v: Vec<u8> = Vec::new();
                put_u8(&mut v, *start_index);
                put_u8(&mut v, *end_index);
                proof {
                    assert(v@ =~= self.spec_payload());
                }
                (502, v)
            },
            Message::StateZone { count, index, color } => {
                let mut v: Vec<u8> = Vec::new();
                put_u8(&mut v, *count);
                put_u8(&mut v, *index);
                put_hsbk(&mut v, *color);
                proof {
                    assert(v@ =~= self.spec_payload());
                }
                (503, v)
            },
            Message::StateMultiZone { count, index, color0, color1, color2, color3, color4, color5, color6, color7 } => {
                let mut v: Vec<u8> = Vec::new();
                put_u8(&mut v, *count);
                put_u8(&mut v, *index);
                put_hsbk(&mut v, *color0);
                put_hsbk(&mut v, *color1);
                put_hsbk(&mut v, *color2);
                put_hsbk(&mut v, *color3);
                put_hsbk(&mut v, *color4);
                put_hsbk(&mut v, *color5);
                put_hsbk(&mut v, *color6);
                put_hsbk(&mut v, *color7);
                proof {
                    assert(v@ =~= self.spec_payload());
                }
                (506, v)
            },
            Message::GetMultiZoneEffect => (507, Vec::new()),
            Message::StateMultiZoneEffect { instance_id, typ, reserved, speed, duration, reserved7, reserved8, parameters } => {
                let mut v: Vec<u8> = Vec::new();
                put_u32(&mut v, *instance_id);
                put_u8(&mut v, typ.to_byte());
                put_u16(&mut v, *reserved);
                put_u32(&mut v, *speed);
                put_u64(&mut v, *duration);
                put_u32(&mut v, *reserved7);
                put_u32(&mut v, *reserved8);
                put_bytes(&mut v, parameters);
                proof {
                    assert(v@ =~= self.spec_payload());
                }
                (509, v)
            },
            Message::GetExtendedColorZone => (511, Vec::new()),
            Message::StateExtendedColorZones { zones_count, zone_index, colors_count, colors } => {
                let mut v: Vec<u8> = Vec::new();
                put_u16(&mut v, *zones_count);
                put_u16(&mut v, *zone_index);
                put_u8(&mut v, *colors_count);
                put_hsbk_array(&mut v, colors);
                proof {
                    assert(v@ =~= self.spec_payload());
                }
                (512, v)
            },
            Message::RelayGetPower { relay_index } => {
                let mut v: Vec<u8> = Vec::new();
                put_u8(&mut v, *relay_index);
                proof {
                    assert(v@ =~= self.spec_payload());
                }
                (816, v)
            },
            Message::RelaySetPower { relay_index, level } => {
                let mut v: Vec<u8> = Vec::new();
                put_u8(&mut v, *relay_index);
                put_u16(&mut v, *level);
                proof {
                    assert(v@ =~= self.spec_payload());
                }
                (817, v)
            },
            Message::RelayStatePower { relay_index, level } => {
                let mut v: Vec<u8> = Vec::new();
                put_u8(&mut v, *relay_index);
                put_u16(&mut v, *level);
                proof {
                    assert(v@ =~= self.spec_payload());
                }
                (818, v)
            },
        }
    }

    /// Decodes the payload of a raw message, given its type id and the
    /// sequence number of its frame address.  An unknown id is reported
    /// as `UnknownMessageType`; a payload shorter than the kind requires
    /// is an `Io` error; an undocumented enumeration value is a
    /// `ProtocolError`.  No inbound bytes can make it panic or read out
    /// of bounds, and bytes past the fixed layout are ignored.
    pub fn decode(typ: u16, payload: &[u8], sequence: u8) -> (r: Result<Message, Error>)
        ensures
            match r {
                Ok(m) => spec_known(typ) && payload@.len() >= spec_min_len(typ)
                    && spec_fields_valid(typ, payload@) && m == spec_decode_payload(
                    typ,
                    payload@,
                    sequence,
                ),
                Err(e) => match e {
                    Error::UnknownMessageType(t) => t == typ && !spec_known(typ),
                    Error::Io => spec_known(typ) && payload@.len() < spec_min_len(typ),
                    Error::ProtocolError(_) => spec_known(typ) && payload@.len()
                        >= spec_min_len(typ) && !spec_fields_valid(typ, payload@),
                },
            },
    {
        match typ {
            2 => Ok(Message::GetService),
            3 => {
                if payload.len() < 5 {
                    return Err(Error::Io);
                }
                let service_raw = read_u8(payload, 0);
                let service = match Service::from_byte(service_raw) {
                    Some(x) => x,
                    None => {
                        return Err(Error::ProtocolError("unknown service value".to_owned()));
                    },
                };
                let port = read_u32(payload, 1);
                Ok(Message::StateService { service, port })
            },
            12 => Ok(Message::GetHostInfo),
            13 => {
                if payload.len() < 14 {
                    return Err(Error::Io);
                }
                let signal = read_u32(payload, 0);
                let tx = read_u32(payload, 4);
                let rx = read_u32(payload, 8);
                let reserved = read_i16(payload, 12);
                Ok(Message::StateHostInfo { signal, tx, rx, reserved })
            },
            14 => Ok(Message::GetHostFirmware),
            15 => {
                if payload.len() < 20 {
                    return Err(Error::Io);
                }
                let build = read_u64(payload, 0);
                let reserved = read_u64(payload, 8);
                let version_minor = read_u16(payload, 16);
                let version_major = read_u16(payload, 18);
                Ok(Message::StateHostFirmware { build, reserved, version_minor, version_major })
            },
            16 => Ok(Message::GetWifiInfo),
            17 => {
                if payload.len() < 14 {
                    return Err(Error::Io);
                }
                let signal = read_u32(payload, 0);
                let reserved6 = read_u32(payload, 4);
                let reserved7 = read_u32(payload, 8);
                let reserved = read_i16(payload, 12);
                Ok(Message::StateWifiInfo { signal, reserved6, reserved7, reserved })
            },
            18 => Ok(Message::GetWifiFirmware),
            19 => {
                if payload.len() < 20 {
                    return Err(Error::Io);
                }
                let build = read_u64(payload, 0);
                let reserved = read_u64(payload, 8);
                let version_minor = read_u16(payload, 16);
                let version_major = read_u16(payload, 18);
                Ok(Message::StateWifiFirmware { build, reserved, version_minor, version_major })
            },
            20 => Ok(Message::GetPower),
            21 => {
                if payload.len() < 2 {
                    return Err(Error::Io);
                }
                let level_raw = read_u16(payload, 0);
                let level = match PowerLevel::from_word(level_raw) {
                    Some(x) => x,
                    None => {
                        return Err(Error::ProtocolError("unknown power level".to_owned()));
                    },
                };
                Ok(Message::SetPower { level })
            },
            22 => {
                if payload.len() < 2 {
                    return Err(Error::Io);
                }
                let level = read_u16(payload, 0);
                Ok(Message::StatePower { level })
            },
            23 => Ok(Message::GetLabel),
            24 => {
                if payload.len() < 32 {
                    return Err(Error::Io);
                }
                let label = read_string(payload, 0);
                Ok(Message::SetLabel { label })
            },
            25 => {
                if payload.len() < 32 {
                    return Err(Error::Io);
                }
                let label = read_string(payload, 0);
                Ok(Message::StateLabel { label })
            },
            32 => Ok(Message::GetVersion),
            33 => {
                if payload.len() < 12 {
                    return Err(Error::Io);
                }
                let vendor = read_u32(payload, 0);
                let product = read_u32(payload, 4);
                let reserved = read_u32(payload, 8);
                Ok(Message::StateVersion { vendor, product, reserved })
            },
            34 => Ok(Message::GetInfo),
            35 => {
                if payload.len() < 24 {
                    return Err(Error::Io);
                }
                let time = read_u64(payload, 0);
                let uptime = read_u64(payload, 8);
                let downtime = read_u64(payload, 16);
                Ok(Message::StateInfo { time, uptime, downtime })
            },
            45 => Ok(Message::Acknowledgement { seq: sequence }),
            48 => Ok(Message::GetLocation),
            49 => {
                if payload.len() < 56 {
                    return Err(Error::Io);
                }
                let location = read_ident(payload, 0);
                let label = read_string(payload, 16);
                let updated_at = read_u64(payload, 48);
                proof {
                    lemma_seq_to_array(location.0);
                }
                Ok(Message::SetLocation { location, label, updated_at })
            },
            50 => {
                if payload.len() < 56 {
                    return Err(Error::Io);
                }
                let location = read_ident(payload, 0);
                let label = read_string(payload, 16);
                let updated_at = read_u64(payload, 48);
                proof {
                    lemma_seq_to_array(location.0);
                }
                Ok(Message::StateLocation { location, label, updated_at })
            },
            51 => Ok(Message::GetGroup),
            52 => {
                if payload.len() < 56 {
                    return Err(Error::Io);
                }
                let group = read_ident(payload, 0);
                let label = read_string(payload, 16);
                let updated_at = read_u64(payload, 48);
                proof {
                    lemma_seq_to_array(group.0);
                }
                Ok(Message::SetGroup { group, label, updated_at })
            },
            53 => {
                if payload.len() < 56 {
                    return Err(Error::Io);
                }
                let group = read_ident(payload, 0);
                let label = read_string(payload, 16);
                let updated_at = read_u64(payload, 48);
                proof {
                    lemma_seq_to_array(group.0);
                }
                Ok(Message::StateGroup { group, label, updated_at })
            },
            58 => {
                if payload.len() < 64 {
                    return Err(Error::Io);
                }
                let payload = read_echo(payload, 0);
                proof {
                    lemma_seq_to_array(payload.0);
                }
                Ok(Message::EchoRequest { payload })
            },
            59 => {
                if payload.len() < 64 {
                    return Err(Error::Io);
                }
                let payload = read_echo(payload, 0);
                proof {
                    lemma_seq_to_array(payload.0);
                }
                Ok(Message::EchoResponse { payload })
            },
            101 => Ok(Message::LightGet),
            102 => {
                if payload.len() < 13 {
                    return Err(Error::Io);
                }
                let reserved = read_u8(payload, 0);
                let color = read_hsbk(payload, 1);
                let duration = read_u32(payload, 9);
                Ok(Message::LightSetColor { reserved, color, duration })
            },
            103 => {
                if payload.len() < 21 {
                    return Err(Error::Io);
                }
                let reserved = read_u8(payload, 0);
                let transient = read_bool(payload, 1);
                let color = read_hsbk(payload, 2);
                let period = read_u32(payload, 10);
                let cycles = read_u32(payload, 14);
                let skew_ratio = read_i16(payload, 18);
                let waveform_raw = read_u8(payload, 20);
                let waveform = match Waveform::from_byte(waveform_raw) {
                    Some(x) => x,
                    None => {
                        return Err(Error::ProtocolError("unknown waveform value".to_owned()));
                    },
                };
                Ok(Message::SetWaveform { reserved, transient, color, period, cycles, skew_ratio, waveform })
            },
            107 => {
                if payload.len() < 52 {
                    return Err(Error::Io);
                }
                let color = read_hsbk(payload, 0);
                let reserved = read_i16(payload, 8);
                let power = read_u16(payload, 10);
                let label = read_string(payload, 12);
                let reserved2 = read_u64(payload, 44);
                Ok(Message::LightState { color, reserved, power, label, reserved2 })
            },
            116 => Ok(Message::LightGetPower),
            117 => {
                if payload.len() < 6 {
                    return Err(Error::Io);
                }
                let level = read_u16(payload, 0);
                let duration = read_u32(payload, 2);
                Ok(Message::LightSetPower { level, duration })
            },
            118 => {
                if payload.len() < 2 {
                    return Err(Error::Io);
                }
                let level = read_u16(payload, 0);
                Ok(Message::LightStatePower { level })
            },
            119 => {
                if payload.len() < 25 {
                    return Err(Error::Io);
                }
                let reserved = read_u8(payload, 0);
                let transient = read_bool(payload, 1);
                let color = read_hsbk(payload, 2);
                let period = read_u32(payload, 10);
                let cycles = read_u32(payload, 14);
                let skew_ratio = read_i16(payload, 18);
                let waveform_raw = read_u8(payload, 20);
                let waveform = match Waveform::from_byte(waveform_raw) {
                    Some(x) => x,
                    None => {
                        return Err(Error::ProtocolError("unknown waveform value".to_owned()));
                    },
                };
                let set_hue = read_bool(payload, 21);
                let set_saturation = read_bool(payload, 22);
                let set_brightness = read_bool(payload, 23);
                let set_kelvin = read_bool(payload, 24);
                Ok(Message::SetWaveformOptional { reserved, transient, color, period, cycles, skew_ratio, waveform, set_hue, set_saturation, set_brightness, set_kelvin })
            },
            120 => Ok(Message::LightGetInfrared),
            121 => {
                if payload.len() < 2 {
                    return Err(Error::Io);
                }
                let brightness = read_u16(payload, 0);
                Ok(Message::LightStateInfrared { brightness })
            },
            122 => {
                if payload.len() < 2 {
                    return Err(Error::Io);
                }
                let brightness = read_u16(payload, 0);
                Ok(Message::LightSetInfrared { brightness })
            },
            142 => Ok(Message::LightGetHevCycle),
            143 => {
                if payload.len() < 5 {
                    return Err(Error::Io);
                }
                let enable = read_bool(payload, 0);
                let duration = read_u32(payload, 1);
                Ok(Message::LightSetHevCycle { enable, duration })
            },
            144 => {
                if payload.len() < 9 {
                    return Err(Error::Io);
                }
                let duration = read_u32(payload, 0);
                let remaining = read_u32(payload, 4);
                let last_power = read_bool(payload, 8);
                Ok(Message::LightStateHevCycle { duration, remaining, last_power })
            },
            145 => Ok(Message::LightGetHevCycleConfiguration),
            146 => {
                if payload.len() < 5 {
                    return Err(Error::Io);
                }
                let indication = read_bool(payload, 0);
                let duration = read_u32(payload, 1);
                Ok(Message::LightSetHevCycleConfiguration { indication, duration })
            },
            147 => {
                if payload.len() < 5 {
                    return Err(Error::Io);
                }
                let indication = read_bool(payload, 0);
                let duration = read_u32(payload, 1);
                Ok(Message::LightStateHevCycleConfiguration { indication, duration })
            },
            148 => Ok(Message::LightGetLastHevCycleResult),
            149 => {
                if payload.len() < 1 {
                    return Err(Error::Io);
                }
                let result_raw = read_u8(payload, 0);
                let result = match LastHevCycleResult::from_byte(result_raw) {
                    Some(x) => x,
                    None => {
                        return Err(Error::ProtocolError("unknown last hev cycle result".to_owned()));
                    },
                };
                Ok(Message::LightStateLastHevCycleResult { result })
            },
            501 => {
                if payload.len() < 15 {
                    return Err(Error::Io);
                }
                let start_index = read_u8(payload, 0);
                let end_index = read_u8(payload, 1);
                let color = read_hsbk(payload, 2);
                let duration = read_u32(payload, 10);
                let apply_raw = read_u8(payload, 14);
                let apply = match ApplicationRequest::from_byte(apply_raw) {
                    Some(x) => x,
                    None => {
                        return Err(Error::ProtocolError("unknown application request".to_owned()));
                    },
                };
                Ok(Message::SetColorZones { start_index, end_index, color, duration, apply })
            },
            502 => {
                if payload.len() < 2 {
                    return Err(Error::Io);
                }
                let start_index = read_u8(payload, 0);
                let end_index = read_u8(payload, 1);
                Ok(Message::GetColorZones { start_index, end_index })
            },
            503 => {
                if payload.len() < 10 {
                    return Err(Error::Io);
                }
                let count = read_u8(payload, 0);
                let index = read_u8(payload, 1);
                let color = read_hsbk(payload, 2);
                Ok(Message::StateZone { count, index, color })
            },
            506 => {
                if payload.len() < 66 {
                    return Err(Error::Io);
                }
                let count = read_u8(payload, 0);
                let index = read_u8(payload, 1);
                let color0 = read_hsbk(payload, 2);
                let color1 = read_hsbk(payload, 10);
                let color2 = read_hsbk(payload, 18);
                let color3 = read_hsbk(payload, 26);
                let color4 = read_hsbk(payload, 34);
                let color5 = read_hsbk(payload, 42);
                let color6 = read_hsbk(payload, 50);
                let color7 = read_hsbk(payload, 58);
                Ok(Message::StateMultiZone { count, index, color0, color1, color2, color3, color4, color5, color6, color7 })
            },
            507 => Ok(Message::GetMultiZoneEffect),
            509 => {
                if payload.len() < 59 {
                    return Err(Error::Io);
                }
                let instance_id = read_u32(payload, 0);
                let typ_raw = read_u8(payload, 4);
                let typ = match MultiZoneEffectType::from_byte(typ_raw) {
                    Some(x) => x,
                    None => {
                        return Err(Error::ProtocolError("unknown multizone effect type".to_owned()));
                    },
                };
                let reserved = read_u16(payload, 5);
                let speed = read_u32(payload, 7);
                let duration = read_u64(payload, 11);
                let reserved7 = read_u32(payload, 19);
                let reserved8 = read_u32(payload, 23);
                let parameters: [u8; 32] = read_bytes(payload, 27);
                proof {
                    lemma_seq_to_array(parameters);
                }
                Ok(Message::StateMultiZoneEffect { instance_id, typ, reserved, speed, duration, reserved7, reserved8, parameters })
            },
            511 => Ok(Message::GetExtendedColorZone),
            512 => {
                if payload.len() < 661 {
                    return Err(Error::Io);
                }
                let zones_count = read_u16(payload, 0);
                let zone_index = read_u16(payload, 2);
                let colors_count = read_u8(payload, 4);
                let colors = read_hsbk_array(payload, 5);
                proof {
                    lemma_seq_to_array(colors);
                }
                Ok(Message::StateExtendedColorZones { zones_count, zone_index, colors_count, colors })
            },
            816 => {
                if payload.len() < 1 {
                    return Err(Error::Io);
                }
                let relay_index = read_u8(payload, 0);
                Ok(Message::RelayGetPower { relay_index })
            },
            817 => {
                if payload.len() < 3 {
                    return Err(Error::Io);
                }
                let relay_index = read_u8(payload, 0);
                let level = read_u16(payload, 1);
                Ok(Message::RelaySetPower { relay_index, level })
            },
            818 => {
                if payload.len() < 3 {
                    return Err(Error::Io);
                }
                let relay_index = read_u8(payload, 0);
                let level = read_u16(payload, 1);
                Ok(Message::RelayStatePower { relay_index, level })
            },
            _ => Err(Error::UnknownMessageType(typ)),
        }
    }
}

proof fn rt_state_service(service: Service, port: u32, sequence: u8)
    ensures
        ({
            let p = enc_u8(service.spec_byte()) + enc_u32(port);
            p.len() == 5 && spec_fields_valid(3, p) && spec_decode_payload(3, p, sequence)
                == (Message::StateService { service, port })
        }),
{
    crate::wire::lemma_scalar_round_trips();
    let p = enc_u8(service.spec_byte()) + enc_u32(port);
    assert(p.subrange(0, 1) =~= enc_u8(service.spec_byte()));
    assert(p.subrange(1, 5) =~= enc_u32(port));
}

proof fn rt_state_host_info(signal: u32, tx: u32, rx: u32, reserved: i16, sequence: u8)
    ensures
        ({
            let p = enc_u32(signal) + enc_u32(tx) + enc_u32(rx) + enc_i16(reserved);
            p.len() == 14 && spec_fields_valid(13, p) && spec_decode_payload(13, p, sequence)
                == (Message::StateHostInfo { signal, tx, rx, reserved })
        }),
{
    crate::wire::lemma_scalar_round_trips();
    let p = enc_u32(signal) + enc_u32(tx) + enc_u32(rx) + enc_i16(reserved);
    assert(p.subrange(0, 4) =~= enc_u32(signal));
    assert(p.subrange(4, 8) =~= enc_u32(tx));
    assert(p.subrange(8, 12) =~= enc_u32(rx));
    assert(p.subrange(12, 14) =~= enc_i16(reserved));
}

proof fn rt_state_host_firmware(build: u64, reserved: u64, version_minor: u16, version_major: u16, sequence: u8)
    ensures
        ({
            let p = enc_u64(build) + enc_u64(reserved) + enc_u16(version_minor) + enc_u16(version_major);
            p.len() == 20 && spec_fields_valid(15, p) && spec_decode_payload(15, p, sequence)
                == (Message::StateHostFirmware { build, reserved, version_minor, version_major })
        }),
{
    crate::wire::lemma_scalar_round_trips();
    let p = enc_u64(build) + enc_u64(reserved) + enc_u16(version_minor) + enc_u16(version_major);
    assert(p.subrange(0, 8) =~= enc_u64(build));
    assert(p.subrange(8, 16) =~= enc_u64(reserved));
    assert(p.subrange(16, 18) =~= enc_u16(version_minor));
    assert(p.subrange(18, 20) =~= enc_u16(version_major));
}

proof fn rt_state_wifi_info(signal: u32, reserved6: u32, reserved7: u32, reserved: i16, sequence: u8)
    ensures
        ({
            let p = enc_u32(signal) + enc_u32(reserved6) + enc_u32(reserved7) + enc_i16(reserved);
            p.len() == 14 && spec_fields_valid(17, p) && spec_decode_payload(17, p, sequence)
                == (Message::StateWifiInfo { signal, reserved6, reserved7, reserved })
        }),
{
    crate::wire::lemma_scalar_round_trips();
    let p = enc_u32(signal) + enc_u32(reserved6) + enc_u32(reserved7) + enc_i16(reserved);
    assert(p.subrange(0, 4) =~= enc_u32(signal));
    assert(p.subrange(4, 8) =~= enc_u32(reserved6));
    assert(p.subrange(8, 12) =~= enc_u32(reserved7));
    assert(p.subrange(12, 14) =~= enc_i16(reserved));
}

proof fn rt_state_wifi_firmware(build: u64, reserved: u64, version_minor: u16, version_major: u16, sequence: u8)
    ensures
        ({
            let p = enc_u64(build) + enc_u64(reserved) + enc_u16(version_minor) + enc_u16(version_major);
            p.len() == 20 && spec_fields_valid(19, p) && spec_decode_payload(19, p, sequence)
                == (Message::StateWifiFirmware { build, reserved, version_minor, version_major })
        }),
{
    crate::wire::lemma_scalar_round_trips();
    let p = enc_u64(build) + enc_u64(reserved) + enc_u16(version_minor) + enc_u16(version_major);
    assert(p.subrange(0, 8) =~= enc_u64(build));
    assert(p.subrange(8, 16) =~= enc_u64(reserved));
    assert(p.subrange(16, 18) =~= enc_u16(version_minor));
    assert(p.subrange(18, 20) =~= enc_u16(version_major));
}

proof fn rt_set_power(level: PowerLevel, sequence: u8)
    ensures
        ({
            let p = enc_u16(level.spec_word());
            p.len() == 2 && spec_fields_valid(21, p) && spec_decode_payload(21, p, sequence)
                == (Message::SetPower { level })
        }),
{
    crate::wire::lemma_scalar_round_trips();
    let p = enc_u16(level.spec_word());
    assert(p.subrange(0, 2) =~= enc_u16(level.spec_word()));
}

proof fn rt_state_power(level: u16, sequence: u8)
    ensures
        ({
            let p = enc_u16(level);
            p.len() == 2 && spec_fields_valid(22, p) && spec_decode_payload(22, p, sequence)
                == (Message::StatePower { level })
        }),
{
    crate::wire::lemma_scalar_round_trips();
    let p = enc_u16(level);
    assert(p.subrange(0, 2) =~= enc_u16(level));
}

proof fn rt_set_label(label: LifxString, sequence: u8)
    requires
        label.wf(),
    ensures
        ({
            let p = enc_string(label);
            p.len() == 32 && spec_fields_valid(24, p) && spec_decode_payload(24, p, sequence)
                == (Message::SetLabel { label })
        }),
{
    crate::wire::lemma_scalar_round_trips();
    let p = enc_string(label);
    assert(p.subrange(0, 32) =~= enc_string(label));
    label.lemma_content();
    assert(p.subrange(0, 31) =~= zero_pad(label@, 31));
    lemma_nonzero_of_padded(zero_pad(label@, 31), label@.len() as int);
    assert(zero_pad(label@, 31).take(label@.len() as int) =~= label@);
    lemma_string_of(label);
    assert(dec_string(p, 0) == label);
}

proof fn rt_state_label(label: LifxString, sequence: u8)
    requires
        label.wf(),
    ensures
        ({
            let p = enc_string(label);
            p.len() == 32 && spec_fields_valid(25, p) && spec_decode_payload(25, p, sequence)
                == (Message::StateLabel { label })
        }),
{
    crate::wire::lemma_scalar_round_trips();
    let p = enc_string(label);
    assert(p.subrange(0, 32) =~= enc_string(label));
    label.lemma_content();
    assert(p.subrange(0, 31) =~= zero_pad(label@, 31));
    lemma_nonzero_of_padded(zero_pad(label@, 31), label@.len() as int);
    assert(zero_pad(label@, 31).take(label@.len() as int) =~= label@);
    lemma_string_of(label);
    assert(dec_string(p, 0) == label);
}

proof fn rt_state_version(vendor: u32, product: u32, reserved: u32, sequence: u8)
    ensures
        ({
            let p = enc_u32(vendor) + enc_u32(product) + enc_u32(reserved);
            p.len() == 12 && spec_fields_valid(33, p) && spec_decode_payload(33, p, sequence)
                == (Message::StateVersion { vendor, product, reserved })
        }),
{
    crate::wire::lemma_scalar_round_trips();
    let p = enc_u32(vendor) + enc_u32(product) + enc_u32(reserved);
    assert(p.subrange(0, 4) =~= enc_u32(vendor));
    assert(p.subrange(4, 8) =~= enc_u32(product));
    assert(p.subrange(8, 12) =~= enc_u32(reserved));
}

proof fn rt_state_info(time: u64, uptime: u64, downtime: u64, sequence: u8)
    ensures
        ({
            let p = enc_u64(time) + enc_u64(uptime) + enc_u64(downtime);
            p.len() == 24 && spec_fields_valid(35, p) && spec_decode_payload(35, p, sequence)
                == (Message::StateInfo { time, uptime, downtime })
        }),
{
    crate::wire::lemma_scalar_round_trips();
    let p = enc_u64(time) + enc_u64(uptime) + enc_u64(downtime);
    assert(p.subrange(0, 8) =~= enc_u64(time));
    assert(p.subrange(8, 16) =~= enc_u64(uptime));
    assert(p.subrange(16, 24) =~= enc_u64(downtime));
}

proof fn rt_set_location(location: LifxIdent, label: LifxString, updated_at: u64, sequence: u8)
    requires
        label.wf(),
    ensures
        ({
            let p = enc_ident(location) + enc_string(label) + enc_u64(updated_at);
            p.len() == 56 && spec_fields_valid(49, p) && spec_decode_payload(49, p, sequence)
                == (Message::SetLocation { location, label, updated_at })
        }),
{
    crate::wire::lemma_scalar_round_trips();
    let p = enc_ident(location) + enc_string(label) + enc_u64(updated_at);
    assert(p.subrange(0, 16) =~= enc_ident(location));
    lemma_seq_to_array(location.0);
    assert(dec_ident(p, 0) == location);
    assert(p.subrange(16, 48) =~= enc_string(label));
    label.lemma_content();
    assert(p.subrange(16, 47) =~= zero_pad(label@, 31));
    lemma_nonzero_of_padded(zero_pad(label@, 31), label@.len() as int);
    assert(zero_pad(label@, 31).take(label@.len() as int) =~= label@);
    lemma_string_of(label);
    assert(dec_string(p, 16) == label);
    assert(p.subrange(48, 56) =~= enc_u64(updated_at));
}

proof fn rt_state_location(location: LifxIdent, label: LifxString, updated_at: u64, sequence: u8)
    requires
        label.wf(),
    ensures
        ({
            let p = enc_ident(location) + enc_string(label) + enc_u64(updated_at);
            p.len() == 56 && spec_fields_valid(50, p) && spec_decode_payload(50, p, sequence)
                == (Message::StateLocation { location, label, updated_at })
        }),
{
    crate::wire::lemma_scalar_round_trips();
    let p = enc_ident(location) + enc_string(label) + enc_u64(updated_at);
    assert(p.subrange(0, 16) =~= enc_ident(location));
    lemma_seq_to_array(location.0);
    assert(dec_ident(p, 0) == location);
    assert(p.subrange(16, 48) =~= enc_string(label));
    label.lemma_content();
    assert(p.subrange(16, 47) =~= zero_pad(label@, 31));
    lemma_nonzero_of_padded(zero_pad(label@, 31), label@.len() as int);
    assert(zero_pad(label@, 31).take(label@.len() as int) =~= label@);
    lemma_string_of(label);
    assert(dec_string(p, 16) == label);
    assert(p.subrange(48, 56) =~= enc_u64(updated_at));
}

proof fn rt_set_group(group: LifxIdent, label: LifxString, updated_at: u64, sequence: u8)
    requires
        label.wf(),
    ensures
        ({
            let p = enc_ident(group) + enc_string(label) + enc_u64(updated_at);
            p.len() == 56 && spec_fields_valid(52, p) && spec_decode_payload(52, p, sequence)
                == (Message::SetGroup { group, label, updated_at })
        }),
{
    crate::wire::lemma_scalar_round_trips();
    let p = enc_ident(group) + enc_string(label) + enc_u64(updated_at);
    assert(p.subrange(0, 16) =~= enc_ident(group));
    lemma_seq_to_array(group.0);
    assert(dec_ident(p, 0) == group);
    assert(p.subrange(16, 48) =~= enc_string(label));
    label.lemma_content();
    assert(p.subrange(16, 47) =~= zero_pad(label@, 31));
    lemma_nonzero_of_padded(zero_pad(label@, 31), label@.len() as int);
    assert(zero_pad(label@, 31).take(label@.len() as int) =~= label@);
    lemma_string_of(label);
    assert(dec_string(p, 16) == label);
    assert(p.subrange(48, 56) =~= enc_u64(updated_at));
}

proof fn rt_state_group(group: LifxIdent, label: LifxString, updated_at: u64, sequence: u8)
    requires
        label.wf(),
    ensures
        ({
            let p = enc_ident(group) + enc_string(label) + enc_u64(updated_at);
            p.len() == 56 && spec_fields_valid(53, p) && spec_decode_payload(53, p, sequence)
                == (Message::StateGroup { group, label, updated_at })
        }),
{
    crate::wire::lemma_scalar_round_trips();
    let p = enc_ident(group) + enc_string(label) + enc_u64(updated_at);
    assert(p.subrange(0, 16) =~= enc_ident(group));
    lemma_seq_to_array(group.0);
    assert(dec_ident(p, 0) == group);
    assert(p.subrange(16, 48) =~= enc_string(label));
    label.lemma_content();
    assert(p.subrange(16, 47) =~= zero_pad(label@, 31));
    lemma_nonzero_of_padded(zero_pad(label@, 31), label@.len() as int);
    assert(zero_pad(label@, 31).take(label@.len() as int) =~= label@);
    lemma_string_of(label);
    assert(dec_string(p, 16) == label);
    assert(p.subrange(48, 56) =~= enc_u64(updated_at));
}

proof fn rt_echo_request(payload: EchoPayload, sequence: u8)
    ensures
        ({
            let p = enc_echo(payload);
            p.len() == 64 && spec_fields_valid(58, p) && spec_decode_payload(58, p, sequence)
                == (Message::EchoRequest { payload })
        }),
{
    crate::wire::lemma_scalar_round_trips();
    let p = enc_echo(payload);
    assert(p.subrange(0, 64) =~= enc_echo(payload));
    lemma_seq_to_array(payload.0);
    assert(dec_echo(p, 0) == payload);
}

proof fn rt_echo_response(payload: EchoPayload, sequence: u8)
    ensures
        ({
            let p = enc_echo(payload);
            p.len() == 64 && spec_fields_valid(59, p) && spec_decode_payload(59, p, sequence)
                == (Message::EchoResponse { payload })
        }),
{
    crate::wire::lemma_scalar_round_trips();
    let p = enc_echo(payload);
    assert(p.subrange(0, 64) =~= enc_echo(payload));
    lemma_seq_to_array(payload.0);
    assert(dec_echo(p, 0) == payload);
}

proof fn rt_light_set_color(reserved: u8, color: HSBK, duration: u32, sequence: u8)
    ensures
        ({
            let p = enc_u8(reserved) + enc_hsbk(color) + enc_u32(duration);
            p.len() == 13 && spec_fields_valid(102, p) && spec_decode_payload(102, p, sequence)
                == (Message::LightSetColor { reserved, color, duration })
        }),
{
    crate::wire::lemma_scalar_round_trips();
    let p = enc_u8(reserved) + enc_hsbk(color) + enc_u32(duration);
    assert(p.subrange(0, 1) =~= enc_u8(reserved));
    assert(p.subrange(1, 9) =~= enc_hsbk(color));
    lemma_dec_hsbk_of_enc(p, 1, color);
    assert(p.subrange(9, 13) =~= enc_u32(duration));
}

proof fn rt_set_waveform(reserved: u8, transient: bool, color: HSBK, period: u32, cycles: u32, skew_ratio: i16, waveform: Waveform, sequence: u8)
    ensures
        ({
            let p = enc_u8(reserved) + enc_bool(transient) + enc_hsbk(color) + enc_u32(period) + enc_u32(cycles) + enc_i16(skew_ratio) + enc_u8(waveform.spec_byte());
            p.len() == 21 && spec_fields_valid(103, p) && spec_decode_payload(103, p, sequence)
                == (Message::SetWaveform { reserved, transient, color, period, cycles, skew_ratio, waveform })
        }),
{
    crate::wire::lemma_scalar_round_trips();
    let p = enc_u8(reserved) + enc_bool(transient) + enc_hsbk(color) + enc_u32(period) + enc_u32(cycles) + enc_i16(skew_ratio) + enc_u8(waveform.spec_byte());
    assert(p.subrange(0, 1) =~= enc_u8(reserved));
    assert(p.subrange(1, 2) =~= enc_bool(transient));
    assert(p.subrange(2, 10) =~= enc_hsbk(color));
    lemma_dec_hsbk_of_enc(p, 2, color);
    assert(p.subrange(10, 14) =~= enc_u32(period));
    assert(p.subrange(14, 18) =~= enc_u32(cycles));
    assert(p.subrange(18, 20) =~= enc_i16(skew_ratio));
    assert(p.subrange(20, 21) =~= enc_u8(waveform.spec_byte()));
}

proof fn rt_light_state(color: HSBK, reserved: i16, power: u16, label: LifxString, reserved2: u64, sequence: u8)
    requires
        label.wf(),
    ensures
        ({
            let p = enc_hsbk(color) + enc_i16(reserved) + enc_u16(power) + enc_string(label) + enc_u64(reserved2);
            p.len() == 52 && spec_fields_valid(107, p) && spec_decode_payload(107, p, sequence)
                == (Message::LightState { color, reserved, power, label, reserved2 })
        }),
{
    crate::wire::lemma_scalar_round_trips();
    let p = enc_hsbk(color) + enc_i16(reserved) + enc_u16(power) + enc_string(label) + enc_u64(reserved2);
    assert(p.subrange(0, 8) =~= enc_hsbk(color));
    lemma_dec_hsbk_of_enc(p, 0, color);
    assert(p.subrange(8, 10) =~= enc_i16(reserved));
    assert(p.subrange(10, 12) =~= enc_u16(power));
    assert(p.subrange(12, 44) =~= enc_string(label));
    label.lemma_content();
    assert(p.subrange(12, 43) =~= zero_pad(label@, 31));
    lemma_nonzero_of_padded(zero_pad(label@, 31), label@.len() as int);
    assert(zero_pad(label@, 31).take(label@.len() as int) =~= label@);
    lemma_string_of(label);
    assert(dec_string(p, 12) == label);
    assert(p.subrange(44, 52) =~= enc_u64(reserved2));
}

proof fn rt_light_set_power(level: u16, duration: u32, sequence: u8)
    ensures
        ({
            let p = enc_u16(spec_wire_level(level)) + enc_u32(duration);
            p.len() == 6 && spec_fields_valid(117, p) && spec_decode_payload(117, p, sequence)
                == (Message::LightSetPower { level: spec_wire_level(level), duration })
        }),
{
    crate::wire::lemma_scalar_round_trips();
    let p = enc_u16(spec_wire_level(level)) + enc_u32(duration);
    assert(p.subrange(0, 2) =~= enc_u16(spec_wire_level(level)));
    assert(p.subrange(2, 6) =~= enc_u32(duration));
}

proof fn rt_light_state_power(level: u16, sequence: u8)
    ensures
        ({
            let p = enc_u16(level);
            p.len() == 2 && spec_fields_valid(118, p) && spec_decode_payload(118, p, sequence)
                == (Message::LightStatePower { level })
        }),
{
    crate::wire::lemma_scalar_round_trips();
    let p = enc_u16(level);
    assert(p.subrange(0, 2) =~= enc_u16(level));
}

proof fn rt_set_waveform_optional(reserved: u8, transient: bool, color: HSBK, period: u32, cycles: u32, skew_ratio: i16, waveform: Waveform, set_hue: bool, set_saturation: bool, set_brightness: bool, set_kelvin: bool, sequence: u8)
    ensures
        ({
            let p = enc_u8(reserved) + enc_bool(transient) + enc_hsbk(color) + enc_u32(period) + enc_u32(cycles) + enc_i16(skew_ratio) + enc_u8(waveform.spec_byte()) + enc_bool(set_hue) + enc_bool(set_saturation) + enc_bool(set_brightness) + enc_bool(set_kelvin);
            p.len() == 25 && spec_fields_valid(119, p) && spec_decode_payload(119, p, sequence)
                == (Message::SetWaveformOptional { reserved, transient, color, period, cycles, skew_ratio, waveform, set_hue, set_saturation, set_brightness, set_kelvin })
        }),
{
    crate::wire::lemma_scalar_round_trips();
    let p = enc_u8(reserved) + enc_bool(transient) + enc_hsbk(color) + enc_u32(period) + enc_u32(cycles) + enc_i16(skew_ratio) + enc_u8(waveform.spec_byte()) + enc_bool(set_hue) + enc_bool(set_saturation) + enc_bool(set_brightness) + enc_bool(set_kelvin);
    assert(p.subrange(0, 1) =~= enc_u8(reserved));
    assert(p.subrange(1, 2) =~= enc_bool(transient));
    assert(p.subrange(2, 10) =~= enc_hsbk(color));
    lemma_dec_hsbk_of_enc(p, 2, color);
    assert(p.subrange(10, 14) =~= enc_u32(period));
    assert(p.subrange(14, 18) =~= enc_u32(cycles));
    assert(p.subrange(18, 20) =~= enc_i16(skew_ratio));
    assert(p.subrange(20, 21) =~= enc_u8(waveform.spec_byte()));
    assert(p.subrange(21, 22) =~= enc_bool(set_hue));
    assert(p.subrange(22, 23) =~= enc_bool(set_saturation));
    assert(p.subrange(23, 24) =~= enc_bool(set_brightness));
    assert(p.subrange(24, 25) =~= enc_bool(set_kelvin));
}

proof fn rt_light_state_infrared(brightness: u16, sequence: u8)
    ensures
        ({
            let p = enc_u16(brightness);
            p.len() == 2 && spec_fields_valid(121, p) && spec_decode_payload(121, p, sequence)
                == (Message::LightStateInfrared { brightness })
        }),
{
    crate::wire::lemma_scalar_round_trips();
    let p = enc_u16(brightness);
    assert(p.subrange(0, 2) =~= enc_u16(brightness));
}

proof fn rt_light_set_infrared(brightness: u16, sequence: u8)
    ensures
        ({
            let p = enc_u16(brightness);
            p.len() == 2 && spec_fields_valid(122, p) && spec_decode_payload(122, p, sequence)
                == (Message::LightSetInfrared { brightness })
        }),
{
    crate::wire::lemma_scalar_round_trips();
    let p = enc_u16(brightness);
    assert(p.subrange(0, 2) =~= enc_u16(brightness));
}

proof fn rt_light_set_hev_cycle(enable: bool, duration: u32, sequence: u8)
    ensures
        ({
            let p = enc_bool(enable) + enc_u32(duration);
            p.len() == 5 && spec_fields_valid(143, p) && spec_decode_payload(143, p, sequence)
                == (Message::LightSetHevCycle { enable, duration })
        }),
{
    crate::wire::lemma_scalar_round_trips();
    let p = enc_bool(enable) + enc_u32(duration);
    assert(p.subrange(0, 1) =~= enc_bool(enable));
    assert(p.subrange(1, 5) =~= enc_u32(duration));
}

proof fn rt_light_state_hev_cycle(duration: u32, remaining: u32, last_power: bool, sequence: u8)
    ensures
        ({
            let p = enc_u32(duration) + enc_u32(remaining) + enc_bool(last_power);
            p.len() == 9 && spec_fields_valid(144, p) && spec_decode_payload(144, p, sequence)
                == (Message::LightStateHevCycle { duration, remaining, last_power })
        }),
{
    crate::wire::lemma_scalar_round_trips();
    let p = enc_u32(duration) + enc_u32(remaining) + enc_bool(last_power);
    assert(p.subrange(0, 4) =~= enc_u32(duration));
    assert(p.subrange(4, 8) =~= enc_u32(remaining));
    assert(p.subrange(8, 9) =~= enc_bool(last_power));
}

proof fn rt_light_set_hev_cycle_configuration(indication: bool, duration: u32, sequence: u8)
    ensures
        ({
            let p = enc_bool(indication) + enc_u32(duration);
            p.len() == 5 && spec_fields_valid(146, p) && spec_decode_payload(146, p, sequence)
                == (Message::LightSetHevCycleConfiguration { indication, duration })
        }),
{
    crate::wire::lemma_scalar_round_trips();
    let p = enc_bool(indication) + enc_u32(duration);
    assert(p.subrange(0, 1) =~= enc_bool(indication));
    assert(p.subrange(1, 5) =~= enc_u32(duration));
}

proof fn rt_light_state_hev_cycle_configuration(indication: bool, duration: u32, sequence: u8)
    ensures
        ({
            let p = enc_bool(indication) + enc_u32(duration);
            p.len() == 5 && spec_fields_valid(147, p) && spec_decode_payload(147, p, sequence)
                == (Message::LightStateHevCycleConfiguration { indication, duration })
        }),
{
    crate::wire::lemma_scalar_round_trips();
    let p = enc_bool(indication) + enc_u32(duration);
    assert(p.subrange(0, 1) =~= enc_bool(indication));
    assert(p.subrange(1, 5) =~= enc_u32(duration));
}

proof fn rt_light_state_last_hev_cycle_result(result: LastHevCycleResult, sequence: u8)
    ensures
        ({
            let p = enc_u8(result.spec_byte());
            p.len() == 1 && spec_fields_valid(149, p) && spec_decode_payload(149, p, sequence)
                == (Message::LightStateLastHevCycleResult { result })
        }),
{
    crate::wire::lemma_scalar_round_trips();
    let p = enc_u8(result.spec_byte());
    assert(p.subrange(0, 1) =~= enc_u8(result.spec_byte()));
}

proof fn rt_set_color_zones(start_index: u8, end_index: u8, color: HSBK, duration: u32, apply: ApplicationRequest, sequence: u8)
    ensures
        ({
            let p = enc_u8(start_index) + enc_u8(end_index) + enc_hsbk(color) + enc_u32(duration) + enc_u8(apply.spec_byte());
            p.len() == 15 && spec_fields_valid(501, p) && spec_decode_payload(501, p, sequence)
                == (Message::SetColorZones { start_index, end_index, color, duration, apply })
        }),
{
    crate::wire::lemma_scalar_round_trips();
    let p = enc_u8(start_index) + enc_u8(end_index) + enc_hsbk(color) + enc_u32(duration) + enc_u8(apply.spec_byte());
    assert(p.subrange(0, 1) =~= enc_u8(start_index));
    assert(p.subrange(1, 2) =~= enc_u8(end_index));
    assert(p.subrange(2, 10) =~= enc_hsbk(color));
    lemma_dec_hsbk_of_enc(p, 2, color);
    assert(p.subrange(10, 14) =~= enc_u32(duration));
    assert(p.subrange(14, 15) =~= enc_u8(apply.spec_byte()));
}

proof fn rt_get_color_zones(start_index: u8, end_index: u8, sequence: u8)
    ensures
        ({
            let p = enc_u8(start_index) + enc_u8(end_index);
            p.len() == 2 && spec_fields_valid(502, p) && spec_decode_payload(502, p, sequence)
                == (Message::GetColorZones { start_index, end_index })
        }),
{
    crate::wire::lemma_scalar_round_trips();
    let p = enc_u8(start_index) + enc_u8(end_index);
    assert(p.subrange(0, 1) =~= enc_u8(start_index));
    assert(p.subrange(1, 2) =~= enc_u8(end_index));
}

proof fn rt_state_zone(count: u8, index: u8, color: HSBK, sequence: u8)
    ensures
        ({
            let p = enc_u8(count) + enc_u8(index) + enc_hsbk(color);
            p.len() == 10 && spec_fields_valid(503, p) && spec_decode_payload(503, p, sequence)
                == (Message::StateZone { count, index, color })
        }),
{
    crate::wire::lemma_scalar_round_trips();
    let p = enc_u8(count) + enc_u8(index) + enc_hsbk(color);
    assert(p.subrange(0, 1) =~= enc_u8(count));
    assert(p.subrange(1, 2) =~= enc_u8(index));
    assert(p.subrange(2, 10) =~= enc_hsbk(color));
    lemma_dec_hsbk_of_enc(p, 2, color);
}

proof fn rt_state_multi_zone(count: u8, index: u8, color0: HSBK, color1: HSBK, color2: HSBK, color3: HSBK, color4: HSBK, color5: HSBK, color6: HSBK, color7: HSBK, sequence: u8)
    ensures
        ({
            let p = enc_u8(count) + enc_u8(index) + enc_hsbk(color0) + enc_hsbk(color1) + enc_hsbk(color2) + enc_hsbk(color3) + enc_hsbk(color4) + enc_hsbk(color5) + enc_hsbk(color6) + enc_hsbk(color7);
            p.len() == 66 && spec_fields_valid(506, p) && spec_decode_payload(506, p, sequence)
                == (Message::StateMultiZone { count, index, color0, color1, color2, color3, color4, color5, color6, color7 })
        }),
{
    crate::wire::lemma_scalar_round_trips();
    let p = enc_u8(count) + enc_u8(index) + enc_hsbk(color0) + enc_hsbk(color1) + enc_hsbk(color2) + enc_hsbk(color3) + enc_hsbk(color4) + enc_hsbk(color5) + enc_hsbk(color6) + enc_hsbk(color7);
    assert(p.subrange(0, 1) =~= enc_u8(count));
    assert(p.subrange(1, 2) =~= enc_u8(index));
    assert(p.subrange(2, 10) =~= enc_hsbk(color0));
    lemma_dec_hsbk_of_enc(p, 2, color0);
    assert(p.subrange(10, 18) =~= enc_hsbk(color1));
    lemma_dec_hsbk_of_enc(p, 10, color1);
    assert(p.subrange(18, 26) =~= enc_hsbk(color2));
    lemma_dec_hsbk_of_enc(p, 18, color2);
    assert(p.subrange(26, 34) =~= enc_hsbk(color3));
    lemma_dec_hsbk_of_enc(p, 26, color3);
    assert(p.subrange(34, 42) =~= enc_hsbk(color4));
    lemma_dec_hsbk_of_enc(p, 34, color4);
    assert(p.subrange(42, 50) =~= enc_hsbk(color5));
    lemma_dec_hsbk_of_enc(p, 42, color5);
    assert(p.subrange(50, 58) =~= enc_hsbk(color6));
    lemma_dec_hsbk_of_enc(p, 50, color6);
    assert(p.subrange(58, 66) =~= enc_hsbk(color7));
    lemma_dec_hsbk_of_enc(p, 58, color7);
}

proof fn rt_state_multi_zone_effect(instance_id: u32, typ: MultiZoneEffectType, reserved: u16, speed: u32, duration: u64, reserved7: u32, reserved8: u32, parameters: [u8; 32], sequence: u8)
    ensures
        ({
            let p = enc_u32(instance_id) + enc_u8(typ.spec_byte()) + enc_u16(reserved) + enc_u32(speed) + enc_u64(duration) + enc_u32(reserved7) + enc_u32(reserved8) + parameters@;
            p.len() == 59 && spec_fields_valid(509, p) && spec_decode_payload(509, p, sequence)
                == (Message::StateMultiZoneEffect { instance_id, typ, reserved, speed, duration, reserved7, reserved8, parameters })
        }),
{
    crate::wire::lemma_scalar_round_trips();
    let p = enc_u32(instance_id) + enc_u8(typ.spec_byte()) + enc_u16(reserved) + enc_u32(speed) + enc_u64(duration) + enc_u32(reserved7) + enc_u32(reserved8) + parameters@;
    assert(p.subrange(0, 4) =~= enc_u32(instance_id));
    assert(p.subrange(4, 5) =~= enc_u8(typ.spec_byte()));
    assert(p.subrange(5, 7) =~= enc_u16(reserved));
    assert(p.subrange(7, 11) =~= enc_u32(speed));
    assert(p.subrange(11, 19) =~= enc_u64(duration));
    assert(p.subrange(19, 23) =~= enc_u32(reserved7));
    assert(p.subrange(23, 27) =~= enc_u32(reserved8));
    assert(p.subrange(27, 59) =~= parameters@);
    lemma_seq_to_array(parameters);
    assert(seq_to_array::<u8, 32>(p.subrange(27, 59)) == parameters);
}

proof fn rt_state_extended_color_zones(zones_count: u16, zone_index: u16, colors_count: u8, colors: [HSBK; 82], sequence: u8)
    ensures
        ({
            let p = enc_u16(zones_count) + enc_u16(zone_index) + enc_u8(colors_count) + enc_hsbk_seq(colors@);
            p.len() == 661 && spec_fields_valid(512, p) && spec_decode_payload(512, p, sequence)
                == (Message::StateExtendedColorZones { zones_count, zone_index, colors_count, colors })
        }),
{
    crate::wire::lemma_scalar_round_trips();
    let p = enc_u16(zones_count) + enc_u16(zone_index) + enc_u8(colors_count) + enc_hsbk_seq(colors@);
    assert(p.subrange(0, 2) =~= enc_u16(zones_count));
    assert(p.subrange(2, 4) =~= enc_u16(zone_index));
    assert(p.subrange(4, 5) =~= enc_u8(colors_count));
    lemma_enc_hsbk_seq_len(colors@);
    assert(p.subrange(5, 661) =~= enc_hsbk_seq(colors@));
    assert forall|k: int| 0 <= k < 82 implies dec_hsbk(p, 5 + 8 * k) == colors@[k] by {
        lemma_enc_hsbk_seq_index(colors@, k);
        assert(p.subrange(5 + 8 * k, 5 + 8 * k + 8) =~= enc_hsbk_seq(colors@).subrange(
            8 * k,
            8 * k + 8,
        ));
        lemma_dec_hsbk_of_enc(p, 5 + 8 * k, colors@[k]);
    }
    assert(dec_hsbk_seq(p, 5, 82) =~= colors@);
    lemma_seq_to_array(colors);
}

proof fn rt_relay_get_power(relay_index: u8, sequence: u8)
    ensures
        ({
            let p = enc_u8(relay_index);
            p.len() == 1 && spec_fields_valid(816, p) && spec_decode_payload(816, p, sequence)
                == (Message::RelayGetPower { relay_index })
        }),
{
    crate::wire::lemma_scalar_round_trips();
    let p = enc_u8(relay_index);
    assert(p.subrange(0, 1) =~= enc_u8(relay_index));
}

proof fn rt_relay_set_power(relay_index: u8, level: u16, sequence: u8)
    ensures
        ({
            let p = enc_u8(relay_index) + enc_u16(level);
            p.len() == 3 && spec_fields_valid(817, p) && spec_decode_payload(817, p, sequence)
                == (Message::RelaySetPower { relay_index, level })
        }),
{
    crate::wire::lemma_scalar_round_trips();
    let p = enc_u8(relay_index) + enc_u16(level);
    assert(p.subrange(0, 1) =~= enc_u8(relay_index));
    assert(p.subrange(1, 3) =~= enc_u16(level));
}

proof fn rt_relay_state_power(relay_index: u8, level: u16, sequence: u8)
    ensures
        ({
            let p = enc_u8(relay_index) + enc_u16(level);
            p.len() == 3 && spec_fields_valid(818, p) && spec_decode_payload(818, p, sequence)
                == (Message::RelayStatePower { relay_index, level })
        }),
{
    crate::wire::lemma_scalar_round_trips();
    let p = enc_u8(relay_index) + enc_u16(level);
    assert(p.subrange(0, 1) =~= enc_u8(relay_index));
    assert(p.subrange(1, 3) =~= enc_u16(level));
}

/// Encoding any constructible message and decoding the result gives the
/// message back, up to the documented normalisations: a nonzero light
/// power level comes back as full power, and an acknowledgement takes
/// the sequence number of the enclosing frame address.
pub proof fn lemma_message_round_trip(m: Message, sequence: u8)
    requires
        m.wf(),
    ensures
        spec_known(m.spec_num()),
        m.spec_payload().len() == spec_min_len(m.spec_num()),
        spec_fields_valid(m.spec_num(), m.spec_payload()),
        spec_decode_payload(m.spec_num(), m.spec_payload(), sequence) == m.spec_normalized(
            sequence,
        ),
{
    match m {
        Message::GetService => {},
        Message::StateService { service, port } => {
            rt_state_service(service, port, sequence);
        },
        Message::GetHostInfo => {},
        Message::StateHostInfo { signal, tx, rx, reserved } => {
            rt_state_host_info(signal, tx, rx, reserved, sequence);
        },
        Message::GetHostFirmware => {},
        Message::StateHostFirmware { build, reserved, version_minor, version_major } => {
            rt_state_host_firmware(build, reserved, version_minor, version_major, sequence);
        },
        Message::GetWifiInfo => {},
        Message::StateWifiInfo { signal, reserved6, reserved7, reserved } => {
            rt_state_wifi_info(signal, reserved6, reserved7, reserved, sequence);
        },
        Message::GetWifiFirmware => {},
        Message::StateWifiFirmware { build, reserved, version_minor, version_major } => {
            rt_state_wifi_firmware(build, reserved, version_minor, version_major, sequence);
        },
        Message::GetPower => {},
        Message::SetPower { level } => {
            rt_set_power(level, sequence);
        },
        Message::StatePower { level } => {
            rt_state_power(level, sequence);
        },
        Message::GetLabel => {},
        Message::SetLabel { label } => {
            rt_set_label(label, sequence);
        },
        Message::StateLabel { label } => {
            rt_state_label(label, sequence);
        },
        Message::GetVersion => {},
        Message::StateVersion { vendor, product, reserved } => {
            rt_state_version(vendor, product, reserved, sequence);
        },
        Message::GetInfo => {},
        Message::StateInfo { time, uptime, downtime } => {
            rt_state_info(time, uptime, downtime, sequence);
        },
        Message::Acknowledgement { .. } => {},
        Message::GetLocation => {},
        Message::SetLocation { location, label, updated_at } => {
            rt_set_location(location, label, updated_at, sequence);
        },
        Message::StateLocation { location, label, updated_at } => {
            rt_state_location(location, label, updated_at, sequence);
        },
        Message::GetGroup => {},
        Message::SetGroup { group, label, updated_at } => {
            rt_set_group(group, label, updated_at, sequence);
        },
        Message::StateGroup { group, label, updated_at } => {
            rt_state_group(group, label, updated_at, sequence);
        },
        Message::EchoRequest { payload } => {
            rt_echo_request(payload, sequence);
        },
        Message::EchoResponse { payload } => {
            rt_echo_response(payload, sequence);
        },
        Message::LightGet => {},
        Message::LightSetColor { reserved, color, duration } => {
            rt_light_set_color(reserved, color, duration, sequence);
        },
        Message::SetWaveform { reserved, transient, color, period, cycles, skew_ratio, waveform } => {
            rt_set_waveform(reserved, transient, color, period, cycles, skew_ratio, waveform, sequence);
        },
        Message::LightState { color, reserved, power, label, reserved2 } => {
            rt_light_state(color, reserved, power, label, reserved2, sequence);
        },
        Message::LightGetPower => {},
        Message::LightSetPower { level, duration } => {
            rt_light_set_power(level, duration, sequence);
        },
        Message::LightStatePower { level } => {
            rt_light_state_power(level, sequence);
        },
        Message::SetWaveformOptional { reserved, transient, color, period, cycles, skew_ratio, waveform, set_hue, set_saturation, set_brightness, set_kelvin } => {
            rt_set_waveform_optional(reserved, transient, color, period, cycles, skew_ratio, waveform, set_hue, set_saturation, set_brightness, set_kelvin, sequence);
        },
        Message::LightGetInfrared => {},
        Message::LightStateInfrared { brightness } => {
            rt_light_state_infrared(brightness, sequence);
        },
        Message::LightSetInfrared { brightness } => {
            rt_light_set_infrared(brightness, sequence);
        },
        Message::LightGetHevCycle => {},
        Message::LightSetHevCycle { enable, duration } => {
            rt_light_set_hev_cycle(enable, duration, sequence);
        },
        Message::LightStateHevCycle { duration, remaining, last_power } => {
            rt_light_state_hev_cycle(duration, remaining, last_power, sequence);
        },
        Message::LightGetHevCycleConfiguration => {},
        Message::LightSetHevCycleConfiguration { indication, duration } => {
            rt_light_set_hev_cycle_configuration(indication, duration, sequence);
        },
        Message::LightStateHevCycleConfiguration { indication, duration } => {
            rt_light_state_hev_cycle_configuration(indication, duration, sequence);
        },
        Message::LightGetLastHevCycleResult => {},
        Message::LightStateLastHevCycleResult { result } => {
            rt_light_state_last_hev_cycle_result(result, sequence);
        },
        Message::SetColorZones { start_index, end_index, color, duration, apply } => {
            rt_set_color_zones(start_index, end_index, color, duration, apply, sequence);
        },
        Message::GetColorZones { start_index, end_index } => {
            rt_get_color_zones(start_index, end_index, sequence);
        },
        Message::StateZone { count, index, color } => {
            rt_state_zone(count, index, color, sequence);
        },
        Message::StateMultiZone { count, index, color0, color1, color2, color3, color4, color5, color6, color7 } => {
            rt_state_multi_zone(count, index, color0, color1, color2, color3, color4, color5, color6, color7, sequence);
        },
        Message::GetMultiZoneEffect => {},
        Message::StateMultiZoneEffect { instance_id, typ, reserved, speed, duration, reserved7, reserved8, parameters } => {
            rt_state_multi_zone_effect(instance_id, typ, reserved, speed, duration, reserved7, reserved8, parameters, sequence);
        },
        Message::GetExtendedColorZone => {},
        Message::StateExtendedColorZones { zones_count, zone_index, colors_count, colors } => {
            rt_state_extended_color_zones(zones_count, zone_index, colors_count, colors, sequence);
        },
        Message::RelayGetPower { relay_index } => {
            rt_relay_get_power(relay_index, sequence);
        },
        Message::RelaySetPower { relay_index, level } => {
            rt_relay_set_power(relay_index, level, sequence);
        },
        Message::RelayStatePower { relay_index, level } => {
            rt_relay_state_power(relay_index, level, sequence);
        },
    }
}

/// A message payload always has exactly the byte length its kind requires,
/// whatever the field values.
pub proof fn lemma_payload_len(m: Message)
    ensures
        m.spec_payload().len() == spec_min_len(m.spec_num()),
        m.spec_payload().len() <= 661,
{
    crate::wire::lemma_scalar_round_trips();
    match m {
        Message::GetService => {},
        Message::StateService { .. } => {},
        Message::GetHostInfo => {},
        Message::StateHostInfo { .. } => {},
        Message::GetHostFirmware => {},
        Message::StateHostFirmware { .. } => {},
        Message::GetWifiInfo => {},
        Message::StateWifiInfo { .. } => {},
        Message::GetWifiFirmware => {},
        Message::StateWifiFirmware { .. } => {},
        Message::GetPower => {},
        Message::SetPower { .. } => {},
        Message::StatePower { .. } => {},
        Message::GetLabel => {},
        Message::SetLabel { .. } => {},
        Message::StateLabel { .. } => {},
        Message::GetVersion => {},
        Message::StateVersion { .. } => {},
        Message::GetInfo => {},
        Message::StateInfo { .. } => {},
        Message::Acknowledgement { .. } => {},
        Message::GetLocation => {},
        Message::SetLocation { .. } => {},
        Message::StateLocation { .. } => {},
        Message::GetGroup => {},
        Message::SetGroup { .. } => {},
        Message::StateGroup { .. } => {},
        Message::EchoRequest { .. } => {},
        Message::EchoResponse { .. } => {},
        Message::LightGet => {},
        Message::LightSetColor { .. } => {},
        Message::SetWaveform { .. } => {},
        Message::LightState { .. } => {},
        Message::LightGetPower => {},
        Message::LightSetPower { .. } => {},
        Message::LightStatePower { .. } => {},
        Message::SetWaveformOptional { .. } => {},
        Message::LightGetInfrared => {},
        Message::LightStateInfrared { .. } => {},
        Message::LightSetInfrared { .. } => {},
        Message::LightGetHevCycle => {},
        Message::LightSetHevCycle { .. } => {},
        Message::LightStateHevCycle { .. } => {},
        Message::LightGetHevCycleConfiguration => {},
        Message::LightSetHevCycleConfiguration { .. } => {},
        Message::LightStateHevCycleConfiguration { .. } => {},
        Message::LightGetLastHevCycleResult => {},
        Message::LightStateLastHevCycleResult { .. } => {},
        Message::SetColorZones { .. } => {},
        Message::GetColorZones { .. } => {},
        Message::StateZone { .. } => {},
        Message::StateMultiZone { .. } => {},
        Message::GetMultiZoneEffect => {},
        Message::StateMultiZoneEffect { .. } => {},
        Message::GetExtendedColorZone => {},
        Message::StateExtendedColorZones { colors, .. } => {
            lemma_enc_hsbk_seq_len(colors@);
        },
        Message::RelayGetPower { .. } => {},
        Message::RelaySetPower { .. } => {},
        Message::RelayStatePower { .. } => {},
    }
}

} // verus!
