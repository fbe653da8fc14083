//! One round trip through build, pack, unpack and decode for every
//! message kind the library knows, with distinct field values, checking
//! both the byte-level envelope and the decoded result.

use lifx_core::{
    ApplicationRequest, BuildOptions, EchoPayload, LastHevCycleResult, LifxIdent, LifxString,
    Message, MultiZoneEffectType, PowerLevel, RawMessage, Service, Waveform, HSBK,
};

fn sample_color(seed: u16) -> HSBK {
    HSBK {
        hue: seed,
        saturation: seed.wrapping_mul(5),
        brightness: seed.wrapping_add(11),
        kelvin: 2500 + seed % 6500,
    }
}

fn sample_ident(seed: u8) -> LifxIdent {
    let mut a = [0u8; 16];
    for (i, b) in a.iter_mut().enumerate() {
        *b = seed.wrapping_add(i as u8);
    }
    LifxIdent(a)
}

fn sample_echo(seed: u8) -> EchoPayload {
    let mut a = [0u8; 64];
    for (i, b) in a.iter_mut().enumerate() {
        *b = seed.wrapping_mul(i as u8);
    }
    EchoPayload(a)
}

fn sample_params(seed: u8) -> [u8; 32] {
    let mut a = [0u8; 32];
    for (i, b) in a.iter_mut().enumerate() {
        *b = seed ^ (i as u8);
    }
    a
}

fn sample_colors(seed: u16) -> [HSBK; 82] {
    let mut a = [sample_color(0); 82];
    for (i, c) in a.iter_mut().enumerate() {
        *c = sample_color(seed.wrapping_add(i as u16 * 13));
    }
    a
}

fn check_round_trip(m: Message, expect: Message, sequence: u8) {
    let options = BuildOptions {
        target: Some(0xd073d50297de),
        ack_required: false,
        res_required: true,
        sequence,
        source: 0x053741ca,
    };
    let raw = RawMessage::build(&options, m.clone()).unwrap();
    assert_eq!(raw.protocol_header.typ, m.get_num());
    assert_eq!(raw.frame.size as usize, 36 + raw.payload.len());
    assert!(!raw.frame.tagged);
    let bytes = raw.pack().unwrap();
    assert_eq!(bytes.len(), raw.frame.size as usize);
    let raw2 = RawMessage::unpack(&bytes).unwrap();
    assert_eq!(raw, raw2);
    let back = Message::from_raw(&raw2).unwrap();
    assert_eq!(back, expect);
}

#[test]
fn test_round_trip_every_kind() {
    let mut sequence: u8 = 0;

    sequence = sequence.wrapping_add(1);
    let m = Message::GetService;
    check_round_trip(m.clone(), m, sequence);

    sequence = sequence.wrapping_add(1);
    let m = Message::StateService {
        service: Service::Reserved4,
        port: 393222,
    };
    check_round_trip(m.clone(), m, sequence);

    sequence = sequence.wrapping_add(1);
    let m = Message::GetHostInfo;
    check_round_trip(m.clone(), m, sequence);

    sequence = sequence.wrapping_add(1);
    let m = Message::StateHostInfo {
        signal: 0x3f000007,
        tx: 524296,
        rx: 589833,
        reserved: -13870,
    };
    check_round_trip(m.clone(), m, sequence);

    sequence = sequence.wrapping_add(1);
    let m = Message::GetHostFirmware;
    check_round_trip(m.clone(), m, sequence);

    sequence = sequence.wrapping_add(1);
    let m = Message::StateHostFirmware {
        build: 43980465105,
        reserved: 48867183450,
        version_minor: 2827,
        version_major: 3084,
    };
    check_round_trip(m.clone(), m, sequence);

    sequence = sequence.wrapping_add(1);
    let m = Message::GetWifiInfo;
    check_round_trip(m.clone(), m, sequence);

    sequence = sequence.wrapping_add(1);
    let m = Message::StateWifiInfo {
        signal: 0x3f00000b,
        reserved6: 786444,
        reserved7: 851981,
        reserved: -13418,
    };
    check_round_trip(m.clone(), m, sequence);

    sequence = sequence.wrapping_add(1);
    let m = Message::GetWifiFirmware;
    check_round_trip(m.clone(), m, sequence);

    sequence = sequence.wrapping_add(1);
    let m = Message::StateWifiFirmware {
        build: 63527338485,
        reserved: 68414056830,
        version_minor: 3855,
        version_major: 4112,
    };
    check_round_trip(m.clone(), m, sequence);

    sequence = sequence.wrapping_add(1);
    let m = Message::GetPower;
    check_round_trip(m.clone(), m, sequence);

    sequence = sequence.wrapping_add(1);
    let m = Message::SetPower {
        level: PowerLevel::Enabled,
    };
    check_round_trip(m.clone(), m, sequence);

    sequence = sequence.wrapping_add(1);
    let m = Message::StatePower {
        level: 4112,
    };
    check_round_trip(m.clone(), m, sequence);

    sequence = sequence.wrapping_add(1);
    let m = Message::GetLabel;
    check_round_trip(m.clone(), m, sequence);

    sequence = sequence.wrapping_add(1);
    let m = Message::SetLabel {
        label: LifxString::new(b"room 18"),
    };
    check_round_trip(m.clone(), m, sequence);

    sequence = sequence.wrapping_add(1);
    let m = Message::StateLabel {
        label: LifxString::new(b"room 19"),
    };
    check_round_trip(m.clone(), m, sequence);

    sequence = sequence.wrapping_add(1);
    let m = Message::GetVersion;
    check_round_trip(m.clone(), m, sequence);

    sequence = sequence.wrapping_add(1);
    let m = Message::StateVersion {
        vendor: 1376277,
        product: 1441814,
        reserved: 1507351,
    };
    check_round_trip(m.clone(), m, sequence);

    sequence = sequence.wrapping_add(1);
    let m = Message::GetInfo;
    check_round_trip(m.clone(), m, sequence);

    sequence = sequence.wrapping_add(1);
    let m = Message::StateInfo {
        time: 112394521935,
        uptime: 117281240280,
        downtime: 122167958625,
    };
    check_round_trip(m.clone(), m, sequence);

    sequence = sequence.wrapping_add(1);
    let m = Message::Acknowledgement { seq: 200 };
    check_round_trip(m, Message::Acknowledgement { seq: sequence }, sequence);

    sequence = sequence.wrapping_add(1);
    let m = Message::GetLocation;
    check_round_trip(m.clone(), m, sequence);

    sequence = sequence.wrapping_add(1);
    let m = Message::SetLocation {
        location: sample_ident(26),
        label: LifxString::new(b"room 27"),
        updated_at: 136828113660,
    };
    check_round_trip(m.clone(), m, sequence);

    sequence = sequence.wrapping_add(1);
    let m = Message::StateLocation {
        location: sample_ident(27),
        label: LifxString::new(b"room 28"),
        updated_at: 141714832005,
    };
    check_round_trip(m.clone(), m, sequence);

    sequence = sequence.wrapping_add(1);
    let m = Message::GetGroup;
    check_round_trip(m.clone(), m, sequence);

    sequence = sequence.wrapping_add(1);
    let m = Message::SetGroup {
        group: sample_ident(29),
        label: LifxString::new(b"room 30"),
        updated_at: 151488268695,
    };
    check_round_trip(m.clone(), m, sequence);

    sequence = sequence.wrapping_add(1);
    let m = Message::StateGroup {
        group: sample_ident(30),
        label: LifxString::new(b"room 31"),
        updated_at: 156374987040,
    };
    check_round_trip(m.clone(), m, sequence);

    sequence = sequence.wrapping_add(1);
    let m = Message::EchoRequest {
        payload: sample_echo(31),
    };
    check_round_trip(m.clone(), m, sequence);

    sequence = sequence.wrapping_add(1);
    let m = Message::EchoResponse {
        payload: sample_echo(32),
    };
    check_round_trip(m.clone(), m, sequence);

    sequence = sequence.wrapping_add(1);
    let m = Message::LightGet;
    check_round_trip(m.clone(), m, sequence);

    sequence = sequence.wrapping_add(1);
    let m = Message::LightSetColor {
        reserved: 238,
        color: sample_color(1085),
        duration: 2359332,
    };
    check_round_trip(m.clone(), m, sequence);

    sequence = sequence.wrapping_add(1);
    let m = Message::SetWaveform {
        reserved: 245,
        transient: true,
        color: sample_color(1147),
        period: 2490406,
        cycles: 0x3f000027,
        skew_ratio: -10480,
        waveform: Waveform::Sine,
    };
    check_round_trip(m.clone(), m, sequence);

    sequence = sequence.wrapping_add(1);
    let m = Message::LightState {
        color: sample_color(1116),
        reserved: -10819,
        power: 9766,
        label: LifxString::new(b"room 39"),
        reserved2: 195468733800,
    };
    check_round_trip(m.clone(), m, sequence);

    sequence = sequence.wrapping_add(1);
    let m = Message::LightGetPower;
    check_round_trip(m.clone(), m, sequence);

    sequence = sequence.wrapping_add(1);
    let m = Message::LightSetPower {
        level: 9766,
        duration: 2555943,
    };
    let expect = match m.clone() {
        Message::LightSetPower { level, duration } => Message::LightSetPower {
            level: if level > 0 { 65535 } else { 0 },
            duration,
        },
        _ => unreachable!(),
    };
    check_round_trip(m, expect, sequence);

    sequence = sequence.wrapping_add(1);
    let m = Message::LightStatePower {
        level: 10023,
    };
    check_round_trip(m.clone(), m, sequence);

    sequence = sequence.wrapping_add(1);
    let m = Message::SetWaveformOptional {
        reserved: 24,
        transient: false,
        color: sample_color(1302),
        period: 2818091,
        cycles: 0x3f00002c,
        skew_ratio: -9915,
        waveform: Waveform::Sine,
        set_hue: false,
        set_saturation: true,
        set_brightness: false,
        set_kelvin: true,
    };
    check_round_trip(m.clone(), m, sequence);

    sequence = sequence.wrapping_add(1);
    let m = Message::LightGetInfrared;
    check_round_trip(m.clone(), m, sequence);

    sequence = sequence.wrapping_add(1);
    let m = Message::LightStateInfrared {
        brightness: 10794,
    };
    check_round_trip(m.clone(), m, sequence);

    sequence = sequence.wrapping_add(1);
    let m = Message::LightSetInfrared {
        brightness: 11051,
    };
    check_round_trip(m.clone(), m, sequence);

    sequence = sequence.wrapping_add(1);
    let m = Message::LightGetHevCycle;
    check_round_trip(m.clone(), m, sequence);

    sequence = sequence.wrapping_add(1);
    let m = Message::LightSetHevCycle {
        enable: false,
        duration: 3014702,
    };
    check_round_trip(m.clone(), m, sequence);

    sequence = sequence.wrapping_add(1);
    let m = Message::LightStateHevCycle {
        duration: 3014702,
        remaining: 3080239,
        last_power: true,
    };
    check_round_trip(m.clone(), m, sequence);

    sequence = sequence.wrapping_add(1);
    let m = Message::LightGetHevCycleConfiguration;
    check_round_trip(m.clone(), m, sequence);

    sequence = sequence.wrapping_add(1);
    let m = Message::LightSetHevCycleConfiguration {
        indication: true,
        duration: 3211313,
    };
    check_round_trip(m.clone(), m, sequence);

    sequence = sequence.wrapping_add(1);
    let m = Message::LightStateHevCycleConfiguration {
        indication: false,
        duration: 3276850,
    };
    check_round_trip(m.clone(), m, sequence);

    sequence = sequence.wrapping_add(1);
    let m = Message::LightGetLastHevCycleResult;
    check_round_trip(m.clone(), m, sequence);

    sequence = sequence.wrapping_add(1);
    let m = Message::LightStateLastHevCycleResult {
        result: LastHevCycleResult::Success,
    };
    check_round_trip(m.clone(), m, sequence);

    sequence = sequence.wrapping_add(1);
    let m = Message::SetColorZones {
        start_index: 108,
        end_index: 115,
        color: sample_color(1674),
        duration: 3604535,
        apply: ApplicationRequest::ApplyOnly,
    };
    check_round_trip(m.clone(), m, sequence);

    sequence = sequence.wrapping_add(1);
    let m = Message::GetColorZones {
        start_index: 115,
        end_index: 122,
    };
    check_round_trip(m.clone(), m, sequence);

    sequence = sequence.wrapping_add(1);
    let m = Message::StateZone {
        count: 122,
        index: 129,
        color: sample_color(1736),
    };
    check_round_trip(m.clone(), m, sequence);

    sequence = sequence.wrapping_add(1);
    let m = Message::StateMultiZone {
        count: 129,
        index: 136,
        color0: sample_color(1767),
        color1: sample_color(1798),
        color2: sample_color(1829),
        color3: sample_color(1860),
        color4: sample_color(1891),
        color5: sample_color(1922),
        color6: sample_color(1953),
        color7: sample_color(1984),
    };
    check_round_trip(m.clone(), m, sequence);

    sequence = sequence.wrapping_add(1);
    let m = Message::GetMultiZoneEffect;
    check_round_trip(m.clone(), m, sequence);

    sequence = sequence.wrapping_add(1);
    let m = Message::StateMultiZoneEffect {
        instance_id: 3735609,
        typ: MultiZoneEffectType::Move,
        reserved: 15163,
        speed: 3932220,
        duration: 298089819045,
        reserved7: 4063294,
        reserved8: 4128831,
        parameters: sample_params(64),
    };
    check_round_trip(m.clone(), m, sequence);

    sequence = sequence.wrapping_add(1);
    let m = Message::GetExtendedColorZone;
    check_round_trip(m.clone(), m, sequence);

    sequence = sequence.wrapping_add(1);
    let m = Message::StateExtendedColorZones {
        zones_count: 15163,
        zone_index: 15420,
        colors_count: 171,
        colors: sample_colors(62),
    };
    check_round_trip(m.clone(), m, sequence);

    sequence = sequence.wrapping_add(1);
    let m = Message::RelayGetPower {
        relay_index: 164,
    };
    check_round_trip(m.clone(), m, sequence);

    sequence = sequence.wrapping_add(1);
    let m = Message::RelaySetPower {
        relay_index: 171,
        level: 15934,
    };
    check_round_trip(m.clone(), m, sequence);

    sequence = sequence.wrapping_add(1);
    let m = Message::RelayStatePower {
        relay_index: 178,
        level: 16191,
    };
    check_round_trip(m.clone(), m, sequence);

}
