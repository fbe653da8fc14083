//! End-to-end codec tests: round trips, error taxonomy, normalisations,
//! and the capability table.

use lifx_core::{
    describe_kelvin, get_product_info, ApplicationRequest, BuildOptions, EchoPayload, Error,
    Frame, LastHevCycleResult, LifxIdent, LifxString, Message, MultiZoneEffectType, PowerLevel,
    RawMessage, Service, TemperatureRange, Waveform, HSBK,
};

fn round_trip(m: Message) -> Message {
    let options = BuildOptions {
        target: Some(0x1122334455),
        ack_required: true,
        res_required: false,
        sequence: 99,
        source: 0xdeadbeef,
    };
    let raw = RawMessage::build(&options, m).unwrap();
    let bytes = raw.pack().unwrap();
    assert_eq!(bytes.len(), raw.packed_size());
    let raw2 = RawMessage::unpack(&bytes).unwrap();
    assert_eq!(raw, raw2);
    Message::from_raw(&raw2).unwrap()
}

fn sample_color(seed: u16) -> HSBK {
    HSBK {
        hue: seed,
        saturation: seed.wrapping_add(1000),
        brightness: seed.wrapping_mul(3),
        kelvin: 3500,
    }
}

#[test]
fn test_round_trip_simple_kinds() {
    for m in [
        Message::GetService,
        Message::GetHostFirmware,
        Message::LightGet,
        Message::GetColorZones {
            start_index: 3,
            end_index: 250,
        },
        Message::StatePower { level: 300 },
        Message::StateHostFirmware {
            build: 0x0102030405060708,
            reserved: 7,
            version_minor: 3,
            version_major: 2,
        },
        Message::StateInfo {
            time: u64::MAX,
            uptime: 1,
            downtime: 0,
        },
        Message::StateVersion {
            vendor: 1,
            product: 27,
            reserved: 9,
        },
        Message::RelaySetPower {
            relay_index: 2,
            level: 65535,
        },
    ] {
        let back = round_trip(m.clone());
        assert_eq!(back, m);
    }
}

#[test]
fn test_round_trip_enum_kinds() {
    for m in [
        Message::StateService {
            service: Service::UDP,
            port: 56700,
        },
        Message::SetPower {
            level: PowerLevel::Enabled,
        },
        Message::SetColorZones {
            start_index: 0,
            end_index: 15,
            color: sample_color(100),
            duration: 250,
            apply: ApplicationRequest::ApplyOnly,
        },
        Message::SetWaveform {
            reserved: 0,
            transient: true,
            color: sample_color(42),
            period: 1000,
            cycles: 0x3f800000,
            skew_ratio: -17,
            waveform: Waveform::Pulse,
        },
        Message::LightStateLastHevCycleResult {
            result: LastHevCycleResult::InterruptedByCloud,
        },
    ] {
        let back = round_trip(m.clone());
        assert_eq!(back, m);
    }
}

#[test]
fn test_round_trip_compound_kinds() {
    let mut ident = [0u8; 16];
    let mut echo = [0u8; 64];
    let mut params = [0u8; 32];
    for (i, b) in ident.iter_mut().enumerate() {
        *b = i as u8;
    }
    for (i, b) in echo.iter_mut().enumerate() {
        *b = (i * 3) as u8;
    }
    for (i, b) in params.iter_mut().enumerate() {
        *b = (255 - i) as u8;
    }
    let mut colors = [sample_color(0); 82];
    for (i, c) in colors.iter_mut().enumerate() {
        *c = sample_color(i as u16 * 7);
    }
    for m in [
        Message::SetLocation {
            location: LifxIdent(ident),
            label: LifxString::new(b"Kitchen"),
            updated_at: 0x1234567890abcdef,
        },
        Message::StateGroup {
            group: LifxIdent(ident),
            label: LifxString::new(b"upstairs lights"),
            updated_at: 42,
        },
        Message::EchoRequest {
            payload: EchoPayload(echo),
        },
        Message::LightState {
            color: sample_color(777),
            reserved: -1,
            power: 65535,
            label: LifxString::new(b"Desk"),
            reserved2: 0,
        },
        Message::StateMultiZone {
            count: 16,
            index: 8,
            color0: sample_color(0),
            color1: sample_color(1),
            color2: sample_color(2),
            color3: sample_color(3),
            color4: sample_color(4),
            color5: sample_color(5),
            color6: sample_color(6),
            color7: sample_color(7),
        },
        Message::StateMultiZoneEffect {
            instance_id: 77,
            typ: MultiZoneEffectType::Move,
            reserved: 0,
            speed: 1000,
            duration: 12345678,
            reserved7: 0,
            reserved8: 0,
            parameters: params,
        },
        Message::StateExtendedColorZones {
            zones_count: 82,
            zone_index: 0,
            colors_count: 82,
            colors,
        },
    ] {
        let back = round_trip(m.clone());
        assert_eq!(back, m);
    }
}

#[test]
fn test_light_set_power_normalised() {
    // Any nonzero level goes on the wire as full power.
    let back = round_trip(Message::LightSetPower {
        level: 300,
        duration: 55,
    });
    assert_eq!(
        back,
        Message::LightSetPower {
            level: 65535,
            duration: 55,
        }
    );
    let back = round_trip(Message::LightSetPower {
        level: 0,
        duration: 55,
    });
    assert_eq!(
        back,
        Message::LightSetPower {
            level: 0,
            duration: 55,
        }
    );
}

#[test]
fn test_acknowledgement_takes_envelope_sequence() {
    // The wire format carries no payload for acknowledgements; the decoded
    // sequence number comes from the frame address.
    let options = BuildOptions {
        sequence: 17,
        ..BuildOptions::default()
    };
    let raw = RawMessage::build(&options, Message::Acknowledgement { seq: 3 }).unwrap();
    assert!(raw.payload.is_empty());
    let back = Message::from_raw(&raw).unwrap();
    assert_eq!(back, Message::Acknowledgement { seq: 17 });
}

#[test]
fn test_unknown_message_type() {
    let r = Message::decode(9999, &[], 0);
    assert!(matches!(r, Err(Error::UnknownMessageType(9999))));
}

#[test]
fn test_truncated_payload() {
    // StateService expects five payload bytes; one byte is an I/O error.
    let r = Message::decode(3, &[1], 0);
    assert!(matches!(r, Err(Error::Io)));
    // A light state expects 52 bytes.
    let r = Message::decode(107, &[0; 20], 0);
    assert!(matches!(r, Err(Error::Io)));
}

#[test]
fn test_strict_enum_decode() {
    // Service values run from 1 to 5.
    let r = Message::decode(3, &[6, 0, 0, 0, 0], 0);
    assert!(matches!(r, Err(Error::ProtocolError(_))));
    // A power level is either 0 or 65535.
    let r = Message::decode(21, &[7, 0], 0);
    assert!(matches!(r, Err(Error::ProtocolError(_))));
    // Waveforms run from 0 to 4; byte 20 of the payload holds the value.
    let mut p = [0u8; 21];
    p[20] = 9;
    let r = Message::decode(103, &p, 0);
    assert!(matches!(r, Err(Error::ProtocolError(_))));
    // 255 is the one out-of-line HEV cycle result.
    let r = Message::decode(149, &[255], 0);
    assert_eq!(
        r.unwrap(),
        Message::LightStateLastHevCycleResult {
            result: LastHevCycleResult::NoResult,
        }
    );
    let r = Message::decode(149, &[17], 0);
    assert!(matches!(r, Err(Error::ProtocolError(_))));
}

#[test]
fn test_bool_fields_read_any_nonzero_as_true() {
    let r = Message::decode(143, &[2, 5, 0, 0, 0], 0).unwrap();
    assert_eq!(
        r,
        Message::LightSetHevCycle {
            enable: true,
            duration: 5,
        }
    );
}

#[test]
fn test_label_truncation() {
    // 42 bytes of content are cut to the first 31.
    let long = b"this is bigger than thirty two characters!";
    assert_eq!(long.len(), 42);
    let ls = LifxString::new(long);
    assert_eq!(ls.bytes(), b"this is bigger than thirty two ".to_vec());
    // 31 or fewer zero-free bytes are kept as they are.
    let short = LifxString::new(b"hello");
    assert_eq!(short.bytes(), b"hello".to_vec());
    // Zero bytes are dropped, matching what the wire reader does.
    let holey = LifxString::new(b"a\0b");
    assert_eq!(holey.bytes(), b"ab".to_vec());
    // The boundary: 31 bytes fit exactly, a 32nd is cut.
    let exact = LifxString::new(&[b'x'; 31]);
    assert_eq!(exact.bytes().len(), 31);
    let over = LifxString::new(&[b'x'; 32]);
    assert_eq!(over.bytes().len(), 31);
}

#[test]
fn test_label_wire_image() {
    // A label occupies 32 bytes on the wire: content, zero padding, and a
    // final zero terminator.
    let (num, payload) = Message::SetLabel {
        label: LifxString::new(b"hello"),
    }
    .encode();
    assert_eq!(num, 24);
    assert_eq!(payload.len(), 32);
    assert_eq!(&payload[0..5], b"hello");
    assert!(payload[5..32].iter().all(|&b| b == 0));
}

#[test]
fn test_unpack_rejects_foreign_protocol() {
    // Same frame as test_decode_frame but with protocol bits 0x0400
    // replaced by 0x0500.
    let v = vec![0x28, 0x00, 0x00, 0x55, 0x42, 0x52, 0x4b, 0x52];
    assert!(matches!(Frame::unpack(&v), Err(Error::ProtocolError(_))));
}

#[test]
fn test_unpack_rejects_unaddressable() {
    // A full header whose frame lacks the addressable bit.
    let mut v = vec![0u8; 36];
    v[0] = 36;
    v[3] = 0x04; // protocol 1024, addressable bit clear
    assert!(matches!(
        RawMessage::unpack(&v),
        Err(Error::ProtocolError(_))
    ));
}

#[test]
fn test_unpack_truncated_datagram() {
    // The frame declares 40 bytes but only 36 arrive.
    let mut v = vec![0u8; 36];
    v[0] = 40;
    v[3] = 0x14; // protocol 1024, addressable set
    assert!(matches!(RawMessage::unpack(&v), Err(Error::Io)));
}

#[test]
fn test_unpack_undersized_frame() {
    // A declared size smaller than the 36-byte header is a protocol error.
    let mut v = vec![0u8; 36];
    v[0] = 20;
    v[3] = 0x14;
    assert!(matches!(
        RawMessage::unpack(&v),
        Err(Error::ProtocolError(_))
    ));
}

#[test]
fn test_unpack_ignores_trailing_bytes() {
    // Bytes beyond the declared frame size are ignored.
    let raw = RawMessage::build(&BuildOptions::default(), Message::GetService).unwrap();
    let mut bytes = raw.pack().unwrap();
    bytes.extend_from_slice(&[0xaa, 0xbb, 0xcc]);
    let raw2 = RawMessage::unpack(&bytes).unwrap();
    assert_eq!(raw, raw2);
}

#[test]
fn test_describe_kelvin() {
    assert_eq!(describe_kelvin(2500), "Ultra Warm");
    assert_eq!(describe_kelvin(2700), "Incandescent");
    assert_eq!(describe_kelvin(3400), "Neutral");
    assert_eq!(describe_kelvin(5200), "Daylight");
    assert_eq!(describe_kelvin(9000), "Blue Ice");
}

#[test]
fn test_product_info() {
    let p = get_product_info(1, 1).unwrap();
    assert_eq!(p.name, "LIFX Original 1000");
    assert!(p.color);
    assert!(!p.relays);
    assert!(matches!(
        p.temperature_range,
        TemperatureRange::Variable {
            min: 2500,
            max: 9000,
        }
    ));

    let switch = get_product_info(1, 70).unwrap();
    assert_eq!(switch.name, "LIFX Switch");
    assert!(switch.relays);
    assert!(switch.buttons);
    assert!(matches!(switch.temperature_range, TemperatureRange::NoRange));

    let last = get_product_info(1, 138).unwrap();
    assert_eq!(last.name, "LIFX Candle Color Intl");
    assert!(last.matrix);

    assert!(get_product_info(1, 2).is_none());
    assert!(get_product_info(2, 1).is_none());
}

#[test]
fn test_get_num_matches_wire_ids() {
    assert_eq!(Message::GetService.get_num(), 2);
    assert_eq!(Message::LightGet.get_num(), 101);
    assert_eq!(
        Message::RelayStatePower {
            relay_index: 0,
            level: 0,
        }
        .get_num(),
        818
    );
}
