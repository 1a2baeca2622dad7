use xiaomi_ble::error::ParseErrorKind;
use xiaomi_ble::mibeacon::{
    ArmingEventStatus, DoorEvent, FingerprintEventKeyId, FingerprintEventMatchingResult,
    MiBeaconObjectPayload, MiBeaconServiceAdvertisement, SmartPillowState,
};
use xiaomi_ble::sensor::{
    BinaryMeasurementType, Decimal, NumericMeasurementType, SensorEvent, UnitOfMeasurement,
};

const HHCCJCY01_TEMPERATURE_READING: [u8; 17] = [
    0x71, 0x20, 0x98, 0x00, 0xB1, 0x66, 0x55, 0x44, 0x33, 0x22, 0x11, 0x0D, 0x04, 0x10, 0x02,
    0xEC, 0x00,
];
const HHCCJCY01_ILLUMINANCE_READING: [u8; 18] = [
    0x71, 0x20, 0x98, 0x00, 0x36, 0x66, 0x55, 0x44, 0x33, 0x22, 0x11, 0x0D, 0x07, 0x10, 0x03,
    0x73, 0x00, 0x00,
];
const HHCCJCY01_CONDUCTIVITY_READING: [u8; 17] = [
    0x71, 0x20, 0x98, 0x00, 0xBC, 0x66, 0x55, 0x44, 0x33, 0x22, 0x11, 0x0D, 0x09, 0x10, 0x02,
    0x2E, 0x00,
];
const HHCCJCY01_MOISTURE_READING: [u8; 16] = [
    0x71, 0x20, 0x98, 0x00, 0xD7, 0x66, 0x55, 0x44, 0x33, 0x22, 0x11, 0x0D, 0x08, 0x10, 0x01,
    0x17,
];

/// Frame control 0x2040 (objects only, version 2), device id 0x0098, packet id 1, then `objects`.
fn objects_only_frame(objects: &[u8]) -> Vec<u8> {
    let mut frame = vec![0x40, 0x20, 0x98, 0x00, 0x01];
    frame.extend_from_slice(objects);
    frame
}

fn as_f64(d: Decimal) -> f64 {
    d.mantissa as f64 / 10f64.powi(d.scale as i32)
}

#[test]
fn parse_hhccjcy01_temperature_reading() {
    let message = MiBeaconServiceAdvertisement::from_slice(&HHCCJCY01_TEMPERATURE_READING);
    assert!(message.is_ok())
}

#[test]
fn parse_hhccjcy01_illuminance_reading() {
    let message = MiBeaconServiceAdvertisement::from_slice(&HHCCJCY01_ILLUMINANCE_READING);
    assert!(message.is_ok())
}

#[test]
fn parse_hhccjcy01_conductivity_reading() {
    let message = MiBeaconServiceAdvertisement::from_slice(&HHCCJCY01_CONDUCTIVITY_READING);
    assert!(message.is_ok())
}

#[test]
fn parse_hhccjcy01_moisture_reading() {
    let message = MiBeaconServiceAdvertisement::from_slice(&HHCCJCY01_MOISTURE_READING);
    assert!(message.is_ok())
}

#[test]
fn temperature_frame_yields_one_temperature_event() {
    let adv = MiBeaconServiceAdvertisement::from_slice(&HHCCJCY01_TEMPERATURE_READING).unwrap();
    let events = adv.iter_sensor_events();
    assert_eq!(
        events,
        vec![SensorEvent::NumericMeasurement {
            measurement_type: NumericMeasurementType::Temperature,
            value: Decimal { mantissa: 236, scale: 1 },
            unit: UnitOfMeasurement::DegreesCelsius,
        }]
    );
    match events[0] {
        SensorEvent::NumericMeasurement { value, .. } => assert_eq!(as_f64(value), 23.6),
        _ => panic!("expected a numeric event"),
    }
}

#[test]
fn moisture_frame_yields_one_moisture_event() {
    let adv = MiBeaconServiceAdvertisement::from_slice(&HHCCJCY01_MOISTURE_READING).unwrap();
    let events = adv.iter_sensor_events();
    assert_eq!(
        events,
        vec![SensorEvent::NumericMeasurement {
            measurement_type: NumericMeasurementType::Moisture,
            value: Decimal { mantissa: 23, scale: 0 },
            unit: UnitOfMeasurement::Percent,
        }]
    );
    match events[0] {
        SensorEvent::NumericMeasurement { value, .. } => assert_eq!(as_f64(value), 23.0),
        _ => panic!("expected a numeric event"),
    }
}

#[test]
fn illuminance_and_conductivity_frames_yield_unscaled_values() {
    let adv = MiBeaconServiceAdvertisement::from_slice(&HHCCJCY01_ILLUMINANCE_READING).unwrap();
    assert_eq!(
        adv.iter_sensor_events(),
        vec![SensorEvent::NumericMeasurement {
            measurement_type: NumericMeasurementType::Illuminance,
            value: Decimal { mantissa: 0x73, scale: 0 },
            unit: UnitOfMeasurement::Lux,
        }]
    );
    let adv = MiBeaconServiceAdvertisement::from_slice(&HHCCJCY01_CONDUCTIVITY_READING).unwrap();
    assert_eq!(
        adv.iter_sensor_events(),
        vec![SensorEvent::NumericMeasurement {
            measurement_type: NumericMeasurementType::Conductivity,
            value: Decimal { mantissa: 0x2E, scale: 0 },
            unit: UnitOfMeasurement::MicrosiemensPerCentimeter,
        }]
    );
}

#[test]
fn header_fields_of_temperature_frame() {
    let adv = MiBeaconServiceAdvertisement::from_slice(&HHCCJCY01_TEMPERATURE_READING).unwrap();
    let fc = adv.frame_control;
    assert_eq!(fc.bits, 0x2071);
    assert!(!fc.is_encrypted());
    assert!(fc.mac_included());
    assert!(fc.capabilities_included());
    assert!(fc.objects_included());
    assert!(!fc.mesh());
    assert!(!fc.registered());
    assert!(!fc.solicited());
    assert_eq!(fc.auth_mode(), 0);
    assert_eq!(fc.version(), 2);
    assert_eq!(adv.device_id, 0x0098);
    assert_eq!(adv.packet_id, 0xB1);
    assert_eq!(
        adv.mac_address.unwrap().into_inner(),
        [0x66, 0x55, 0x44, 0x33, 0x22, 0x11]
    );
    let caps = adv.capabilities.unwrap();
    assert!(caps.connectable());
    assert!(!caps.centralable());
    assert!(caps.encryptable());
    assert_eq!(caps.bond_ability(), 1);
    assert!(!caps.io());
    assert!(adv.io_capabilities.is_none());
    assert_eq!(adv.objects.len(), 1);
    assert_eq!(adv.objects[0].id, 0x1004);
    assert_eq!(adv.objects[0].length, 2);
    assert!(matches!(adv.objects[0].payload, MiBeaconObjectPayload::Temperature(236)));
}

#[test]
fn io_capabilities_follow_capabilities_with_io_flag() {
    // Frame control 0x2060: capabilities and objects included, no MAC.
    let frame = [0x60, 0x20, 0x98, 0x00, 0x07, 0x20, 0x81, 0x00, 0x08, 0x10, 0x01, 0x05];
    let adv = MiBeaconServiceAdvertisement::from_slice(&frame).unwrap();
    assert!(adv.mac_address.is_none());
    assert!(adv.capabilities.unwrap().io());
    let io = adv.io_capabilities.unwrap();
    assert!(io.base_io_capabilities.can_input_6_digits());
    assert!(!io.base_io_capabilities.can_input_6_characters());
    assert!(io.base_io_capabilities.can_generate_qr_code());
    assert_eq!(io.reserved, 0);
    assert_eq!(adv.objects.len(), 1);
    assert!(matches!(adv.objects[0].payload, MiBeaconObjectPayload::Moisture(5)));
}

#[test]
fn io_capabilities_cut_short_fail() {
    let frame = [0x60, 0x20, 0x98, 0x00, 0x07, 0x20, 0x81];
    let err = MiBeaconServiceAdvertisement::from_slice(&frame).unwrap_err();
    assert_eq!(err.kind, ParseErrorKind::UnexpectedEnd);
}

#[test]
fn sensor_events_are_repeatable() {
    let adv = MiBeaconServiceAdvertisement::from_slice(&HHCCJCY01_TEMPERATURE_READING).unwrap();
    let first = adv.iter_sensor_events();
    let second = adv.iter_sensor_events();
    assert_eq!(first, second);
    assert_eq!(first.len(), 1);
}

#[test]
fn object_longer_than_frame_fails() {
    // Declares 2 value bytes and has 1.
    let frame = objects_only_frame(&[0x04, 0x10, 0x02, 0xEC]);
    let err = MiBeaconServiceAdvertisement::from_slice(&frame).unwrap_err();
    assert_eq!(err.kind, ParseErrorKind::UnexpectedEnd);
    // The same after a complete object.
    let frame = objects_only_frame(&[0x08, 0x10, 0x01, 0x17, 0x04, 0x10, 0x02, 0xEC]);
    let err = MiBeaconServiceAdvertisement::from_slice(&frame).unwrap_err();
    assert_eq!(err.kind, ParseErrorKind::UnexpectedEnd);
}

#[test]
fn truncated_record_prefix_fails() {
    let frame = objects_only_frame(&[0x08, 0x10]);
    let err = MiBeaconServiceAdvertisement::from_slice(&frame).unwrap_err();
    assert_eq!(err.kind, ParseErrorKind::UnexpectedEnd);
}

#[test]
fn short_header_fails() {
    let err = MiBeaconServiceAdvertisement::from_slice(&[0x71, 0x20, 0x98]).unwrap_err();
    assert_eq!(err.kind, ParseErrorKind::UnexpectedEnd);
    // MAC announced, only 3 of its bytes present.
    let err =
        MiBeaconServiceAdvertisement::from_slice(&[0x71, 0x20, 0x98, 0x00, 0x01, 1, 2, 3])
            .unwrap_err();
    assert_eq!(err.kind, ParseErrorKind::UnexpectedEnd);
}

#[test]
fn known_id_with_wrong_length_fails() {
    let frame = objects_only_frame(&[0x04, 0x10, 0x03, 0xEC, 0x00, 0x00]);
    let err = MiBeaconServiceAdvertisement::from_slice(&frame).unwrap_err();
    assert_eq!(err.kind, ParseErrorKind::InvalidLength { id: 0x1004, length: 3 });
}

#[test]
fn unknown_id_decodes_to_raw_bytes_without_events() {
    let frame = objects_only_frame(&[0x34, 0x12, 0x03, 0xAA, 0xBB, 0xCC]);
    let adv = MiBeaconServiceAdvertisement::from_slice(&frame).unwrap();
    assert_eq!(adv.objects.len(), 1);
    assert_eq!(adv.objects[0].id, 0x1234);
    match &adv.objects[0].payload {
        MiBeaconObjectPayload::Unknown(bytes) => assert_eq!(bytes, &vec![0xAA, 0xBB, 0xCC]),
        other => panic!("unexpected payload {:?}", other),
    }
    assert!(adv.iter_sensor_events().is_empty());
    // An empty value is fine too.
    let adv = MiBeaconServiceAdvertisement::from_slice(&objects_only_frame(&[0x34, 0x12, 0x00]))
        .unwrap();
    assert!(matches!(&adv.objects[0].payload, MiBeaconObjectPayload::Unknown(b) if b.is_empty()));
}

#[test]
fn formaldehyde_ids_scale_differently() {
    let coarse = MiBeaconObjectPayload::decode(0x1010, &[0xE8, 0x03]).unwrap();
    let fine = MiBeaconObjectPayload::decode(0x101C, &[0xE8, 0x03]).unwrap();
    let c = coarse.to_sensor_events();
    let f = fine.to_sensor_events();
    assert_eq!(
        c,
        vec![SensorEvent::NumericMeasurement {
            measurement_type: NumericMeasurementType::FormaldehydeConcentration,
            value: Decimal { mantissa: 1000, scale: 2 },
            unit: UnitOfMeasurement::MilligramPerCubicMeter,
        }]
    );
    assert_eq!(
        f,
        vec![SensorEvent::NumericMeasurement {
            measurement_type: NumericMeasurementType::FormaldehydeConcentration,
            value: Decimal { mantissa: 1000, scale: 3 },
            unit: UnitOfMeasurement::MilligramPerCubicMeter,
        }]
    );
    match (c[0], f[0]) {
        (
            SensorEvent::NumericMeasurement { value: a, .. },
            SensorEvent::NumericMeasurement { value: b, .. },
        ) => {
            assert_eq!(as_f64(a), 10.0);
            assert_eq!(as_f64(b), 1.0);
        }
        _ => panic!("expected numeric events"),
    }
}

#[test]
fn shared_id_is_told_apart_by_length() {
    let pillow = MiBeaconObjectPayload::decode(0x101C, &[0x01]).unwrap();
    assert!(matches!(pillow, MiBeaconObjectPayload::SmartPillow(SmartPillowState::InBed)));
    assert!(pillow.to_sensor_events().is_empty());
    let reserved = MiBeaconObjectPayload::decode(0x101C, &[0x07]).unwrap();
    assert!(matches!(reserved, MiBeaconObjectPayload::SmartPillow(SmartPillowState::Reserved(7))));
    let err = MiBeaconObjectPayload::decode(0x101C, &[1, 2, 3]).unwrap_err();
    assert_eq!(err.kind, ParseErrorKind::InvalidLength { id: 0x101C, length: 3 });
}

#[test]
fn optional_trailing_field_present_only_at_longer_length() {
    let short = MiBeaconObjectPayload::decode(0x0008, &[0x01]).unwrap();
    assert!(matches!(
        short,
        MiBeaconObjectPayload::ArmingEvent { status: ArmingEventStatus::Disarmed, timestamp: None }
    ));
    let long = MiBeaconObjectPayload::decode(0x0008, &[0x00, 0x78, 0x56, 0x34, 0x12]).unwrap();
    assert!(matches!(
        long,
        MiBeaconObjectPayload::ArmingEvent {
            status: ArmingEventStatus::Armed,
            timestamp: Some(0x12345678)
        }
    ));
    let err = MiBeaconObjectPayload::decode(0x0008, &[0x00, 0x01]).unwrap_err();
    assert_eq!(err.kind, ParseErrorKind::InvalidLength { id: 0x0008, length: 2 });
}

#[test]
fn undefined_code_keeps_raw_bytes() {
    let p = MiBeaconObjectPayload::decode(0x0007, &[0x09]).unwrap();
    match p {
        MiBeaconObjectPayload::Unknown(bytes) => assert_eq!(bytes, vec![0x09]),
        other => panic!("unexpected payload {:?}", other),
    }
    let p = MiBeaconObjectPayload::decode(0x0007, &[0x03]).unwrap();
    assert!(matches!(p, MiBeaconObjectPayload::DoorEvent(DoorEvent::KnockingOnTheDoor)));
}

#[test]
fn fingerprint_key_id_sentinels() {
    let admin = MiBeaconObjectPayload::decode(0x0006, &[0, 0, 0, 0, 0x02]).unwrap();
    assert!(matches!(
        admin,
        MiBeaconObjectPayload::FingerprintEvent {
            key_id: FingerprintEventKeyId::LockAdministrator,
            matching_result: FingerprintEventMatchingResult::Timeout
        }
    ));
    let unknown = MiBeaconObjectPayload::decode(0x0006, &[0xFF, 0xFF, 0xFF, 0xFF, 0x00]).unwrap();
    assert!(matches!(
        unknown,
        MiBeaconObjectPayload::FingerprintEvent {
            key_id: FingerprintEventKeyId::UnknownOperator,
            ..
        }
    ));
    let key = MiBeaconObjectPayload::decode(0x0006, &[0x05, 0x00, 0x01, 0x80, 0x00]).unwrap();
    assert!(matches!(
        key,
        MiBeaconObjectPayload::FingerprintEvent {
            key_id: FingerprintEventKeyId::KeyId(0x8001_0005),
            ..
        }
    ));
}

#[test]
fn lock_event_splits_operation_nibbles() {
    let p = MiBeaconObjectPayload::decode(
        0x000B,
        &[0x21, 0x01, 0x00, 0x00, 0x00, 0x10, 0x20, 0x30, 0x40],
    )
    .unwrap();
    match p {
        MiBeaconObjectPayload::LockEvent(e) => {
            assert_eq!(e.operation.operation_action(), 1);
            assert_eq!(e.operation.operation_method(), 2);
            assert_eq!(e.key_id, 1);
            assert_eq!(e.timestamp, 0x4030_2010);
        }
        other => panic!("unexpected payload {:?}", other),
    }
    let p = MiBeaconObjectPayload::decode(0x100E, &[0x05]).unwrap();
    match p {
        MiBeaconObjectPayload::Lock(s) => {
            assert!(s.tongue_ejected());
            assert!(!s.dead_tongue_ejected());
            assert!(s.latch_ejected());
            assert!(!s.child_lock_ejected());
        }
        other => panic!("unexpected payload {:?}", other),
    }
}

#[test]
fn negative_temperature_and_humidity() {
    let t = MiBeaconObjectPayload::decode(0x1004, &[0xF6, 0xFF]).unwrap();
    assert_eq!(
        t.to_sensor_events(),
        vec![SensorEvent::NumericMeasurement {
            measurement_type: NumericMeasurementType::Temperature,
            value: Decimal { mantissa: -10, scale: 1 },
            unit: UnitOfMeasurement::DegreesCelsius,
        }]
    );
    let h = MiBeaconObjectPayload::decode(0x1006, &[0xB3, 0x01]).unwrap();
    assert_eq!(
        h.to_sensor_events(),
        vec![SensorEvent::NumericMeasurement {
            measurement_type: NumericMeasurementType::Humidity,
            value: Decimal { mantissa: 435, scale: 1 },
            unit: UnitOfMeasurement::Percent,
        }]
    );
}

#[test]
fn power_and_temperature_yields_two_events() {
    let p = MiBeaconObjectPayload::decode(0x1005, &[0x01, 0x5A]).unwrap();
    assert_eq!(
        p.to_sensor_events(),
        vec![
            SensorEvent::BinaryMeasurement {
                measurement_type: BinaryMeasurementType::Power,
                value: true,
            },
            SensorEvent::NumericMeasurement {
                measurement_type: NumericMeasurementType::Temperature,
                value: Decimal { mantissa: 90, scale: 0 },
                unit: UnitOfMeasurement::DegreesCelsius,
            },
        ]
    );
}

#[test]
fn remaining_battery_weight_and_illuminance_mappings() {
    let cases: [(u16, &[u8], NumericMeasurementType, Decimal, UnitOfMeasurement); 4] = [
        (
            0x100A,
            &[0x5F],
            NumericMeasurementType::BatteryPower,
            Decimal { mantissa: 95, scale: 0 },
            UnitOfMeasurement::Percent,
        ),
        (
            0x1013,
            &[0x32],
            NumericMeasurementType::RemainingSupplies,
            Decimal { mantissa: 50, scale: 0 },
            UnitOfMeasurement::Percent,
        ),
        (
            0x101A,
            &[0x10, 0x27],
            NumericMeasurementType::Weight,
            Decimal { mantissa: 10000, scale: 3 },
            UnitOfMeasurement::Kilogram,
        ),
        (
            0x1007,
            &[0xC0, 0xD4, 0x01],
            NumericMeasurementType::Illuminance,
            Decimal { mantissa: 120000, scale: 0 },
            UnitOfMeasurement::Lux,
        ),
    ];
    for (id, data, kind, value, unit) in cases {
        let p = MiBeaconObjectPayload::decode(id, data).unwrap();
        assert_eq!(
            p.to_sensor_events(),
            vec![SensorEvent::NumericMeasurement {
                measurement_type: kind,
                value,
                unit,
            }]
        );
    }
}

#[test]
fn several_objects_keep_order_and_duplicates() {
    let frame = objects_only_frame(&[
        0x08, 0x10, 0x01, 0x17, 0x04, 0x10, 0x02, 0xEC, 0x00, 0x08, 0x10, 0x01, 0x18,
    ]);
    let adv = MiBeaconServiceAdvertisement::from_slice(&frame).unwrap();
    assert_eq!(adv.objects.len(), 3);
    let events = adv.iter_sensor_events();
    assert_eq!(events.len(), 3);
    assert_eq!(
        events[2],
        SensorEvent::NumericMeasurement {
            measurement_type: NumericMeasurementType::Moisture,
            value: Decimal { mantissa: 0x18, scale: 0 },
            unit: UnitOfMeasurement::Percent,
        }
    );
}

#[test]
fn objects_not_included_ignores_trailing_bytes() {
    // Frame control 0x2000: nothing optional.
    let adv =
        MiBeaconServiceAdvertisement::from_slice(&[0x00, 0x20, 0x98, 0x00, 0x01, 0xFF, 0xFF])
            .unwrap();
    assert!(adv.objects.is_empty());
    assert!(adv.mac_address.is_none());
    assert!(adv.capabilities.is_none());
    assert!(adv.iter_sensor_events().is_empty());
}

#[test]
fn weight_object_in_grams_reads_as_kilograms() {
    let p = MiBeaconObjectPayload::decode(0x101A, &[0xE8, 0x03]).unwrap();
    match p.to_sensor_events()[0] {
        SensorEvent::NumericMeasurement {
            measurement_type: NumericMeasurementType::Weight,
            value,
            unit: UnitOfMeasurement::Kilogram,
        } => {
            assert_eq!(value, Decimal { mantissa: 1000, scale: 3 });
            assert_eq!(as_f64(value), 1.0);
        }
        other => panic!("expected a weight event, got {:?}", other),
    }
}
