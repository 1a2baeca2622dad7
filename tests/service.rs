use xiaomi_ble::error::ParseErrorKind;
use xiaomi_ble::parse_service_advertisement;
use xiaomi_ble::sensor::{
    BinaryMeasurementType, Decimal, NumericMeasurementType, SensorEvent, UnitOfMeasurement,
};
use xiaomi_ble::service::{
    service_uuid_to_type, ServiceAdvertisement, ServiceAdvertisementError, ServiceType,
    HHCCJCY10_UUID, MIBEACON_UUID, SCALE1_UUID, SCALE2_UUID,
};
use xiaomi_ble::util::U24;

const TEMPERATURE_FRAME: [u8; 17] = [
    0x71, 0x20, 0x98, 0x00, 0xB1, 0x66, 0x55, 0x44, 0x33, 0x22, 0x11, 0x0D, 0x04, 0x10, 0x02,
    0xEC, 0x00,
];

#[test]
fn uuids_map_to_service_types() {
    assert_eq!(
        service_uuid_to_type(0x0000fe95_0000_1000_8000_00805f9b34fb),
        Some(ServiceType::MiBeacon)
    );
    assert_eq!(service_uuid_to_type(HHCCJCY10_UUID), Some(ServiceType::HHCCJCY10));
    assert_eq!(service_uuid_to_type(SCALE1_UUID), Some(ServiceType::Scale1));
    assert_eq!(service_uuid_to_type(SCALE2_UUID), Some(ServiceType::Scale2));
    assert_eq!(service_uuid_to_type(0), None);
}

#[test]
fn mibeacon_uuid_is_decoded() {
    let adv = parse_service_advertisement(MIBEACON_UUID, &TEMPERATURE_FRAME).unwrap();
    let ServiceAdvertisement::MiBeacon(inner) = &adv;
    assert_eq!(inner.device_id, 0x0098);
    assert_eq!(
        adv.iter_sensor_events(),
        vec![SensorEvent::NumericMeasurement {
            measurement_type: NumericMeasurementType::Temperature,
            value: Decimal { mantissa: 236, scale: 1 },
            unit: UnitOfMeasurement::DegreesCelsius,
        }]
    );
}

#[test]
fn other_uuids_are_unhandled() {
    assert_eq!(
        parse_service_advertisement(SCALE1_UUID, &TEMPERATURE_FRAME).unwrap_err(),
        ServiceAdvertisementError::UnhandledService
    );
    assert_eq!(
        parse_service_advertisement(0x1234, &TEMPERATURE_FRAME).unwrap_err(),
        ServiceAdvertisementError::UnhandledService
    );
}

#[test]
fn malformed_mibeacon_payload_is_a_parse_failure() {
    match parse_service_advertisement(MIBEACON_UUID, &TEMPERATURE_FRAME[..16]).unwrap_err() {
        ServiceAdvertisementError::ParsingFailed(e) => {
            assert_eq!(e.kind, ParseErrorKind::UnexpectedEnd)
        }
        other => panic!("unexpected error {:?}", other),
    }
}

#[test]
fn measurement_names_and_units() {
    assert_eq!(BinaryMeasurementType::Power.as_str(), "power");
    assert_eq!(BinaryMeasurementType::WaterImmersion.as_str(), "water_immersion");
    assert_eq!(BinaryMeasurementType::GasLeak.as_str(), "gas_leak");
    assert_eq!(NumericMeasurementType::Temperature.as_str(), "temperature");
    assert_eq!(
        NumericMeasurementType::FormaldehydeConcentration.as_str(),
        "formaldehyde_concentration"
    );
    assert_eq!(NumericMeasurementType::BatteryPower.as_str(), "battery_power");
    assert_eq!(UnitOfMeasurement::DegreesCelsius.as_str(), "°C");
    assert_eq!(UnitOfMeasurement::MicrosiemensPerCentimeter.as_str(), "µS/cm");
    assert_eq!(UnitOfMeasurement::MilligramPerCubicMeter.as_str(), "mg/m³");
    assert_eq!(UnitOfMeasurement::Ohm.as_str(), "Ω");
}

#[test]
fn three_byte_integer() {
    assert_eq!(U24([0x73, 0x00, 0x00]).as_u32(), 0x73);
    assert_eq!(U24([0x01, 0x02, 0x03]).as_u32(), 0x030201);
    assert_eq!(U24([0xFF, 0xFF, 0xFF]).as_u32(), 0xFF_FFFF);
}
