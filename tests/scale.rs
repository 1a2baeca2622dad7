use xiaomi_ble::error::ParseErrorKind;
use xiaomi_ble::hhccjcy10::HHCCJCY10ServiceAdvertisement;
use xiaomi_ble::miscale::{MiScalePacket, MiScaleServiceAdvertisement, WeightUnit};
use xiaomi_ble::sensor::{Decimal, NumericMeasurementType, SensorEvent, UnitOfMeasurement};

fn v1_frame(header: u8, weight: u16) -> Vec<u8> {
    let w = weight.to_le_bytes();
    vec![0x00, 0x00, 0x1D, 0x18, header, w[0], w[1], 0, 0, 0, 0, 0, 0, 0]
}

fn v2_frame(header: u16, impedance: u16, weight: u16) -> Vec<u8> {
    let h = header.to_le_bytes();
    let i = impedance.to_le_bytes();
    let w = weight.to_le_bytes();
    vec![0x00, 0x00, 0x1B, 0x18, h[0], h[1], 0, 0, 0, 0, 0, 0, 0, i[0], i[1], w[0], w[1]]
}

fn as_f64(d: Decimal) -> f64 {
    d.mantissa as f64 / 10f64.powi(d.scale as i32)
}

fn weight_of(adv: &MiScaleServiceAdvertisement) -> Decimal {
    match adv.iter_sensor_events()[0] {
        SensorEvent::NumericMeasurement {
            measurement_type: NumericMeasurementType::Weight,
            value,
            unit: UnitOfMeasurement::Kilogram,
        } => value,
        other => panic!("expected a weight event, got {:?}", other),
    }
}

#[test]
fn weight_in_two_hundredths_of_a_kilogram() {
    let adv = MiScaleServiceAdvertisement::from_slice(&v1_frame(0x00, 1000)).unwrap();
    assert_eq!(adv.payload.weight(), Some((1000, WeightUnit::TwoHundredKilograms)));
    let kg = weight_of(&adv);
    assert_eq!(kg, Decimal { mantissa: 5000, scale: 3 });
    assert_eq!(as_f64(kg), 5.0);
    assert_eq!(adv.iter_sensor_events().len(), 1);
}

#[test]
fn weight_in_hundredths_of_a_pound() {
    let adv = MiScaleServiceAdvertisement::from_slice(&v1_frame(0x01, 1000)).unwrap();
    assert_eq!(adv.payload.weight(), Some((1000, WeightUnit::OneHundredPounds)));
    let kg = weight_of(&adv);
    assert_eq!(kg, Decimal { mantissa: 45_359_237_000, scale: 10 });
    assert!((as_f64(kg) - 1000.0 * 0.0045359237).abs() < 1e-12);
}

#[test]
fn weight_in_hundredths_of_a_catty() {
    let adv = MiScaleServiceAdvertisement::from_slice(&v1_frame(0x10, 1000)).unwrap();
    let kg = weight_of(&adv);
    assert_eq!(kg, Decimal { mantissa: 1000, scale: 2 });
    assert_eq!(as_f64(kg), 10.0);
}

#[test]
fn pounds_take_precedence_over_catty() {
    assert_eq!(WeightUnit::OneHundredCatty.kilograms(250), Decimal { mantissa: 250, scale: 2 });
    let adv = MiScaleServiceAdvertisement::from_slice(&v1_frame(0x11, 10)).unwrap();
    assert_eq!(adv.payload.weight(), Some((10, WeightUnit::OneHundredPounds)));
}

#[test]
fn removed_weight_gives_no_event() {
    let adv = MiScaleServiceAdvertisement::from_slice(&v1_frame(0xA0, 1000)).unwrap();
    assert!(adv.payload.weight().is_none());
    assert!(adv.payload.weight_kilograms().is_none());
    assert!(adv.iter_sensor_events().is_empty());
}

#[test]
fn v2_packet_reports_weight_and_impedance() {
    let adv = MiScaleServiceAdvertisement::from_slice(&v2_frame(0x0080, 500, 14000)).unwrap();
    match adv.payload {
        MiScalePacket::MiScaleV2(p) => {
            assert!(p.header.weight_unit_is_pounds());
            assert!(!p.header.weight_removed());
            assert_eq!(p.impedance, 500);
            assert_eq!(p.weight, 14000);
        }
        other => panic!("unexpected packet {:?}", other),
    }
    assert_eq!(
        adv.iter_sensor_events(),
        vec![
            SensorEvent::NumericMeasurement {
                measurement_type: NumericMeasurementType::Weight,
                value: Decimal { mantissa: 14000 * 45_359_237, scale: 10 },
                unit: UnitOfMeasurement::Kilogram,
            },
            SensorEvent::NumericMeasurement {
                measurement_type: NumericMeasurementType::Impedance,
                value: Decimal { mantissa: 500, scale: 0 },
                unit: UnitOfMeasurement::Ohm,
            },
        ]
    );
    // Weight removed (bit 8): impedance only.
    let adv = MiScaleServiceAdvertisement::from_slice(&v2_frame(0x0100, 480, 0)).unwrap();
    assert_eq!(
        adv.iter_sensor_events(),
        vec![SensorEvent::NumericMeasurement {
            measurement_type: NumericMeasurementType::Impedance,
            value: Decimal { mantissa: 480, scale: 0 },
            unit: UnitOfMeasurement::Ohm,
        }]
    );
}

#[test]
fn scale_frame_errors() {
    let err = MiScaleServiceAdvertisement::from_slice(&[0, 0, 0x1D]).unwrap_err();
    assert_eq!(err.kind, ParseErrorKind::UnexpectedEnd);
    let short = &v1_frame(0, 1)[..13];
    let err = MiScaleServiceAdvertisement::from_slice(short).unwrap_err();
    assert_eq!(err.kind, ParseErrorKind::UnexpectedEnd);
    let err = MiScaleServiceAdvertisement::from_slice(&[0, 0, 0x34, 0x12, 0, 0, 0, 0, 0, 0, 0, 0, 0, 0])
        .unwrap_err();
    assert_eq!(err.kind, ParseErrorKind::UnknownLayout { device_id: 0x1234 });
}

#[test]
fn plant_sensor_frame() {
    let frame = [
        0x01, 0x02, 0x03, 0x04, 0x21, 0xEB, 0x00, 0x10, 0x27, 0x00, 0x55, 0xC8, 0x00,
    ];
    let adv = HHCCJCY10ServiceAdvertisement::from_slice(&frame).unwrap();
    assert_eq!(adv.moisture_percent, 0x21);
    assert_eq!(adv.temperature_decicelsius, 235);
    assert_eq!(adv.illuminance_lux.as_u32(), 10000);
    assert_eq!(adv.battery_percent, 0x55);
    assert_eq!(adv.conductivity, 200);
    assert_eq!(
        adv.iter_sensor_events(),
        vec![
            SensorEvent::NumericMeasurement {
                measurement_type: NumericMeasurementType::Moisture,
                value: Decimal { mantissa: 33, scale: 0 },
                unit: UnitOfMeasurement::Percent,
            },
            SensorEvent::NumericMeasurement {
                measurement_type: NumericMeasurementType::Temperature,
                value: Decimal { mantissa: 235, scale: 1 },
                unit: UnitOfMeasurement::DegreesCelsius,
            },
            SensorEvent::NumericMeasurement {
                measurement_type: NumericMeasurementType::Illuminance,
                value: Decimal { mantissa: 10000, scale: 0 },
                unit: UnitOfMeasurement::Lux,
            },
            SensorEvent::NumericMeasurement {
                measurement_type: NumericMeasurementType::BatteryPower,
                value: Decimal { mantissa: 85, scale: 0 },
                unit: UnitOfMeasurement::Percent,
            },
        ]
    );
    let device = adv.device_type();
    assert_eq!(device.name, "Plant Sensor");
    assert_eq!(device.model, "HHCCJCY10");
    assert_eq!(device.manufacturer, "HHCC Plant Technology Co. Ltd");
    let err = HHCCJCY10ServiceAdvertisement::from_slice(&frame[..12]).unwrap_err();
    assert_eq!(err.kind, ParseErrorKind::UnexpectedEnd);
}
