//! The HHCCJCY10 plant sensor (pink version) frame format: one fixed layout.
use vstd::prelude::*;

use crate::device::DeviceType;
use crate::error::ParseError;
use crate::sensor::{numeric, Decimal, NumericMeasurementType, SensorEvent, UnitOfMeasurement};
use crate::util::{le_u16, le_u32, read_u16_le, read_u32_le, u24_at, U24};

verus! {

/// Service advertisement in the HHCCJCY10 plant sensor (pink version) format: four reserved
/// bytes, then the readings, all little-endian.
#[derive(Copy, Clone, Debug, PartialEq, Eq)]
pub struct HHCCJCY10ServiceAdvertisement {
    /// Reserved.
    pub reserved: u32,
    /// Soil moisture (%).
    pub moisture_percent: u8,
    /// Temperature (0.1 °C).
    pub temperature_decicelsius: u16,
    /// Illuminance (lx).
    pub illuminance_lux: U24,
    /// Battery power (%).
    pub battery_percent: u8,
    /// Soil electrical conductivity (µS/cm).
    pub conductivity: u16,
}

/// The decoding of an HHCCJCY10 frame: the first thirteen bytes; any further bytes are ignored.
pub open spec fn spec_hhccjcy10_decode(b: Seq<u8>) -> Result<
    HHCCJCY10ServiceAdvertisement,
    ParseError,
> {
    if b.len() < 13 {
        Err(ParseError::spec_unexpected_end())
    } else {
        Ok(
            HHCCJCY10ServiceAdvertisement {
                reserved: le_u32(b, 0),
                moisture_percent: b[4],
                temperature_decicelsius: le_u16(b, 5),
                illuminance_lux: u24_at(b, 7),
                battery_percent: b[10],
                conductivity: le_u16(b, 11),
            },
        )
    }
}

impl HHCCJCY10ServiceAdvertisement {
    /// Parses a [`HHCCJCY10ServiceAdvertisement`] from a byte slice.
    pub fn from_slice(slice: &[u8]) -> (r: Result<HHCCJCY10ServiceAdvertisement, ParseError>)
        ensures
            r == spec_hhccjcy10_decode(slice@),
    {
        if slice.len() < 13 {
            return Err(ParseError::unexpected_end());
        }
        Ok(
            HHCCJCY10ServiceAdvertisement {
                reserved: read_u32_le(slice, 0),
                moisture_percent: slice[4],
                temperature_decicelsius: read_u16_le(slice, 5),
                illuminance_lux: U24::read(slice, 7),
                battery_percent: slice[10],
                conductivity: read_u16_le(slice, 11),
            },
        )
    }

    /// Get device type of advertisement sender: every such frame comes from the one model.
    pub fn device_type(&self) -> (r: DeviceType)
        ensures
            r.name@ == "Plant Sensor"@,
            r.model@ == "HHCCJCY10"@,
            r.manufacturer@ == "HHCC Plant Technology Co. Ltd"@,
    {
        DeviceType {
            name: "Plant Sensor",
            model: "HHCCJCY10",
            manufacturer: "HHCC Plant Technology Co. Ltd",
        }
    }

    /// The sensor events of the advertisement: moisture, temperature, illuminance and battery.
    pub open spec fn spec_sensor_events(self) -> Seq<SensorEvent> {
        seq![
            numeric(
                NumericMeasurementType::Moisture,
                self.moisture_percent as int,
                0,
                UnitOfMeasurement::Percent,
            ),
            numeric(
                NumericMeasurementType::Temperature,
                self.temperature_decicelsius as int,
                1,
                UnitOfMeasurement::DegreesCelsius,
            ),
            numeric(
                NumericMeasurementType::Illuminance,
                self.illuminance_lux.value() as int,
                0,
                UnitOfMeasurement::Lux,
            ),
            numeric(
                NumericMeasurementType::BatteryPower,
                self.battery_percent as int,
                0,
                UnitOfMeasurement::Percent,
            ),
        ]
    }

    /// Yields the sensor events of the advertisement.
    pub fn iter_sensor_events(&self) -> (r: Vec<SensorEvent>)
        ensures
            r@ == self.spec_sensor_events(),
    {
        let mut events: Vec<SensorEvent> = Vec::new();
        events.push(
            SensorEvent::NumericMeasurement {
                measurement_type: NumericMeasurementType::Moisture,
                value: Decimal { mantissa: self.moisture_percent as i64, scale: 0 },
                unit: UnitOfMeasurement::Percent,
            },
        );
        events.push(
            SensorEvent::NumericMeasurement {
                measurement_type: NumericMeasurementType::Temperature,
                value: Decimal { mantissa: self.temperature_decicelsius as i64, scale: 1 },
                unit: UnitOfMeasurement::DegreesCelsius,
            },
        );
        events.push(
            SensorEvent::NumericMeasurement {
                measurement_type: NumericMeasurementType::Illuminance,
                value: Decimal { mantissa: self.illuminance_lux.as_u32() as i64, scale: 0 },
                unit: UnitOfMeasurement::Lux,
            },
        );
        events.push(
            SensorEvent::NumericMeasurement {
                measurement_type: NumericMeasurementType::BatteryPower,
                value: Decimal { mantissa: self.battery_percent as i64, scale: 0 },
                unit: UnitOfMeasurement::Percent,
            },
        );
        assert(events@ =~= self.spec_sensor_events());
        events
    }
}

} // verus!
