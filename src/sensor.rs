//! Sensor readings, independent of the frame format they were decoded from.
use vstd::prelude::*;

verus! {

/// Measurement type for binary sensors.
#[derive(Copy, Clone, Debug, PartialEq, Eq, Structural)]
pub enum BinaryMeasurementType {
    /// Power state.
    Power,
    /// Sleep state.
    Sleep,
    /// Binding state.
    Binding,
    /// Switch state.
    Switch,
    /// Water immersion state.
    WaterImmersion,
    /// Gas leakage state.
    GasLeak,
    /// Light state.
    Light,
}

impl BinaryMeasurementType {
    /// The lowercase name of this type.
    pub open spec fn name(self) -> Seq<char> {
        match self {
            BinaryMeasurementType::Power => "power"@,
            BinaryMeasurementType::Sleep => "sleep"@,
            BinaryMeasurementType::Binding => "binding"@,
            BinaryMeasurementType::Switch => "switch"@,
            BinaryMeasurementType::WaterImmersion => "water_immersion"@,
            BinaryMeasurementType::GasLeak => "gas_leak"@,
            BinaryMeasurementType::Light => "light"@,
        }
    }

    /// Get the lowercase name of this type.
    pub fn as_str(&self) -> (r: &'static str)
        ensures
            r@ == self.name(),
    {
        match self {
            BinaryMeasurementType::Power => "power",
            BinaryMeasurementType::Sleep => "sleep",
            BinaryMeasurementType::Binding => "binding",
            BinaryMeasurementType::Switch => "switch",
            BinaryMeasurementType::WaterImmersion => "water_immersion",
            BinaryMeasurementType::GasLeak => "gas_leak",
            BinaryMeasurementType::Light => "light",
        }
    }
}

/// Measurement type for numeric sensors.
#[derive(Copy, Clone, Debug, PartialEq, Eq, Structural)]
pub enum NumericMeasurementType {
    /// A temperature measurement.
    Temperature,
    /// A humidity measurement.
    Humidity,
    /// An illuminance measurement.
    Illuminance,
    /// A moisture measurement.
    Moisture,
    /// An electrical conductivity measurement.
    Conductivity,
    /// A formaldehyde concentration measurement.
    FormaldehydeConcentration,
    /// A measurement of remaining supplies.
    RemainingSupplies,
    /// A battery power measurement.
    BatteryPower,
    /// A weight measurement.
    Weight,
    /// An impedance measurement.
    Impedance,
}

impl NumericMeasurementType {
    /// Get the lowercase name of this type.
    pub open spec fn name(self) -> Seq<char> {
        match self {
            NumericMeasurementType::Temperature => "temperature"@,
            NumericMeasurementType::Humidity => "humidity"@,
            NumericMeasurementType::Illuminance => "illuminance"@,
            NumericMeasurementType::Moisture => "moisture"@,
            NumericMeasurementType::Conductivity => "conductivity"@,
            NumericMeasurementType::FormaldehydeConcentration => "formaldehyde_concentration"@,
            NumericMeasurementType::RemainingSupplies => "remaining_supplies"@,
            NumericMeasurementType::BatteryPower => "battery_power"@,
            NumericMeasurementType::Weight => "weight"@,
            NumericMeasurementType::Impedance => "impedance"@,
        }
    }

    /// Get the lowercase name of this type.
    pub fn as_str(&self) -> (r: &'static str)
        ensures
            r@ == self.name(),
    {
        match self {
            NumericMeasurementType::Temperature => "temperature",
            NumericMeasurementType::Humidity => "humidity",
            NumericMeasurementType::Illuminance => "illuminance",
            NumericMeasurementType::Moisture => "moisture",
            NumericMeasurementType::Conductivity => "conductivity",
            NumericMeasurementType::FormaldehydeConcentration => "formaldehyde_concentration",
            NumericMeasurementType::RemainingSupplies => "remaining_supplies",
            NumericMeasurementType::BatteryPower => "battery_power",
            NumericMeasurementType::Weight => "weight",
            NumericMeasurementType::Impedance => "impedance",
        }
    }
}

/// The unit of measurement.
#[derive(Copy, Clone, Debug, PartialEq, Eq, Structural)]
pub enum UnitOfMeasurement {
    /// Degrees Celsius (°C).
    DegreesCelsius,
    /// Percent (%).
    Percent,
    /// Lux (lx).
    Lux,
    /// Microsiemens per centimeter (µS/cm).
    MicrosiemensPerCentimeter,
    /// Milligram per cubic meter (mg/m³).
    MilligramPerCubicMeter,
    /// Seconds (s).
    Seconds,
    /// Kilogram (kg).
    Kilogram,
    /// Ohm (Ω).
    Ohm,
}

impl UnitOfMeasurement {
    /// Get the unit as a string.
    pub open spec fn name(self) -> Seq<char> {
        match self {
            UnitOfMeasurement::DegreesCelsius => "°C"@,
            UnitOfMeasurement::Percent => "%"@,
            UnitOfMeasurement::Lux => "lx"@,
            UnitOfMeasurement::MicrosiemensPerCentimeter => "µS/cm"@,
            UnitOfMeasurement::MilligramPerCubicMeter => "mg/m³"@,
            UnitOfMeasurement::Seconds => "s"@,
            UnitOfMeasurement::Kilogram => "kg"@,
            UnitOfMeasurement::Ohm => "Ω"@,
        }
    }

    /// Get the unit as a string.
    pub fn as_str(&self) -> (r: &'static str)
        ensures
            r@ == self.name(),
    {
        match self {
            UnitOfMeasurement::DegreesCelsius => "°C",
            UnitOfMeasurement::Percent => "%",
            UnitOfMeasurement::Lux => "lx",
            UnitOfMeasurement::MicrosiemensPerCentimeter => "µS/cm",
            UnitOfMeasurement::MilligramPerCubicMeter => "mg/m³",
            UnitOfMeasurement::Seconds => "s",
            UnitOfMeasurement::Kilogram => "kg",
            UnitOfMeasurement::Ohm => "Ω",
        }
    }
}

/// An exact decimal number: `mantissa × 10^-scale`.
///
/// Readings are scaled integers on the wire (tenths of a degree, hundredths of a milligram, ...);
/// keeping the integer and the power of ten makes every reading exact.
#[derive(Copy, Clone, Debug, PartialEq, Eq, Structural)]
pub struct Decimal {
    /// The integer that is scaled.
    pub mantissa: i64,
    /// The number of decimal places: the value is `mantissa / 10^scale`.
    pub scale: u32,
}

/// `10^n`.
pub open spec fn pow10(n: nat) -> int
    decreases n,
{
    if n == 0 {
        1
    } else {
        10 * pow10((n - 1) as nat)
    }
}

impl Decimal {
    /// Whether the two decimals stand for the same number, whatever their scales.
    pub open spec fn same_value(self, other: Decimal) -> bool {
        self.mantissa * pow10(other.scale as nat) == other.mantissa * pow10(self.scale as nat)
    }
}

/// Represents a measured sensor value.
#[derive(Copy, Clone, Debug, PartialEq, Eq, Structural)]
pub enum SensorEvent {
    /// A binary measurement (true/false).
    BinaryMeasurement {
        /// The type of the measurement.
        measurement_type: BinaryMeasurementType,
        /// The measured value.
        value: bool,
    },
    /// A numeric measurement.
    NumericMeasurement {
        /// The type of the measurement.
        measurement_type: NumericMeasurementType,
        /// The measured value.
        value: Decimal,
        /// The unit of the value.
        unit: UnitOfMeasurement,
    },
}

/// A numeric event of the given type, `mantissa × 10^-scale` in the given unit.
pub open spec fn numeric(
    measurement_type: NumericMeasurementType,
    mantissa: int,
    scale: u32,
    unit: UnitOfMeasurement,
) -> SensorEvent {
    SensorEvent::NumericMeasurement {
        measurement_type,
        value: Decimal { mantissa: mantissa as i64, scale },
        unit,
    }
}

} // verus!
