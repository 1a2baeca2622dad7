//! The Xiaomi Mi Scale frame formats (v1 and v2): a fixed layout chosen by the device id.
use vstd::prelude::*;

use crate::error::{ParseError, ParseErrorKind};
use crate::sensor::{numeric, Decimal, NumericMeasurementType, SensorEvent, UnitOfMeasurement};
use crate::util::{bit_u16, bit_u8, le_u16, read_u16_le};

verus! {

/// Device id of the Mi Smart Scale, which sends v1 packets.
pub const SCALE_V1_DEVICE_ID: u16 = 0x181D;

/// Device id of the Mi Body Composition Scale, which sends v2 packets.
pub const SCALE_V2_DEVICE_ID: u16 = 0x181B;

/// The unit of a raw weight reading.
#[derive(Copy, Clone, Debug, PartialEq, Eq, Structural)]
pub enum WeightUnit {
    /// Hundredths of a pound.
    OneHundredPounds,
    /// Hundredths of a catty.
    OneHundredCatty,
    /// Two-hundredths of a kilogram.
    TwoHundredKilograms,
}

impl WeightUnit {
    /// A raw weight in this unit, in kilograms: ×0.005 for two-hundredths of a kilogram,
    /// ×0.0045359237 for hundredths of a pound, ×0.01 for hundredths of a catty.
    pub open spec fn spec_kilograms(self, raw: u16) -> Decimal {
        match self {
            WeightUnit::TwoHundredKilograms => Decimal { mantissa: (raw * 5) as i64, scale: 3 },
            WeightUnit::OneHundredPounds => Decimal {
                mantissa: (raw * 45359237) as i64,
                scale: 10,
            },
            WeightUnit::OneHundredCatty => Decimal { mantissa: raw as i64, scale: 2 },
        }
    }

    /// A raw weight in this unit, in kilograms.
    pub fn kilograms(self, raw: u16) -> (r: Decimal)
        ensures
            r == self.spec_kilograms(raw),
    {
        match self {
            WeightUnit::TwoHundredKilograms => Decimal { mantissa: raw as i64 * 5, scale: 3 },
            WeightUnit::OneHundredPounds => Decimal {
                mantissa: raw as i64 * 45359237,
                scale: 10,
            },
            WeightUnit::OneHundredCatty => Decimal { mantissa: raw as i64, scale: 2 },
        }
    }
}

/// Header byte of a v1 packet. Bits 1 to 3 and 6 are reserved.
#[derive(Copy, Clone, Debug, PartialEq, Eq)]
pub struct PacketHeaderV1 {
    /// The raw byte.
    pub bits: u8,
}

impl PacketHeaderV1 {
    /// Whether the weight is in pounds (bit 0).
    pub open spec fn spec_weight_unit_is_pounds(self) -> bool {
        bit_u8(self.bits, 0)
    }

    /// Whether the weight is in pounds (bit 0).
    pub fn weight_unit_is_pounds(&self) -> (r: bool)
        ensures
            r == self.spec_weight_unit_is_pounds(),
    {
        (self.bits >> 0u8) & 1u8 == 1u8
    }

    /// Whether the weight is in catties (bit 4).
    pub open spec fn spec_weight_unit_is_catty(self) -> bool {
        bit_u8(self.bits, 4)
    }

    /// Whether the weight is in catties (bit 4).
    pub fn weight_unit_is_catty(&self) -> (r: bool)
        ensures
            r == self.spec_weight_unit_is_catty(),
    {
        (self.bits >> 4u8) & 1u8 == 1u8
    }

    /// Whether the weight has stabilized (bit 5).
    pub open spec fn spec_weight_stabilized(self) -> bool {
        bit_u8(self.bits, 5)
    }

    /// Whether the weight has stabilized (bit 5).
    pub fn weight_stabilized(&self) -> (r: bool)
        ensures
            r == self.spec_weight_stabilized(),
    {
        (self.bits >> 5u8) & 1u8 == 1u8
    }

    /// Whether the packet carries no weight (bit 7).
    pub open spec fn spec_weight_removed(self) -> bool {
        bit_u8(self.bits, 7)
    }

    /// Whether the packet carries no weight (bit 7).
    pub fn weight_removed(&self) -> (r: bool)
        ensures
            r == self.spec_weight_removed(),
    {
        (self.bits >> 7u8) & 1u8 == 1u8
    }
}

/// Header word of a v2 packet (little-endian). Bits 0 to 6, 11 to 13 and 15 are reserved.
#[derive(Copy, Clone, Debug, PartialEq, Eq)]
pub struct PacketHeaderV2 {
    /// The raw word.
    pub bits: u16,
}

impl PacketHeaderV2 {
    /// Whether the weight is in pounds (bit 7).
    pub open spec fn spec_weight_unit_is_pounds(self) -> bool {
        bit_u16(self.bits, 7)
    }

    /// Whether the weight is in pounds (bit 7).
    pub fn weight_unit_is_pounds(&self) -> (r: bool)
        ensures
            r == self.spec_weight_unit_is_pounds(),
    {
        (self.bits >> 7u16) & 1u16 == 1u16
    }

    /// Whether the packet carries no weight (bit 8).
    pub open spec fn spec_weight_removed(self) -> bool {
        bit_u16(self.bits, 8)
    }

    /// Whether the packet carries no weight (bit 8).
    pub fn weight_removed(&self) -> (r: bool)
        ensures
            r == self.spec_weight_removed(),
    {
        (self.bits >> 8u16) & 1u16 == 1u16
    }

    /// Whether the weight is in catties (bit 9).
    pub open spec fn spec_weight_unit_is_catty(self) -> bool {
        bit_u16(self.bits, 9)
    }

    /// Whether the weight is in catties (bit 9).
    pub fn weight_unit_is_catty(&self) -> (r: bool)
        ensures
            r == self.spec_weight_unit_is_catty(),
    {
        (self.bits >> 9u16) & 1u16 == 1u16
    }

    /// Whether the weight has stabilized (bit 10).
    pub open spec fn spec_weight_stabilized(self) -> bool {
        bit_u16(self.bits, 10)
    }

    /// Whether the weight has stabilized (bit 10).
    pub fn weight_stabilized(&self) -> (r: bool)
        ensures
            r == self.spec_weight_stabilized(),
    {
        (self.bits >> 10u16) & 1u16 == 1u16
    }

    /// Whether the impedance has stabilized (bit 14).
    pub open spec fn spec_impedance_stabilized(self) -> bool {
        bit_u16(self.bits, 14)
    }

    /// Whether the impedance has stabilized (bit 14).
    pub fn impedance_stabilized(&self) -> (r: bool)
        ensures
            r == self.spec_impedance_stabilized(),
    {
        (self.bits >> 14u16) & 1u16 == 1u16
    }
}

/// The weight and its unit, given the header's flags: none when the weight is removed; pounds
/// take precedence over catties, and kilograms are the default.
pub open spec fn weight_with_unit(removed: bool, pounds: bool, catty: bool, weight: u16) -> Option<
    (u16, WeightUnit),
> {
    if removed {
        None
    } else if pounds {
        Some((weight, WeightUnit::OneHundredPounds))
    } else if catty {
        Some((weight, WeightUnit::OneHundredCatty))
    } else {
        Some((weight, WeightUnit::TwoHundredKilograms))
    }
}

/// The unit that the flags select.
fn unit_of(pounds: bool, catty: bool) -> (r: WeightUnit)
    ensures
        weight_with_unit(false, pounds, catty, 0) == Some((0u16, r)),
{
    if pounds {
        WeightUnit::OneHundredPounds
    } else if catty {
        WeightUnit::OneHundredCatty
    } else {
        WeightUnit::TwoHundredKilograms
    }
}

/// Mi Scale packet (v1): header, weight, seven reserved bytes.
#[derive(Copy, Clone, Debug, PartialEq, Eq)]
pub struct PacketV1 {
    /// Packet header.
    pub header: PacketHeaderV1,
    /// The measured weight value.
    pub weight: u16,
    /// Reserved bytes.
    pub reserved: [u8; 7],
}

impl PacketV1 {
    /// Weight and unit, when the packet carries a weight.
    pub open spec fn spec_weight(self) -> Option<(u16, WeightUnit)> {
        weight_with_unit(
            self.header.spec_weight_removed(),
            self.header.spec_weight_unit_is_pounds(),
            self.header.spec_weight_unit_is_catty(),
            self.weight,
        )
    }

    /// Get weight and unit from the packet (if present).
    pub fn weight(&self) -> (r: Option<(u16, WeightUnit)>)
        ensures
            r == self.spec_weight(),
    {
        if self.header.weight_removed() {
            return None;
        }
        let unit = unit_of(self.header.weight_unit_is_pounds(), self.header.weight_unit_is_catty());
        Some((self.weight, unit))
    }
}

/// Mi Scale packet (v2): header, seven reserved bytes, impedance, weight.
#[derive(Copy, Clone, Debug, PartialEq, Eq)]
pub struct PacketV2 {
    /// Packet header.
    pub header: PacketHeaderV2,
    /// Reserved bytes.
    pub reserved: [u8; 7],
    /// Measured body impedance.
    pub impedance: u16,
    /// Measured weight.
    pub weight: u16,
}

impl PacketV2 {
    /// Weight and unit, when the packet carries a weight.
    pub open spec fn spec_weight(self) -> Option<(u16, WeightUnit)> {
        weight_with_unit(
            self.header.spec_weight_removed(),
            self.header.spec_weight_unit_is_pounds(),
            self.header.spec_weight_unit_is_catty(),
            self.weight,
        )
    }

    /// Get weight and unit from the packet (if present).
    pub fn weight(&self) -> (r: Option<(u16, WeightUnit)>)
        ensures
            r == self.spec_weight(),
    {
        if self.header.weight_removed() {
            return None;
        }
        let unit = unit_of(self.header.weight_unit_is_pounds(), self.header.weight_unit_is_catty());
        Some((self.weight, unit))
    }
}

/// Mi Scale packet, v1 or v2.
#[derive(Copy, Clone, Debug, PartialEq, Eq)]
pub enum MiScalePacket {
    /// A v1 packet.
    MiScaleV1(PacketV1),
    /// A v2 packet.
    MiScaleV2(PacketV2),
}

impl MiScalePacket {
    /// Body impedance in ohms (v2 only).
    pub open spec fn spec_impedance(self) -> Option<u16> {
        match self {
            MiScalePacket::MiScaleV1(_) => None,
            MiScalePacket::MiScaleV2(p) => Some(p.impedance),
        }
    }

    /// Weight and unit, when the packet carries a weight.
    pub open spec fn spec_weight(self) -> Option<(u16, WeightUnit)> {
        match self {
            MiScalePacket::MiScaleV1(p) => p.spec_weight(),
            MiScalePacket::MiScaleV2(p) => p.spec_weight(),
        }
    }

    /// Weight in kilograms, when the packet carries a weight.
    pub open spec fn spec_weight_kilograms(self) -> Option<Decimal> {
        match self.spec_weight() {
            Some((w, unit)) => Some(unit.spec_kilograms(w)),
            None => None,
        }
    }

    /// Get the body impedance (Ohm) from the packet (v2 only).
    pub fn impedance(&self) -> (r: Option<u16>)
        ensures
            r == self.spec_impedance(),
    {
        match self {
            MiScalePacket::MiScaleV1(_) => None,
            MiScalePacket::MiScaleV2(p) => Some(p.impedance),
        }
    }

    /// Get the weight and unit from the packet (may be omitted).
    pub fn weight(&self) -> (r: Option<(u16, WeightUnit)>)
        ensures
            r == self.spec_weight(),
    {
        match self {
            MiScalePacket::MiScaleV1(p) => p.weight(),
            MiScalePacket::MiScaleV2(p) => p.weight(),
        }
    }

    /// Get the weight normalized to kilograms (may be omitted).
    pub fn weight_kilograms(&self) -> (r: Option<Decimal>)
        ensures
            r == self.spec_weight_kilograms(),
    {
        match self.weight() {
            Some((w, unit)) => Some(unit.kilograms(w)),
            None => None,
        }
    }
}

/// Service advertisement of a Mi Scale: two reserved bytes, the device id, then the packet
/// whose layout the device id selects.
#[derive(Copy, Clone, Debug, PartialEq, Eq)]
pub struct MiScaleServiceAdvertisement {
    /// Reserved.
    pub reserved: u16,
    /// Device id.
    pub device_id: u16,
    /// Packet payload.
    pub payload: MiScalePacket,
}

/// The seven bytes at offset `i`.
pub open spec fn seven_bytes(s: Seq<u8>, i: int) -> [u8; 7] {
    [s[i], s[i + 1], s[i + 2], s[i + 3], s[i + 4], s[i + 5], s[i + 6]]
}

/// The decoding of a scale frame.
pub open spec fn spec_scale_decode(b: Seq<u8>) -> Result<MiScaleServiceAdvertisement, ParseError> {
    if b.len() < 4 {
        Err(ParseError::spec_unexpected_end())
    } else {
        let device_id = le_u16(b, 2);
        if device_id == SCALE_V1_DEVICE_ID {
            if b.len() < 14 {
                Err(ParseError::spec_unexpected_end())
            } else {
                Ok(
                    MiScaleServiceAdvertisement {
                        reserved: le_u16(b, 0),
                        device_id,
                        payload: MiScalePacket::MiScaleV1(
                            PacketV1 {
                                header: PacketHeaderV1 { bits: b[4] },
                                weight: le_u16(b, 5),
                                reserved: seven_bytes(b, 7),
                            },
                        ),
                    },
                )
            }
        } else if device_id == SCALE_V2_DEVICE_ID {
            if b.len() < 17 {
                Err(ParseError::spec_unexpected_end())
            } else {
                Ok(
                    MiScaleServiceAdvertisement {
                        reserved: le_u16(b, 0),
                        device_id,
                        payload: MiScalePacket::MiScaleV2(
                            PacketV2 {
                                header: PacketHeaderV2 { bits: le_u16(b, 4) },
                                reserved: seven_bytes(b, 6),
                                impedance: le_u16(b, 13),
                                weight: le_u16(b, 15),
                            },
                        ),
                    },
                )
            }
        } else {
            Err(ParseError { kind: ParseErrorKind::UnknownLayout { device_id } })
        }
    }
}

/// The seven bytes at offset `i`.
fn read_seven(b: &[u8], i: usize) -> (r: [u8; 7])
    requires
        i + 7 <= b@.len(),
    ensures
        r == seven_bytes(b@, i as int),
{
    [b[i], b[i + 1], b[i + 2], b[i + 3], b[i + 4], b[i + 5], b[i + 6]]
}

impl MiScaleServiceAdvertisement {
    /// The sensor events of the advertisement: the weight in kilograms when present, then the
    /// impedance in ohms for a v2 packet.
    pub open spec fn spec_sensor_events(self) -> Seq<SensorEvent> {
        let weight: Seq<SensorEvent> = match self.payload.spec_weight_kilograms() {
            Some(kg) => seq![
                SensorEvent::NumericMeasurement {
                    measurement_type: NumericMeasurementType::Weight,
                    value: kg,
                    unit: UnitOfMeasurement::Kilogram,
                },
            ],
            None => Seq::empty(),
        };
        let impedance: Seq<SensorEvent> = match self.payload.spec_impedance() {
            Some(ohm) => seq![
                numeric(NumericMeasurementType::Impedance, ohm as int, 0, UnitOfMeasurement::Ohm),
            ],
            None => Seq::empty(),
        };
        weight + impedance
    }

    /// Parses a [`MiScaleServiceAdvertisement`] from a byte slice.
    pub fn from_slice(slice: &[u8]) -> (r: Result<MiScaleServiceAdvertisement, ParseError>)
        ensures
            r == spec_scale_decode(slice@),
    {
        if slice.len() < 4 {
            return Err(ParseError::unexpected_end());
        }
        let reserved = read_u16_le(slice, 0);
        let device_id = read_u16_le(slice, 2);
        if device_id == SCALE_V1_DEVICE_ID {
            if slice.len() < 14 {
                return Err(ParseError::unexpected_end());
            }
            let packet = PacketV1 {
                header: PacketHeaderV1 { bits: slice[4] },
                weight: read_u16_le(slice, 5),
                reserved: read_seven(slice, 7),
            };
            Ok(
                MiScaleServiceAdvertisement {
                    reserved,
                    device_id,
                    payload: MiScalePacket::MiScaleV1(packet),
                },
            )
        } else if device_id == SCALE_V2_DEVICE_ID {
            if slice.len() < 17 {
                return Err(ParseError::unexpected_end());
            }
            let packet = PacketV2 {
                header: PacketHeaderV2 { bits: read_u16_le(slice, 4) },
                reserved: read_seven(slice, 6),
                impedance: read_u16_le(slice, 13),
                weight: read_u16_le(slice, 15),
            };
            Ok(
                MiScaleServiceAdvertisement {
                    reserved,
                    device_id,
                    payload: MiScalePacket::MiScaleV2(packet),
                },
            )
        } else {
            Err(ParseError { kind: ParseErrorKind::UnknownLayout { device_id } })
        }
    }

    /// Yields the sensor events of the advertisement.
    pub fn iter_sensor_events(&self) -> (r: Vec<SensorEvent>)
        ensures
            r@ == self.spec_sensor_events(),
    {
        let mut events: Vec<SensorEvent> = Vec::new();
        if let Some(weight) = self.payload.weight_kilograms() {
            events.push(
                SensorEvent::NumericMeasurement {
                    measurement_type: NumericMeasurementType::Weight,
                    value: weight,
                    unit: UnitOfMeasurement::Kilogram,
                },
            );
        }
        let ghost with_weight = events@;
        if let Some(impedance) = self.payload.impedance() {
            events.push(
                SensorEvent::NumericMeasurement {
                    measurement_type: NumericMeasurementType::Impedance,
                    value: Decimal { mantissa: impedance as i64, scale: 0 },
                    unit: UnitOfMeasurement::Ohm,
                },
            );
        }
        assert(events@ =~= self.spec_sensor_events());
        events
    }
}

} // verus!
