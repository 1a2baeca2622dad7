//! The MiBeacon frame format: a flag-gated header followed by a stream of
//! (id, length, payload) objects.
use vstd::prelude::*;

pub mod payload;

use crate::error::ParseError;
use crate::sensor::{
    numeric, BinaryMeasurementType, Decimal, NumericMeasurementType, SensorEvent,
    UnitOfMeasurement,
};
use crate::util::{bit_u16, bit_u8, le_i16, le_u16, le_u24, read_u16_le};
use payload::{is_known_id, length_accepted, payload_decodes};
pub use payload::{
    ArmingEventStatus,
    BindingState,
    ButtonEventType,
    DoorEvent,
    DoorSensorState,
    DoorState,
    DoorbellCameraEvent,
    FingerprintEventKeyId,
    FingerprintEventMatchingResult,
    FloodingAlarmEvent,
    FlowerAndGrassDetectorEvent,
    GasAlarmEvent,
    GasLeakageDetectionState,
    Gesture,
    LightIntensityState,
    LockEvent,
    LockEventOperation,
    LockState,
    MiBandSleepState,
    MiBeaconObjectPayload,
    MovementDetectionState,
    QuingpingPomodoroEvent,
    QuingpingSensorLocationEvent,
    RoidmiVacuumCleanerState,
    SleepState,
    SmartPillowState,
    SmokeAlarmEvent,
    SmokeDetectionState,
    SwitchState,
    ToothbrushEventType,
    WaterImmersionState,
    WeighingEventType,
};

verus! {

/// Frame control word: which optional header fields follow, and protocol metadata.
///
/// The two frame bytes form a little-endian word; bit 0 is the least significant bit of the
/// first byte. Bits 0 to 2 are reserved. The encryption flag is reported, but encrypted
/// objects are not decrypted: the object stream is split as it stands.
#[derive(Copy, Clone, Debug, PartialEq, Eq)]
pub struct FrameControl {
    /// The raw frame control word.
    pub bits: u16,
}

impl FrameControl {
    /// Whether the objects are encrypted (bit 3).
    pub open spec fn spec_is_encrypted(self) -> bool {
        bit_u16(self.bits, 3)
    }

    /// Whether the objects are encrypted (bit 3).
    pub fn is_encrypted(&self) -> (r: bool)
        ensures
            r == self.spec_is_encrypted(),
    {
        (self.bits >> 3u16) & 1u16 == 1u16
    }

    /// Whether the header carries the device's MAC address (bit 4).
    pub open spec fn spec_mac_included(self) -> bool {
        bit_u16(self.bits, 4)
    }

    /// Whether the header carries the device's MAC address (bit 4).
    pub fn mac_included(&self) -> (r: bool)
        ensures
            r == self.spec_mac_included(),
    {
        (self.bits >> 4u16) & 1u16 == 1u16
    }

    /// Whether the header carries the capabilities byte (bit 5).
    pub open spec fn spec_capabilities_included(self) -> bool {
        bit_u16(self.bits, 5)
    }

    /// Whether the header carries the capabilities byte (bit 5).
    pub fn capabilities_included(&self) -> (r: bool)
        ensures
            r == self.spec_capabilities_included(),
    {
        (self.bits >> 5u16) & 1u16 == 1u16
    }

    /// Whether objects follow the header (bit 6).
    pub open spec fn spec_objects_included(self) -> bool {
        bit_u16(self.bits, 6)
    }

    /// Whether objects follow the header (bit 6).
    pub fn objects_included(&self) -> (r: bool)
        ensures
            r == self.spec_objects_included(),
    {
        (self.bits >> 6u16) & 1u16 == 1u16
    }

    /// Whether the device is a mesh device (bit 7).
    pub open spec fn spec_mesh(self) -> bool {
        bit_u16(self.bits, 7)
    }

    /// Whether the device is a mesh device (bit 7).
    pub fn mesh(&self) -> (r: bool)
        ensures
            r == self.spec_mesh(),
    {
        (self.bits >> 7u16) & 1u16 == 1u16
    }

    /// Whether the device is registered and bound (bit 8).
    pub open spec fn spec_registered(self) -> bool {
        bit_u16(self.bits, 8)
    }

    /// Whether the device is registered and bound (bit 8).
    pub fn registered(&self) -> (r: bool)
        ensures
            r == self.spec_registered(),
    {
        (self.bits >> 8u16) & 1u16 == 1u16
    }

    /// Whether the device asks the app to register and bind it (bit 9).
    pub open spec fn spec_solicited(self) -> bool {
        bit_u16(self.bits, 9)
    }

    /// Whether the device asks the app to register and bind it (bit 9).
    pub fn solicited(&self) -> (r: bool)
        ensures
            r == self.spec_solicited(),
    {
        (self.bits >> 9u16) & 1u16 == 1u16
    }

    /// Authentication mode, 0 to 3 (bits 10 and 11): old, security, standard, reserved.
    pub open spec fn spec_auth_mode(self) -> u8 {
        ((self.bits >> 10u16) & 3u16) as u8
    }

    /// Authentication mode, 0 to 3 (bits 10 and 11): old, security, standard, reserved.
    pub fn auth_mode(&self) -> (r: u8)
        ensures
            r == self.spec_auth_mode(),
    {
        ((self.bits >> 10u16) & 3u16) as u8
    }

    /// Protocol version, 0 to 15 (bits 12 to 15).
    pub open spec fn spec_version(self) -> u8 {
        ((self.bits >> 12u16) & 15u16) as u8
    }

    /// Protocol version, 0 to 15 (bits 12 to 15).
    pub fn version(&self) -> (r: u8)
        ensures
            r == self.spec_version(),
    {
        ((self.bits >> 12u16) & 15u16) as u8
    }
}

/// Capabilities byte of the header. Bits 6 and 7 are reserved.
#[derive(Copy, Clone, Debug, PartialEq, Eq)]
pub struct MiBeaconCapabilities {
    /// The raw byte.
    pub bits: u8,
}

impl MiBeaconCapabilities {
    /// Connectable (bit 0).
    pub open spec fn spec_connectable(self) -> bool {
        bit_u8(self.bits, 0)
    }

    /// Connectable (bit 0).
    pub fn connectable(&self) -> (r: bool)
        ensures
            r == self.spec_connectable(),
    {
        (self.bits >> 0u8) & 1u8 == 1u8
    }

    /// Centralable (bit 1).
    pub open spec fn spec_centralable(self) -> bool {
        bit_u8(self.bits, 1)
    }

    /// Centralable (bit 1).
    pub fn centralable(&self) -> (r: bool)
        ensures
            r == self.spec_centralable(),
    {
        (self.bits >> 1u8) & 1u8 == 1u8
    }

    /// Encryptable (bit 2).
    pub open spec fn spec_encryptable(self) -> bool {
        bit_u8(self.bits, 2)
    }

    /// Encryptable (bit 2).
    pub fn encryptable(&self) -> (r: bool)
        ensures
            r == self.spec_encryptable(),
    {
        (self.bits >> 2u8) & 1u8 == 1u8
    }

    /// Bond ability (bits 3 and 4): 0 none, 1 pre-binding, 2 post-binding, 3 combo.
    pub open spec fn spec_bond_ability(self) -> u8 {
        ((self.bits >> 3u8) & 3u8) as u8
    }

    /// Bond ability (bits 3 and 4): 0 none, 1 pre-binding, 2 post-binding, 3 combo.
    pub fn bond_ability(&self) -> (r: u8)
        ensures
            r == self.spec_bond_ability(),
    {
        ((self.bits >> 3u8) & 3u8) as u8
    }

    /// Whether the header carries the I/O capabilities field (bit 5).
    pub open spec fn spec_io(self) -> bool {
        bit_u8(self.bits, 5)
    }

    /// Whether the header carries the I/O capabilities field (bit 5).
    pub fn io(&self) -> (r: bool)
        ensures
            r == self.spec_io(),
    {
        (self.bits >> 5u8) & 1u8 == 1u8
    }
}

/// Base I/O capabilities: four input and four output abilities.
#[derive(Copy, Clone, Debug, PartialEq, Eq)]
pub struct MiBeaconBaseIoCapabilities {
    /// The raw byte.
    pub bits: u8,
}

impl MiBeaconBaseIoCapabilities {
    /// Whether the device can input 6 digits (bit 0).
    pub open spec fn spec_can_input_6_digits(self) -> bool {
        bit_u8(self.bits, 0)
    }

    /// Whether the device can input 6 digits (bit 0).
    pub fn can_input_6_digits(&self) -> (r: bool)
        ensures
            r == self.spec_can_input_6_digits(),
    {
        (self.bits >> 0u8) & 1u8 == 1u8
    }

    /// Whether the device can input 6 characters (bit 1).
    pub open spec fn spec_can_input_6_characters(self) -> bool {
        bit_u8(self.bits, 1)
    }

    /// Whether the device can input 6 characters (bit 1).
    pub fn can_input_6_characters(&self) -> (r: bool)
        ensures
            r == self.spec_can_input_6_characters(),
    {
        (self.bits >> 1u8) & 1u8 == 1u8
    }

    /// Whether the device can read NFC tags (bit 2).
    pub open spec fn spec_can_read_nfc_tags(self) -> bool {
        bit_u8(self.bits, 2)
    }

    /// Whether the device can read NFC tags (bit 2).
    pub fn can_read_nfc_tags(&self) -> (r: bool)
        ensures
            r == self.spec_can_read_nfc_tags(),
    {
        (self.bits >> 2u8) & 1u8 == 1u8
    }

    /// Whether the device can recognize QR codes (bit 3).
    pub open spec fn spec_can_read_qr_codes(self) -> bool {
        bit_u8(self.bits, 3)
    }

    /// Whether the device can recognize QR codes (bit 3).
    pub fn can_read_qr_codes(&self) -> (r: bool)
        ensures
            r == self.spec_can_read_qr_codes(),
    {
        (self.bits >> 3u8) & 1u8 == 1u8
    }

    /// Whether the device can output 6 digits (bit 4).
    pub open spec fn spec_can_output_6_digits(self) -> bool {
        bit_u8(self.bits, 4)
    }

    /// Whether the device can output 6 digits (bit 4).
    pub fn can_output_6_digits(&self) -> (r: bool)
        ensures
            r == self.spec_can_output_6_digits(),
    {
        (self.bits >> 4u8) & 1u8 == 1u8
    }

    /// Whether the device can output 6 characters (bit 5).
    pub open spec fn spec_can_output_6_characters(self) -> bool {
        bit_u8(self.bits, 5)
    }

    /// Whether the device can output 6 characters (bit 5).
    pub fn can_output_6_characters(&self) -> (r: bool)
        ensures
            r == self.spec_can_output_6_characters(),
    {
        (self.bits >> 5u8) & 1u8 == 1u8
    }

    /// Whether the device can generate NFC tags (bit 6).
    pub open spec fn spec_can_generate_nfc_tags(self) -> bool {
        bit_u8(self.bits, 6)
    }

    /// Whether the device can generate NFC tags (bit 6).
    pub fn can_generate_nfc_tags(&self) -> (r: bool)
        ensures
            r == self.spec_can_generate_nfc_tags(),
    {
        (self.bits >> 6u8) & 1u8 == 1u8
    }

    /// Whether the device can generate QR codes (bit 7).
    pub open spec fn spec_can_generate_qr_code(self) -> bool {
        bit_u8(self.bits, 7)
    }

    /// Whether the device can generate QR codes (bit 7).
    pub fn can_generate_qr_code(&self) -> (r: bool)
        ensures
            r == self.spec_can_generate_qr_code(),
    {
        (self.bits >> 7u8) & 1u8 == 1u8
    }
}

/// I/O capabilities field of the header.
#[derive(Copy, Clone, Debug, PartialEq, Eq)]
pub struct MiBeaconIoCapabilities {
    /// Base I/O capabilities.
    pub base_io_capabilities: MiBeaconBaseIoCapabilities,
    /// Reserved byte.
    pub reserved: u8,
}

/// MAC address of a device, in the order of the frame's bytes.
#[derive(Copy, Clone, Debug, PartialEq, Eq)]
pub struct MacAddress([u8; 6]);

impl MacAddress {
    /// The six bytes.
    pub closed spec fn spec_bytes(self) -> Seq<u8> {
        self.0@
    }

    /// Get a reference to the underlying byte array.
    pub fn as_slice(&self) -> (r: &[u8; 6])
        ensures
            r@ == self.spec_bytes(),
    {
        &self.0
    }

    /// Get the underlying byte array.
    pub fn into_inner(self) -> (r: [u8; 6])
        ensures
            r@ == self.spec_bytes(),
    {
        self.0
    }
}

/// One object of the stream: a tag, a length and the value decoded according to both.
#[derive(Clone, Debug)]
pub struct MiBeaconObject {
    /// Object id.
    pub id: u16,
    /// Number of value bytes.
    pub length: u8,
    /// Decoded value.
    pub payload: MiBeaconObjectPayload,
}

/// Splits an object stream into its records: each is the id and the value bytes of one object.
///
/// Each record is a little-endian id, a length byte and that many value bytes; the stream ends
/// exactly at the end of the bytes. It fails at the first record that is cut short, or whose
/// recognized id does not allow its length.
pub open spec fn split_objects(b: Seq<u8>) -> Result<Seq<(u16, Seq<u8>)>, ParseError>
    decreases b.len(),
{
    if b.len() == 0 {
        Ok(Seq::empty())
    } else if b.len() < 3 {
        Err(ParseError::spec_unexpected_end())
    } else {
        let id = le_u16(b, 0);
        let len = b[2] as int;
        if b.len() < 3 + len {
            Err(ParseError::spec_unexpected_end())
        } else if !length_accepted(id, len) {
            Err(ParseError::spec_invalid_length(id, b[2]))
        } else {
            prepend_records(
                seq![(id, b.subrange(3, 3 + len))],
                split_objects(b.subrange(3 + len, b.len() as int)),
            )
        }
    }
}

/// `rest` with the records `first` in front of it, when `rest` is a success.
pub open spec fn prepend_records(
    first: Seq<(u16, Seq<u8>)>,
    rest: Result<Seq<(u16, Seq<u8>)>, ParseError>,
) -> Result<Seq<(u16, Seq<u8>)>, ParseError> {
    match rest {
        Ok(r) => Ok(first + r),
        Err(e) => Err(e),
    }
}

/// Whether the object is the decoding of the record.
pub open spec fn object_matches(o: MiBeaconObject, rec: (u16, Seq<u8>)) -> bool {
    &&& o.id == rec.0
    &&& o.length as int == rec.1.len()
    &&& payload_decodes(rec.0, rec.1, o.payload)
}

/// Whether the objects are the decodings of the records, in order.
pub open spec fn objects_match(objs: Seq<MiBeaconObject>, recs: Seq<(u16, Seq<u8>)>) -> bool {
    &&& objs.len() == recs.len()
    &&& forall|i: int| 0 <= i < objs.len() ==> #[trigger] object_matches(objs[i], recs[i])
}

/// Decodes an object stream: the bytes that follow the header.
pub fn decode_objects(b: &[u8]) -> (r: Result<Vec<MiBeaconObject>, ParseError>)
    ensures
        match split_objects(b@) {
            Ok(recs) => r matches Ok(objs) && objects_match(objs@, recs),
            Err(e) => r == Err::<Vec<MiBeaconObject>, ParseError>(e),
        },
{
    let mut objects: Vec<MiBeaconObject> = Vec::new();
    let mut pos: usize = 0;
    let ghost mut done: Seq<(u16, Seq<u8>)> = Seq::empty();
    proof {
        assert(b@.subrange(0, b@.len() as int) =~= b@);
        if let Ok(r) = split_objects(b@) {
            assert(done + r =~= r);
        }
    }
    while pos < b.len()
        invariant
            pos <= b@.len(),
            objects_match(objects@, done),
            split_objects(b@) == prepend_records(
                done,
                split_objects(b@.subrange(pos as int, b@.len() as int)),
            ),
        decreases b@.len() - pos,
    {
        let ghost rest = b@.subrange(pos as int, b@.len() as int);
        if b.len() - pos < 3 {
            return Err(ParseError::unexpected_end());
        }
        let id = read_u16_le(b, pos);
        let length = b[pos + 2];
        let len = length as usize;
        assert(rest[0] == b@[pos as int] && rest[1] == b@[pos + 1] && rest[2] == length);
        if b.len() - pos - 3 < len {
            return Err(ParseError::unexpected_end());
        }
        let data = &b[pos + 3..pos + 3 + len];
        let payload = match MiBeaconObjectPayload::decode(id, data) {
            Ok(p) => p,
            Err(e) => {
                return Err(e);
            },
        };
        proof {
            let rec = (id, data@);
            assert(rest.subrange(3, 3 + len) =~= data@);
            assert(rest.subrange(3 + len, rest.len() as int) =~= b@.subrange(
                pos + 3 + len,
                b@.len() as int,
            ));
            match split_objects(b@.subrange(pos + 3 + len, b@.len() as int)) {
                Ok(r) => {
                    assert(done + (seq![rec] + r) =~= done.push(rec) + r);
                },
                Err(_) => {},
            }
            done = done.push(rec);
        }
        objects.push(MiBeaconObject { id, length, payload });
        pos = pos + 3 + len;
    }
    assert(b@.subrange(pos as int, b@.len() as int) =~= Seq::<u8>::empty());
    assert(done + Seq::<(u16, Seq<u8>)>::empty() =~= done);
    Ok(objects)
}

/// The frame control word of a frame.
pub open spec fn frame_control_of(b: Seq<u8>) -> FrameControl {
    FrameControl { bits: le_u16(b, 0) }
}

/// Where the capabilities byte stands, when there is one: after the MAC address, if present.
pub open spec fn capabilities_offset(b: Seq<u8>) -> int {
    if frame_control_of(b).spec_mac_included() {
        11
    } else {
        5
    }
}

/// Where the I/O capabilities stand, when there are any: after the capabilities, if present.
pub open spec fn io_capabilities_offset(b: Seq<u8>) -> int {
    capabilities_offset(b) + if frame_control_of(b).spec_capabilities_included() {
        1int
    } else {
        0int
    }
}

/// The capabilities of a frame, present when its frame control says so.
pub open spec fn capabilities_of(b: Seq<u8>) -> Option<MiBeaconCapabilities> {
    if frame_control_of(b).spec_capabilities_included() {
        Some(MiBeaconCapabilities { bits: b[capabilities_offset(b)] })
    } else {
        None
    }
}

/// The I/O capabilities of a frame, present when its capabilities are and say so.
pub open spec fn io_capabilities_of(b: Seq<u8>) -> Option<MiBeaconIoCapabilities> {
    match capabilities_of(b) {
        Some(c) => if c.spec_io() {
            Some(
                MiBeaconIoCapabilities {
                    base_io_capabilities: MiBeaconBaseIoCapabilities {
                        bits: b[io_capabilities_offset(b)],
                    },
                    reserved: b[io_capabilities_offset(b) + 1],
                },
            )
        } else {
            None
        },
        None => None,
    }
}

/// The length of a frame's header: frame control, device id, packet id and the optional fields.
pub open spec fn header_len(b: Seq<u8>) -> int {
    io_capabilities_offset(b) + if io_capabilities_of(b) is Some {
        2int
    } else {
        0int
    }
}

/// Whether the frame holds every header field that it announces.
pub open spec fn header_fits(b: Seq<u8>) -> bool {
    &&& b.len() >= 5
    &&& b.len() >= io_capabilities_offset(b)
    &&& b.len() >= header_len(b)
}

/// The bytes after the header.
pub open spec fn object_bytes(b: Seq<u8>) -> Seq<u8> {
    b.subrange(header_len(b), b.len() as int)
}

/// The object records of a frame: none when its frame control announces none (whatever
/// follows the header), else the split of what follows the header.
pub open spec fn records_of(b: Seq<u8>) -> Result<Seq<(u16, Seq<u8>)>, ParseError> {
    if !header_fits(b) {
        Err(ParseError::spec_unexpected_end())
    } else if frame_control_of(b).spec_objects_included() {
        split_objects(object_bytes(b))
    } else {
        Ok(Seq::empty())
    }
}

/// Why a frame does not decode, or `None` when it does.
pub open spec fn decode_error(b: Seq<u8>) -> Option<ParseError> {
    match records_of(b) {
        Ok(_) => None,
        Err(e) => Some(e),
    }
}

/// Service advertisement in the MiBeacon format.
#[derive(Clone, Debug)]
pub struct MiBeaconServiceAdvertisement {
    /// Frame control header.
    pub frame_control: FrameControl,
    /// Xiaomi device id.
    pub device_id: u16,
    /// Packet id.
    pub packet_id: u8,
    /// MAC address, present when the frame control says so.
    pub mac_address: Option<MacAddress>,
    /// Capabilities, present when the frame control says so.
    pub capabilities: Option<MiBeaconCapabilities>,
    /// I/O capabilities, present when the capabilities say so.
    pub io_capabilities: Option<MiBeaconIoCapabilities>,
    /// Objects, in frame order; empty when the frame control announces none.
    pub objects: Vec<MiBeaconObject>,
}

impl MiBeaconServiceAdvertisement {
    /// Whether this advertisement is the decoding of the frame `b`.
    pub open spec fn decoded_from(self, b: Seq<u8>) -> bool {
        &&& records_of(b) is Ok
        &&& self.frame_control == frame_control_of(b)
        &&& self.device_id == le_u16(b, 2)
        &&& self.packet_id == b[4]
        &&& (self.mac_address is Some <==> frame_control_of(b).spec_mac_included())
        &&& (self.mac_address matches Some(m) ==> m.spec_bytes() == b.subrange(5, 11))
        &&& self.capabilities == capabilities_of(b)
        &&& self.io_capabilities == io_capabilities_of(b)
        &&& objects_match(self.objects@, records_of(b)->Ok_0)
    }

    /// Parses a [`MiBeaconServiceAdvertisement`] from a byte slice.
    pub fn from_slice(slice: &[u8]) -> (r: Result<MiBeaconServiceAdvertisement, ParseError>)
        ensures
            r is Ok <==> decode_error(slice@) is None,
            r matches Ok(adv) ==> adv.decoded_from(slice@),
            r matches Err(e) ==> decode_error(slice@) == Some(e),
    {
        let ghost b = slice@;
        if slice.len() < 5 {
            return Err(ParseError::unexpected_end());
        }
        let frame_control = FrameControl { bits: read_u16_le(slice, 0) };
        let device_id = read_u16_le(slice, 2);
        let packet_id = slice[4];
        let mut pos: usize = 5;
        let mac_address = if frame_control.mac_included() {
            if slice.len() < 11 {
                return Err(ParseError::unexpected_end());
            }
            let m = MacAddress([slice[5], slice[6], slice[7], slice[8], slice[9], slice[10]]);
            assert(m.0@ =~= b.subrange(5, 11));
            pos = 11;
            Some(m)
        } else {
            None
        };
        assert(pos == capabilities_offset(b));
        let capabilities = if frame_control.capabilities_included() {
            if slice.len() < pos + 1 {
                return Err(ParseError::unexpected_end());
            }
            let c = MiBeaconCapabilities { bits: slice[pos] };
            pos = pos + 1;
            Some(c)
        } else {
            None
        };
        assert(pos == io_capabilities_offset(b));
        if slice.len() < pos {
            return Err(ParseError::unexpected_end());
        }
        let io_included = match capabilities {
            Some(c) => c.io(),
            None => false,
        };
        let io_capabilities = if io_included {
            if slice.len() < pos + 2 {
                return Err(ParseError::unexpected_end());
            }
            let io = MiBeaconIoCapabilities {
                base_io_capabilities: MiBeaconBaseIoCapabilities { bits: slice[pos] },
                reserved: slice[pos + 1],
            };
            pos = pos + 2;
            Some(io)
        } else {
            None
        };
        assert(pos == header_len(b));
        let objects = if frame_control.objects_included() {
            match decode_objects(&slice[pos..slice.len()]) {
                Ok(objects) => objects,
                Err(e) => {
                    return Err(e);
                },
            }
        } else {
            Vec::new()
        };
        Ok(
            MiBeaconServiceAdvertisement {
                frame_control,
                device_id,
                packet_id,
                mac_address,
                capabilities,
                io_capabilities,
                objects,
            },
        )
    }
}

/// The sensor events that a payload maps to; empty for a payload without a mapping.
pub open spec fn payload_events(p: MiBeaconObjectPayload) -> Seq<SensorEvent> {
    match p {
        MiBeaconObjectPayload::Temperature(v) => seq![
            numeric(
                NumericMeasurementType::Temperature,
                v as int,
                1,
                UnitOfMeasurement::DegreesCelsius,
            ),
        ],
        MiBeaconObjectPayload::Humidity(v) => seq![
            numeric(NumericMeasurementType::Humidity, v as int, 1, UnitOfMeasurement::Percent),
        ],
        MiBeaconObjectPayload::Illuminance(v) => seq![
            numeric(
                NumericMeasurementType::Illuminance,
                v.value() as int,
                0,
                UnitOfMeasurement::Lux,
            ),
        ],
        MiBeaconObjectPayload::Moisture(v) => seq![
            numeric(NumericMeasurementType::Moisture, v as int, 0, UnitOfMeasurement::Percent),
        ],
        MiBeaconObjectPayload::Conductivity(v) => seq![
            numeric(
                NumericMeasurementType::Conductivity,
                v as int,
                0,
                UnitOfMeasurement::MicrosiemensPerCentimeter,
            ),
        ],
        MiBeaconObjectPayload::FormaldehydeConcentration(v) => seq![
            numeric(
                NumericMeasurementType::FormaldehydeConcentration,
                v as int,
                2,
                UnitOfMeasurement::MilligramPerCubicMeter,
            ),
        ],
        MiBeaconObjectPayload::FormaldehydeConcentrationNew(v) => seq![
            numeric(
                NumericMeasurementType::FormaldehydeConcentration,
                v as int,
                3,
                UnitOfMeasurement::MilligramPerCubicMeter,
            ),
        ],
        MiBeaconObjectPayload::BatteryPower(v) => seq![
            numeric(NumericMeasurementType::BatteryPower, v as int, 0, UnitOfMeasurement::Percent),
        ],
        MiBeaconObjectPayload::RemainingSupplies(v) => seq![
            numeric(
                NumericMeasurementType::RemainingSupplies,
                v as int,
                0,
                UnitOfMeasurement::Percent,
            ),
        ],
        MiBeaconObjectPayload::Weight(v) => seq![
            numeric(NumericMeasurementType::Weight, v as int, 3, UnitOfMeasurement::Kilogram),
        ],
        MiBeaconObjectPayload::PowerAndTemperature { power, temperature } => seq![
            SensorEvent::BinaryMeasurement {
                measurement_type: BinaryMeasurementType::Power,
                value: power != 0,
            },
            numeric(
                NumericMeasurementType::Temperature,
                temperature as int,
                0,
                UnitOfMeasurement::DegreesCelsius,
            ),
        ],
        _ => Seq::empty(),
    }
}

/// A vector holding one numeric event.
fn numeric_event(
    measurement_type: NumericMeasurementType,
    mantissa: i64,
    scale: u32,
    unit: UnitOfMeasurement,
) -> (r: Vec<SensorEvent>)
    ensures
        r@ == seq![numeric(measurement_type, mantissa as int, scale, unit)],
{
    let mut r = Vec::new();
    r.push(
        SensorEvent::NumericMeasurement {
            measurement_type,
            value: Decimal { mantissa, scale },
            unit,
        },
    );
    r
}

impl MiBeaconObjectPayload {
    /// Maps this payload to its sensor events: none, one, or several.
    pub fn to_sensor_events(&self) -> (r: Vec<SensorEvent>)
        ensures
            r@ == payload_events(*self),
    {
        match self {
            MiBeaconObjectPayload::Temperature(v) => numeric_event(
                NumericMeasurementType::Temperature,
                *v as i64,
                1,
                UnitOfMeasurement::DegreesCelsius,
            ),
            MiBeaconObjectPayload::Humidity(v) => numeric_event(
                NumericMeasurementType::Humidity,
                *v as i64,
                1,
                UnitOfMeasurement::Percent,
            ),
            MiBeaconObjectPayload::Illuminance(v) => numeric_event(
                NumericMeasurementType::Illuminance,
                v.as_u32() as i64,
                0,
                UnitOfMeasurement::Lux,
            ),
            MiBeaconObjectPayload::Moisture(v) => numeric_event(
                NumericMeasurementType::Moisture,
                *v as i64,
                0,
                UnitOfMeasurement::Percent,
            ),
            MiBeaconObjectPayload::Conductivity(v) => numeric_event(
                NumericMeasurementType::Conductivity,
                *v as i64,
                0,
                UnitOfMeasurement::MicrosiemensPerCentimeter,
            ),
            MiBeaconObjectPayload::FormaldehydeConcentration(v) => numeric_event(
                NumericMeasurementType::FormaldehydeConcentration,
                *v as i64,
                2,
                UnitOfMeasurement::MilligramPerCubicMeter,
            ),
            MiBeaconObjectPayload::FormaldehydeConcentrationNew(v) => numeric_event(
                NumericMeasurementType::FormaldehydeConcentration,
                *v as i64,
                3,
                UnitOfMeasurement::MilligramPerCubicMeter,
            ),
            MiBeaconObjectPayload::BatteryPower(v) => numeric_event(
                NumericMeasurementType::BatteryPower,
                *v as i64,
                0,
                UnitOfMeasurement::Percent,
            ),
            MiBeaconObjectPayload::RemainingSupplies(v) => numeric_event(
                NumericMeasurementType::RemainingSupplies,
                *v as i64,
                0,
                UnitOfMeasurement::Percent,
            ),
            MiBeaconObjectPayload::Weight(v) => numeric_event(
                NumericMeasurementType::Weight,
                *v as i64,
                3,
                UnitOfMeasurement::Kilogram,
            ),
            MiBeaconObjectPayload::PowerAndTemperature { power, temperature } => {
                let mut r = Vec::new();
                r.push(
                    SensorEvent::BinaryMeasurement {
                        measurement_type: BinaryMeasurementType::Power,
                        value: *power != 0,
                    },
                );
                r.push(
                    SensorEvent::NumericMeasurement {
                        measurement_type: NumericMeasurementType::Temperature,
                        value: Decimal { mantissa: *temperature as i64, scale: 0 },
                        unit: UnitOfMeasurement::DegreesCelsius,
                    },
                );
                r
            },
            _ => Vec::new(),
        }
    }
}

/// The sensor events of a sequence of objects: those of each object's payload, in order.
pub open spec fn objects_events(objs: Seq<MiBeaconObject>) -> Seq<SensorEvent>
    decreases objs.len(),
{
    if objs.len() == 0 {
        Seq::empty()
    } else {
        objects_events(objs.drop_last()) + payload_events(objs.last().payload)
    }
}

impl MiBeaconServiceAdvertisement {
    /// The sensor events of the advertisement's objects, in object order.
    pub fn iter_sensor_events(&self) -> (r: Vec<SensorEvent>)
        ensures
            r@ == objects_events(self.objects@),
    {
        let mut r: Vec<SensorEvent> = Vec::new();
        let mut i: usize = 0;
        while i < self.objects.len()
            invariant
                i <= self.objects@.len(),
                r@ == objects_events(self.objects@.take(i as int)),
            decreases self.objects@.len() - i,
        {
            let mut events = self.objects[i].payload.to_sensor_events();
            assert(self.objects@.take(i + 1).drop_last() =~= self.objects@.take(i as int));
            r.append(&mut events);
            i = i + 1;
        }
        assert(self.objects@.take(i as int) =~= self.objects@);
        r
    }
}

/// The readings carried by an object, read straight from its id and value bytes: the unit and
/// scaling that each object layout documents.
pub open spec fn documented_events(id: u16, data: Seq<u8>) -> Seq<SensorEvent> {
    if id == 0x1004 && data.len() == 2 {
        seq![
            numeric(
                NumericMeasurementType::Temperature,
                le_i16(data, 0) as int,
                1,
                UnitOfMeasurement::DegreesCelsius,
            ),
        ]
    } else if id == 0x1005 && data.len() == 2 {
        seq![
            SensorEvent::BinaryMeasurement {
                measurement_type: BinaryMeasurementType::Power,
                value: data[0] != 0,
            },
            numeric(
                NumericMeasurementType::Temperature,
                data[1] as int,
                0,
                UnitOfMeasurement::DegreesCelsius,
            ),
        ]
    } else if id == 0x1006 && data.len() == 2 {
        seq![
            numeric(
                NumericMeasurementType::Humidity,
                le_u16(data, 0) as int,
                1,
                UnitOfMeasurement::Percent,
            ),
        ]
    } else if id == 0x1007 && data.len() == 3 {
        seq![
            numeric(
                NumericMeasurementType::Illuminance,
                le_u24(data, 0) as int,
                0,
                UnitOfMeasurement::Lux,
            ),
        ]
    } else if id == 0x1008 && data.len() == 1 {
        seq![
            numeric(
                NumericMeasurementType::Moisture,
                data[0] as int,
                0,
                UnitOfMeasurement::Percent,
            ),
        ]
    } else if id == 0x1009 && data.len() == 2 {
        seq![
            numeric(
                NumericMeasurementType::Conductivity,
                le_u16(data, 0) as int,
                0,
                UnitOfMeasurement::MicrosiemensPerCentimeter,
            ),
        ]
    } else if id == 0x100A && data.len() == 1 {
        seq![
            numeric(
                NumericMeasurementType::BatteryPower,
                data[0] as int,
                0,
                UnitOfMeasurement::Percent,
            ),
        ]
    } else if id == 0x1010 && data.len() == 2 {
        seq![
            numeric(
                NumericMeasurementType::FormaldehydeConcentration,
                le_u16(data, 0) as int,
                2,
                UnitOfMeasurement::MilligramPerCubicMeter,
            ),
        ]
    } else if id == 0x1013 && data.len() == 1 {
        seq![
            numeric(
                NumericMeasurementType::RemainingSupplies,
                data[0] as int,
                0,
                UnitOfMeasurement::Percent,
            ),
        ]
    } else if id == 0x101A && data.len() == 2 {
        seq![
            numeric(
                NumericMeasurementType::Weight,
                le_u16(data, 0) as int,
                3,
                UnitOfMeasurement::Kilogram,
            ),
        ]
    } else if id == 0x101C && data.len() == 2 {
        seq![
            numeric(
                NumericMeasurementType::FormaldehydeConcentration,
                le_u16(data, 0) as int,
                3,
                UnitOfMeasurement::MilligramPerCubicMeter,
            ),
        ]
    } else {
        Seq::empty()
    }
}

/// Decoding an object and then normalizing its payload gives exactly the unit and scaling
/// documented for its id and length (for instance raw temperature 236 gives 23.6 °C), and
/// nothing for an object without a mapping.
pub proof fn lemma_decode_then_normalize(id: u16, data: Seq<u8>, p: MiBeaconObjectPayload)
    requires
        payload_decodes(id, data, p),
    ensures
        payload_events(p) == documented_events(id, data),
{
    if id == 0x1007 && data.len() == 3 {
        let v = crate::util::u24_at(data, 0);
        assert(v.0@[0] == data[0] && v.0@[1] == data[1] && v.0@[2] == data[2]);
    }
}

/// A record stream that decodes is a prefix that does not change how the rest decodes.
pub proof fn lemma_split_objects_append(front: Seq<u8>, back: Seq<u8>)
    requires
        split_objects(front) is Ok,
    ensures
        split_objects(front + back) == prepend_records(
            split_objects(front)->Ok_0,
            split_objects(back),
        ),
    decreases front.len(),
{
    let whole = front + back;
    if front.len() == 0 {
        assert(whole =~= back);
        if let Ok(r) = split_objects(back) {
            assert(Seq::<(u16, Seq<u8>)>::empty() + r =~= r);
        }
    } else {
        let len = front[2] as int;
        let tail = front.subrange(3 + len, front.len() as int);
        assert(whole[0] == front[0] && whole[1] == front[1] && whole[2] == front[2]);
        assert(whole.subrange(3, 3 + len) =~= front.subrange(3, 3 + len));
        assert(whole.subrange(3 + len, whole.len() as int) =~= tail + back);
        lemma_split_objects_append(tail, back);
        let first = seq![(le_u16(front, 0), front.subrange(3, 3 + len))];
        if let Ok(r) = split_objects(back) {
            assert(first + (split_objects(tail)->Ok_0 + r) =~= (first + split_objects(tail)->Ok_0)
                + r);
        }
    }
}

/// An object whose declared length runs past the end of the stream fails the decoding, with
/// an unexpected end, whatever objects came before it: nothing is read past the end and
/// nothing is padded.
pub proof fn lemma_truncated_object_fails(front: Seq<u8>, back: Seq<u8>)
    requires
        split_objects(front) is Ok,
        back.len() >= 3,
        back.len() < 3 + back[2],
    ensures
        split_objects(front + back) == Err::<Seq<(u16, Seq<u8>)>, ParseError>(
            ParseError::spec_unexpected_end(),
        ),
{
    lemma_split_objects_append(front, back);
}

/// A frame whose object stream holds an object that declares more bytes than are left fails
/// to decode, with an unexpected end.
pub proof fn lemma_truncated_frame_fails(b: Seq<u8>, front: Seq<u8>, back: Seq<u8>)
    requires
        header_fits(b),
        frame_control_of(b).spec_objects_included(),
        object_bytes(b) == front + back,
        split_objects(front) is Ok,
        back.len() >= 3,
        back.len() < 3 + back[2],
    ensures
        decode_error(b) == Some(ParseError::spec_unexpected_end()),
{
    lemma_truncated_object_fails(front, back);
}

/// An object whose id is not recognized decodes whatever its length, and its payload maps to
/// no sensor event.
pub proof fn lemma_unknown_id_yields_no_events(id: u16, data: Seq<u8>)
    requires
        !is_known_id(id),
    ensures
        length_accepted(id, data.len() as int),
        forall|p: MiBeaconObjectPayload| #[trigger]
            payload_decodes(id, data, p) ==> payload_events(p) == Seq::<SensorEvent>::empty(),
{
}

/// The two formaldehyde layouts scale the same raw value differently (hundredths against
/// thousandths of a mg/m³), so a non-zero raw value gives two different concentrations.
pub proof fn lemma_formaldehyde_scales_differ(
    data: Seq<u8>,
    coarse: MiBeaconObjectPayload,
    fine: MiBeaconObjectPayload,
)
    requires
        data.len() == 2,
        le_u16(data, 0) != 0,
        payload_decodes(0x1010, data, coarse),
        payload_decodes(0x101C, data, fine),
    ensures
        payload_events(coarse).len() == 1,
        payload_events(fine).len() == 1,
        payload_events(coarse)[0] matches SensorEvent::NumericMeasurement {
            measurement_type: NumericMeasurementType::FormaldehydeConcentration,
            unit: UnitOfMeasurement::MilligramPerCubicMeter,
            ..
        },
        payload_events(fine)[0] matches SensorEvent::NumericMeasurement {
            measurement_type: NumericMeasurementType::FormaldehydeConcentration,
            unit: UnitOfMeasurement::MilligramPerCubicMeter,
            ..
        },
        !payload_events(coarse)[0]->NumericMeasurement_value.same_value(
            payload_events(fine)[0]->NumericMeasurement_value,
        ),
{
    let v = le_u16(data, 0) as int;
    assert(crate::sensor::pow10(0) == 1);
    assert(crate::sensor::pow10(1) == 10);
    assert(crate::sensor::pow10(2) == 100);
    assert(crate::sensor::pow10(3) == 1000);
    assert(v * 1000 != v * 100);
}

/// The sensor events of an advertisement are a function of the advertisement alone: any two
/// results of [`MiBeaconServiceAdvertisement::iter_sensor_events`] on it are equal.
pub proof fn lemma_sensor_events_repeatable(
    adv: MiBeaconServiceAdvertisement,
    first: Seq<SensorEvent>,
    second: Seq<SensorEvent>,
)
    requires
        first == objects_events(adv.objects@),
        second == objects_events(adv.objects@),
    ensures
        first == second,
{
}

} // verus!
