//! Dispatch of a service advertisement to its frame format, by the service UUID.
use vstd::prelude::*;

use crate::error::ParseError;
use crate::mibeacon::{decode_error, objects_events, MiBeaconServiceAdvertisement};
use crate::sensor::SensorEvent;

verus! {

/// Service UUID of MiBeacon advertisements (`0000fe95-0000-1000-8000-00805f9b34fb`).
pub const MIBEACON_UUID: u128 = 0x0000fe95_0000_1000_8000_00805f9b34fb;

/// Service UUID of the HHCCJCY10 plant sensor (`0000fd50-0000-1000-8000-00805f9b34fb`).
pub const HHCCJCY10_UUID: u128 = 0x0000fd50_0000_1000_8000_00805f9b34fb;

/// Service UUID of the Mi Smart Scale (`0000181d-0000-1000-8000-00805f9b34fb`).
pub const SCALE1_UUID: u128 = 0x0000181d_0000_1000_8000_00805f9b34fb;

/// Service UUID of the Mi Body Composition Scale (`0000181b-0000-1000-8000-00805f9b34fb`).
pub const SCALE2_UUID: u128 = 0x0000181b_0000_1000_8000_00805f9b34fb;

/// An error that may occur while processing a service advertisement.
#[derive(Clone, Debug, PartialEq, Eq, Structural)]
pub enum ServiceAdvertisementError {
    /// The service advertisement payload failed to parse.
    ParsingFailed(ParseError),
    /// The UUID of the service advertisement is unknown/unhandled.
    UnhandledService,
}

/// The BLE service advertisement type.
#[derive(Copy, Clone, Debug, PartialEq, Eq, Structural)]
pub enum ServiceType {
    /// MiBeacon.
    MiBeacon,
    /// HHCCJCY10 plant sensor (pink version).
    HHCCJCY10,
    /// Mi Smart Scale.
    Scale1,
    /// Mi Body Composition Scale.
    Scale2,
}

/// The service type that a UUID (as a big-endian 128-bit number) stands for.
pub open spec fn spec_service_type(uuid: u128) -> Option<ServiceType> {
    if uuid == MIBEACON_UUID {
        Some(ServiceType::MiBeacon)
    } else if uuid == HHCCJCY10_UUID {
        Some(ServiceType::HHCCJCY10)
    } else if uuid == SCALE1_UUID {
        Some(ServiceType::Scale1)
    } else if uuid == SCALE2_UUID {
        Some(ServiceType::Scale2)
    } else {
        None
    }
}

/// Maps a BLE service advertisement UUID (as a big-endian 128-bit number) to a [`ServiceType`].
pub fn service_uuid_to_type(uuid: u128) -> (r: Option<ServiceType>)
    ensures
        r == spec_service_type(uuid),
{
    if uuid == MIBEACON_UUID {
        Some(ServiceType::MiBeacon)
    } else if uuid == HHCCJCY10_UUID {
        Some(ServiceType::HHCCJCY10)
    } else if uuid == SCALE1_UUID {
        Some(ServiceType::Scale1)
    } else if uuid == SCALE2_UUID {
        Some(ServiceType::Scale2)
    } else {
        None
    }
}

/// A parsed BLE service advertisement.
#[derive(Clone, Debug)]
pub enum ServiceAdvertisement {
    /// A parsed MiBeacon service advertisement.
    MiBeacon(MiBeaconServiceAdvertisement),
}

impl ServiceAdvertisement {
    /// The sensor events of the advertisement.
    pub open spec fn spec_sensor_events(self) -> Seq<SensorEvent> {
        match self {
            ServiceAdvertisement::MiBeacon(a) => objects_events(a.objects@),
        }
    }

    /// Yields a list of sensor values parsed from the objects contained in the service
    /// advertisement.
    pub fn iter_sensor_events(&self) -> (r: Vec<SensorEvent>)
        ensures
            r@ == self.spec_sensor_events(),
    {
        match self {
            ServiceAdvertisement::MiBeacon(a) => a.iter_sensor_events(),
        }
    }
}

/// Parses a service advertisement payload corresponding to the given UUID (as a big-endian
/// 128-bit number). Only MiBeacon advertisements are handled; any other UUID is refused.
pub fn parse_service_advertisement(uuid: u128, payload: &[u8]) -> (r: Result<
    ServiceAdvertisement,
    ServiceAdvertisementError,
>)
    ensures
        spec_service_type(uuid) != Some(ServiceType::MiBeacon) ==> r matches Err(
            ServiceAdvertisementError::UnhandledService,
        ),
        spec_service_type(uuid) == Some(ServiceType::MiBeacon) ==> {
            &&& (r is Ok <==> decode_error(payload@) is None)
            &&& (r matches Ok(ServiceAdvertisement::MiBeacon(a)) ==> a.decoded_from(payload@))
            &&& (r matches Err(e) ==> decode_error(payload@) matches Some(pe) && e
                == ServiceAdvertisementError::ParsingFailed(pe))
        },
{
    match service_uuid_to_type(uuid) {
        Some(ServiceType::MiBeacon) => match MiBeaconServiceAdvertisement::from_slice(payload) {
            Ok(a) => Ok(ServiceAdvertisement::MiBeacon(a)),
            Err(e) => Err(ServiceAdvertisementError::ParsingFailed(e)),
        },
        _ => Err(ServiceAdvertisementError::UnhandledService),
    }
}

} // verus!
