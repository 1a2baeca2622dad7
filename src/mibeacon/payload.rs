//! Object payloads of the MiBeacon format: the layout of each known object id.
use vstd::prelude::*;
use crate::error::ParseError;
use crate::util::{
    bit_u8, le_i16, le_u16, le_u32, read_i16_le, read_u16_le, read_u32_le, u24_at, U24,
};

verus! {

/// Matching result of a fingerprint event.
#[derive(Copy, Clone, Debug, PartialEq, Eq, Structural)]
pub enum FingerprintEventMatchingResult {
    /// Matching successful (`0x00`).
    MatchingSuccessful,
    /// Matching failed (`0x01`).
    MatchingFailed,
    /// Timeout and no entry (`0x02`).
    Timeout,
    /// Low quality (too light, blurry) (`0x03`).
    LowQuality,
    /// Insufficient area (`0x04`).
    InsufficientArea,
    /// Skin is too dry (`0x05`).
    SkinTooDry,
    /// Skin is too wet (`0x06`).
    SkinTooWet,
}

impl FingerprintEventMatchingResult {
    /// The value that a wire code stands for, if any.
    pub open spec fn spec_from_code(code: u8) -> Option<FingerprintEventMatchingResult> {
        match code {
            0u8 => Some(FingerprintEventMatchingResult::MatchingSuccessful),
            1u8 => Some(FingerprintEventMatchingResult::MatchingFailed),
            2u8 => Some(FingerprintEventMatchingResult::Timeout),
            3u8 => Some(FingerprintEventMatchingResult::LowQuality),
            4u8 => Some(FingerprintEventMatchingResult::InsufficientArea),
            5u8 => Some(FingerprintEventMatchingResult::SkinTooDry),
            6u8 => Some(FingerprintEventMatchingResult::SkinTooWet),
            _ => None,
        }
    }

    /// The value that a wire code stands for, if any.
    pub fn from_code(code: u8) -> (r: Option<FingerprintEventMatchingResult>)
        ensures
            r == FingerprintEventMatchingResult::spec_from_code(code),
    {
        match code {
            0u8 => Some(FingerprintEventMatchingResult::MatchingSuccessful),
            1u8 => Some(FingerprintEventMatchingResult::MatchingFailed),
            2u8 => Some(FingerprintEventMatchingResult::Timeout),
            3u8 => Some(FingerprintEventMatchingResult::LowQuality),
            4u8 => Some(FingerprintEventMatchingResult::InsufficientArea),
            5u8 => Some(FingerprintEventMatchingResult::SkinTooDry),
            6u8 => Some(FingerprintEventMatchingResult::SkinTooWet),
            _ => None,
        }
    }
}

/// Door event status.
#[derive(Copy, Clone, Debug, PartialEq, Eq, Structural)]
pub enum DoorEvent {
    /// The door was opened (`0x00`).
    DoorOpened,
    /// The door was closed (`0x01`).
    DoorClosed,
    /// The door was not closed in time (`0x02`).
    DoorCloseTimeout,
    /// Knocking on the door (`0x03`).
    KnockingOnTheDoor,
    /// Prying the door open (`0x04`).
    PryingTheDoorOpen,
    /// The door is stuck (`0x05`).
    DoorStuck,
}

impl DoorEvent {
    /// The value that a wire code stands for, if any.
    pub open spec fn spec_from_code(code: u8) -> Option<DoorEvent> {
        match code {
            0u8 => Some(DoorEvent::DoorOpened),
            1u8 => Some(DoorEvent::DoorClosed),
            2u8 => Some(DoorEvent::DoorCloseTimeout),
            3u8 => Some(DoorEvent::KnockingOnTheDoor),
            4u8 => Some(DoorEvent::PryingTheDoorOpen),
            5u8 => Some(DoorEvent::DoorStuck),
            _ => None,
        }
    }

    /// The value that a wire code stands for, if any.
    pub fn from_code(code: u8) -> (r: Option<DoorEvent>)
        ensures
            r == DoorEvent::spec_from_code(code),
    {
        match code {
            0u8 => Some(DoorEvent::DoorOpened),
            1u8 => Some(DoorEvent::DoorClosed),
            2u8 => Some(DoorEvent::DoorCloseTimeout),
            3u8 => Some(DoorEvent::KnockingOnTheDoor),
            4u8 => Some(DoorEvent::PryingTheDoorOpen),
            5u8 => Some(DoorEvent::DoorStuck),
            _ => None,
        }
    }
}

/// Status field of an arming event.
#[derive(Copy, Clone, Debug, PartialEq, Eq, Structural)]
pub enum ArmingEventStatus {
    /// Armed (`0x00`).
    Armed,
    /// Disarmed (`0x01`).
    Disarmed,
}

impl ArmingEventStatus {
    /// The value that a wire code stands for, if any.
    pub open spec fn spec_from_code(code: u8) -> Option<ArmingEventStatus> {
        match code {
            0u8 => Some(ArmingEventStatus::Armed),
            1u8 => Some(ArmingEventStatus::Disarmed),
            _ => None,
        }
    }

    /// The value that a wire code stands for, if any.
    pub fn from_code(code: u8) -> (r: Option<ArmingEventStatus>)
        ensures
            r == ArmingEventStatus::spec_from_code(code),
    {
        match code {
            0u8 => Some(ArmingEventStatus::Armed),
            1u8 => Some(ArmingEventStatus::Disarmed),
            _ => None,
        }
    }
}

/// Flooding alarm event.
#[derive(Copy, Clone, Debug, PartialEq, Eq, Structural)]
pub enum FloodingAlarmEvent {
    /// Alarm cleared (`0x00`).
    AlarmCleared,
    /// Alarm (`0x01`).
    Alarm,
}

impl FloodingAlarmEvent {
    /// The value that a wire code stands for, if any.
    pub open spec fn spec_from_code(code: u8) -> Option<FloodingAlarmEvent> {
        match code {
            0u8 => Some(FloodingAlarmEvent::AlarmCleared),
            1u8 => Some(FloodingAlarmEvent::Alarm),
            _ => None,
        }
    }

    /// The value that a wire code stands for, if any.
    pub fn from_code(code: u8) -> (r: Option<FloodingAlarmEvent>)
        ensures
            r == FloodingAlarmEvent::spec_from_code(code),
    {
        match code {
            0u8 => Some(FloodingAlarmEvent::AlarmCleared),
            1u8 => Some(FloodingAlarmEvent::Alarm),
            _ => None,
        }
    }
}

/// Smoke alarm event.
#[derive(Copy, Clone, Debug, PartialEq, Eq, Structural)]
pub enum SmokeAlarmEvent {
    /// Normal monitoring (`0x00`).
    Normal,
    /// Fire alarm (`0x01`).
    FireAlarm,
    /// Equipment failure (`0x02`).
    EquipmentFailure,
    /// Equipment self-test (`0x03`).
    EquipmentSelfTest,
    /// Analog alarm (`0x04`).
    AnalogAlarm,
}

impl SmokeAlarmEvent {
    /// The value that a wire code stands for, if any.
    pub open spec fn spec_from_code(code: u8) -> Option<SmokeAlarmEvent> {
        match code {
            0u8 => Some(SmokeAlarmEvent::Normal),
            1u8 => Some(SmokeAlarmEvent::FireAlarm),
            2u8 => Some(SmokeAlarmEvent::EquipmentFailure),
            3u8 => Some(SmokeAlarmEvent::EquipmentSelfTest),
            4u8 => Some(SmokeAlarmEvent::AnalogAlarm),
            _ => None,
        }
    }

    /// The value that a wire code stands for, if any.
    pub fn from_code(code: u8) -> (r: Option<SmokeAlarmEvent>)
        ensures
            r == SmokeAlarmEvent::spec_from_code(code),
    {
        match code {
            0u8 => Some(SmokeAlarmEvent::Normal),
            1u8 => Some(SmokeAlarmEvent::FireAlarm),
            2u8 => Some(SmokeAlarmEvent::EquipmentFailure),
            3u8 => Some(SmokeAlarmEvent::EquipmentSelfTest),
            4u8 => Some(SmokeAlarmEvent::AnalogAlarm),
            _ => None,
        }
    }
}

/// Gas alarm event.
#[derive(Copy, Clone, Debug, PartialEq, Eq, Structural)]
pub enum GasAlarmEvent {
    /// Normal monitoring (`0x00`).
    Normal,
    /// Gas leak alarm (`0x01`).
    GasLeakAlarm,
    /// Equipment failure (`0x02`).
    EquipmentFailure,
    /// Sensor life expired (`0x03`).
    SensorLifeExpiration,
    /// Sensor preheating (`0x04`).
    SensorPreheating,
    /// Equipment self-test (`0x05`).
    EquipmentSelfTest,
    /// Analog alarm (`0x06`).
    AnalogAlarm,
}

impl GasAlarmEvent {
    /// The value that a wire code stands for, if any.
    pub open spec fn spec_from_code(code: u8) -> Option<GasAlarmEvent> {
        match code {
            0u8 => Some(GasAlarmEvent::Normal),
            1u8 => Some(GasAlarmEvent::GasLeakAlarm),
            2u8 => Some(GasAlarmEvent::EquipmentFailure),
            3u8 => Some(GasAlarmEvent::SensorLifeExpiration),
            4u8 => Some(GasAlarmEvent::SensorPreheating),
            5u8 => Some(GasAlarmEvent::EquipmentSelfTest),
            6u8 => Some(GasAlarmEvent::AnalogAlarm),
            _ => None,
        }
    }

    /// The value that a wire code stands for, if any.
    pub fn from_code(code: u8) -> (r: Option<GasAlarmEvent>)
        ensures
            r == GasAlarmEvent::spec_from_code(code),
    {
        match code {
            0u8 => Some(GasAlarmEvent::Normal),
            1u8 => Some(GasAlarmEvent::GasLeakAlarm),
            2u8 => Some(GasAlarmEvent::EquipmentFailure),
            3u8 => Some(GasAlarmEvent::SensorLifeExpiration),
            4u8 => Some(GasAlarmEvent::SensorPreheating),
            5u8 => Some(GasAlarmEvent::EquipmentSelfTest),
            6u8 => Some(GasAlarmEvent::AnalogAlarm),
            _ => None,
        }
    }
}

/// Toothbrush event type.
#[derive(Copy, Clone, Debug, PartialEq, Eq, Structural)]
pub enum ToothbrushEventType {
    /// Brushing started (`0x00`).
    BrushingStarted,
    /// Brushing ended (`0x01`).
    BrushingEnded,
}

impl ToothbrushEventType {
    /// The value that a wire code stands for, if any.
    pub open spec fn spec_from_code(code: u8) -> Option<ToothbrushEventType> {
        match code {
            0u8 => Some(ToothbrushEventType::BrushingStarted),
            1u8 => Some(ToothbrushEventType::BrushingEnded),
            _ => None,
        }
    }

    /// The value that a wire code stands for, if any.
    pub fn from_code(code: u8) -> (r: Option<ToothbrushEventType>)
        ensures
            r == ToothbrushEventType::spec_from_code(code),
    {
        match code {
            0u8 => Some(ToothbrushEventType::BrushingStarted),
            1u8 => Some(ToothbrushEventType::BrushingEnded),
            _ => None,
        }
    }
}

/// Doorbell camera event.
#[derive(Copy, Clone, Debug, PartialEq, Eq, Structural)]
pub enum DoorbellCameraEvent {
    /// Someone is staying (`0x00`).
    SomeoneIsStaying,
    /// Someone is passing by (`0x01`).
    SomeoneIsPassingBy,
    /// Someone is ringing the bell (`0x02`).
    SomeoneIsRingingTheBell,
    /// Someone is leaving a message (`0x03`).
    SomeoneIsLeavingAMessage,
    /// Equipment damage (`0x04`).
    EquipmentDamage,
    /// Duress alarm (`0x05`).
    DuressAlarm,
    /// Abnormal unlocking (`0x06`).
    AbnormalUnlocking,
}

impl DoorbellCameraEvent {
    /// The value that a wire code stands for, if any.
    pub open spec fn spec_from_code(code: u8) -> Option<DoorbellCameraEvent> {
        match code {
            0u8 => Some(DoorbellCameraEvent::SomeoneIsStaying),
            1u8 => Some(DoorbellCameraEvent::SomeoneIsPassingBy),
            2u8 => Some(DoorbellCameraEvent::SomeoneIsRingingTheBell),
            3u8 => Some(DoorbellCameraEvent::SomeoneIsLeavingAMessage),
            4u8 => Some(DoorbellCameraEvent::EquipmentDamage),
            5u8 => Some(DoorbellCameraEvent::DuressAlarm),
            6u8 => Some(DoorbellCameraEvent::AbnormalUnlocking),
            _ => None,
        }
    }

    /// The value that a wire code stands for, if any.
    pub fn from_code(code: u8) -> (r: Option<DoorbellCameraEvent>)
        ensures
            r == DoorbellCameraEvent::spec_from_code(code),
    {
        match code {
            0u8 => Some(DoorbellCameraEvent::SomeoneIsStaying),
            1u8 => Some(DoorbellCameraEvent::SomeoneIsPassingBy),
            2u8 => Some(DoorbellCameraEvent::SomeoneIsRingingTheBell),
            3u8 => Some(DoorbellCameraEvent::SomeoneIsLeavingAMessage),
            4u8 => Some(DoorbellCameraEvent::EquipmentDamage),
            5u8 => Some(DoorbellCameraEvent::DuressAlarm),
            6u8 => Some(DoorbellCameraEvent::AbnormalUnlocking),
            _ => None,
        }
    }
}

/// Weighing event type.
#[derive(Copy, Clone, Debug, PartialEq, Eq, Structural)]
pub enum WeighingEventType {
    /// Current weight (`0x00`).
    CurrentWeight,
    /// Reduced weight (`0x01`).
    ReducedWeight,
    /// Increased weight (`0x02`).
    IncreasedWeight,
}

impl WeighingEventType {
    /// The value that a wire code stands for, if any.
    pub open spec fn spec_from_code(code: u8) -> Option<WeighingEventType> {
        match code {
            0u8 => Some(WeighingEventType::CurrentWeight),
            1u8 => Some(WeighingEventType::ReducedWeight),
            2u8 => Some(WeighingEventType::IncreasedWeight),
            _ => None,
        }
    }

    /// The value that a wire code stands for, if any.
    pub fn from_code(code: u8) -> (r: Option<WeighingEventType>)
        ensures
            r == WeighingEventType::spec_from_code(code),
    {
        match code {
            0u8 => Some(WeighingEventType::CurrentWeight),
            1u8 => Some(WeighingEventType::ReducedWeight),
            2u8 => Some(WeighingEventType::IncreasedWeight),
            _ => None,
        }
    }
}

/// Sleep state.
#[derive(Copy, Clone, Debug, PartialEq, Eq, Structural)]
pub enum SleepState {
    /// Not sleeping (`0x00`).
    NotSleeping,
    /// Asleep (`0x01`).
    Asleep,
}

impl SleepState {
    /// The value that a wire code stands for, if any.
    pub open spec fn spec_from_code(code: u8) -> Option<SleepState> {
        match code {
            0u8 => Some(SleepState::NotSleeping),
            1u8 => Some(SleepState::Asleep),
            _ => None,
        }
    }

    /// The value that a wire code stands for, if any.
    pub fn from_code(code: u8) -> (r: Option<SleepState>)
        ensures
            r == SleepState::spec_from_code(code),
    {
        match code {
            0u8 => Some(SleepState::NotSleeping),
            1u8 => Some(SleepState::Asleep),
            _ => None,
        }
    }
}

/// Door state.
#[derive(Copy, Clone, Debug, PartialEq, Eq, Structural)]
pub enum DoorState {
    /// The door is open (`0x00`).
    Open,
    /// The door is closed (`0x01`).
    Closed,
    /// Abnormal state (`0xFF`).
    Abnormal,
}

impl DoorState {
    /// The value that a wire code stands for, if any.
    pub open spec fn spec_from_code(code: u8) -> Option<DoorState> {
        match code {
            0u8 => Some(DoorState::Open),
            1u8 => Some(DoorState::Closed),
            255u8 => Some(DoorState::Abnormal),
            _ => None,
        }
    }

    /// The value that a wire code stands for, if any.
    pub fn from_code(code: u8) -> (r: Option<DoorState>)
        ensures
            r == DoorState::spec_from_code(code),
    {
        match code {
            0u8 => Some(DoorState::Open),
            1u8 => Some(DoorState::Closed),
            255u8 => Some(DoorState::Abnormal),
            _ => None,
        }
    }
}

/// Binding state.
#[derive(Copy, Clone, Debug, PartialEq, Eq, Structural)]
pub enum BindingState {
    /// Unbound (`0x00`).
    Unbound,
    /// Bound (`0x01`).
    Bound,
}

impl BindingState {
    /// The value that a wire code stands for, if any.
    pub open spec fn spec_from_code(code: u8) -> Option<BindingState> {
        match code {
            0u8 => Some(BindingState::Unbound),
            1u8 => Some(BindingState::Bound),
            _ => None,
        }
    }

    /// The value that a wire code stands for, if any.
    pub fn from_code(code: u8) -> (r: Option<BindingState>)
        ensures
            r == BindingState::spec_from_code(code),
    {
        match code {
            0u8 => Some(BindingState::Unbound),
            1u8 => Some(BindingState::Bound),
            _ => None,
        }
    }
}

/// Switch state.
#[derive(Copy, Clone, Debug, PartialEq, Eq, Structural)]
pub enum SwitchState {
    /// Disabled (`0x00`).
    Disabled,
    /// Enabled (`0x01`).
    Enabled,
}

impl SwitchState {
    /// The value that a wire code stands for, if any.
    pub open spec fn spec_from_code(code: u8) -> Option<SwitchState> {
        match code {
            0u8 => Some(SwitchState::Disabled),
            1u8 => Some(SwitchState::Enabled),
            _ => None,
        }
    }

    /// The value that a wire code stands for, if any.
    pub fn from_code(code: u8) -> (r: Option<SwitchState>)
        ensures
            r == SwitchState::spec_from_code(code),
    {
        match code {
            0u8 => Some(SwitchState::Disabled),
            1u8 => Some(SwitchState::Enabled),
            _ => None,
        }
    }
}

/// Water immersion state.
#[derive(Copy, Clone, Debug, PartialEq, Eq, Structural)]
pub enum WaterImmersionState {
    /// Not submerged (`0x00`).
    NotSubmerged,
    /// Submerged (`0x01`).
    Submerged,
}

impl WaterImmersionState {
    /// The value that a wire code stands for, if any.
    pub open spec fn spec_from_code(code: u8) -> Option<WaterImmersionState> {
        match code {
            0u8 => Some(WaterImmersionState::NotSubmerged),
            1u8 => Some(WaterImmersionState::Submerged),
            _ => None,
        }
    }

    /// The value that a wire code stands for, if any.
    pub fn from_code(code: u8) -> (r: Option<WaterImmersionState>)
        ensures
            r == WaterImmersionState::spec_from_code(code),
    {
        match code {
            0u8 => Some(WaterImmersionState::NotSubmerged),
            1u8 => Some(WaterImmersionState::Submerged),
            _ => None,
        }
    }
}

/// Smoke detection state.
#[derive(Copy, Clone, Debug, PartialEq, Eq, Structural)]
pub enum SmokeDetectionState {
    /// Normal monitoring (`0x00`).
    Normal,
    /// Fire alarm (`0x01`).
    FireAlarm,
    /// Equipment failure (`0x02`).
    EquipmentFailure,
}

impl SmokeDetectionState {
    /// The value that a wire code stands for, if any.
    pub open spec fn spec_from_code(code: u8) -> Option<SmokeDetectionState> {
        match code {
            0u8 => Some(SmokeDetectionState::Normal),
            1u8 => Some(SmokeDetectionState::FireAlarm),
            2u8 => Some(SmokeDetectionState::EquipmentFailure),
            _ => None,
        }
    }

    /// The value that a wire code stands for, if any.
    pub fn from_code(code: u8) -> (r: Option<SmokeDetectionState>)
        ensures
            r == SmokeDetectionState::spec_from_code(code),
    {
        match code {
            0u8 => Some(SmokeDetectionState::Normal),
            1u8 => Some(SmokeDetectionState::FireAlarm),
            2u8 => Some(SmokeDetectionState::EquipmentFailure),
            _ => None,
        }
    }
}

/// Gas leakage detection state.
#[derive(Copy, Clone, Debug, PartialEq, Eq, Structural)]
pub enum GasLeakageDetectionState {
    /// Leakage (`0x00`).
    Leakage,
    /// No leakage (`0x01`).
    NoLeakage,
}

impl GasLeakageDetectionState {
    /// The value that a wire code stands for, if any.
    pub open spec fn spec_from_code(code: u8) -> Option<GasLeakageDetectionState> {
        match code {
            0u8 => Some(GasLeakageDetectionState::Leakage),
            1u8 => Some(GasLeakageDetectionState::NoLeakage),
            _ => None,
        }
    }

    /// The value that a wire code stands for, if any.
    pub fn from_code(code: u8) -> (r: Option<GasLeakageDetectionState>)
        ensures
            r == GasLeakageDetectionState::spec_from_code(code),
    {
        match code {
            0u8 => Some(GasLeakageDetectionState::Leakage),
            1u8 => Some(GasLeakageDetectionState::NoLeakage),
            _ => None,
        }
    }
}

/// Light intensity state.
#[derive(Copy, Clone, Debug, PartialEq, Eq, Structural)]
pub enum LightIntensityState {
    /// Weak light (`0x00`).
    Dark,
    /// Strong light (`0x01`).
    Light,
}

impl LightIntensityState {
    /// The value that a wire code stands for, if any.
    pub open spec fn spec_from_code(code: u8) -> Option<LightIntensityState> {
        match code {
            0u8 => Some(LightIntensityState::Dark),
            1u8 => Some(LightIntensityState::Light),
            _ => None,
        }
    }

    /// The value that a wire code stands for, if any.
    pub fn from_code(code: u8) -> (r: Option<LightIntensityState>)
        ensures
            r == LightIntensityState::spec_from_code(code),
    {
        match code {
            0u8 => Some(LightIntensityState::Dark),
            1u8 => Some(LightIntensityState::Light),
            _ => None,
        }
    }
}

/// Door sensor state.
#[derive(Copy, Clone, Debug, PartialEq, Eq, Structural)]
pub enum DoorSensorState {
    /// Door open (`0x00`).
    DoorOpen,
    /// Door closed (`0x01`).
    DoorClosed,
    /// Timeout (`0x02`).
    Timeout,
    /// Device reset (`0x03`).
    DeviceReset,
}

impl DoorSensorState {
    /// The value that a wire code stands for, if any.
    pub open spec fn spec_from_code(code: u8) -> Option<DoorSensorState> {
        match code {
            0u8 => Some(DoorSensorState::DoorOpen),
            1u8 => Some(DoorSensorState::DoorClosed),
            2u8 => Some(DoorSensorState::Timeout),
            3u8 => Some(DoorSensorState::DeviceReset),
            _ => None,
        }
    }

    /// The value that a wire code stands for, if any.
    pub fn from_code(code: u8) -> (r: Option<DoorSensorState>)
        ensures
            r == DoorSensorState::spec_from_code(code),
    {
        match code {
            0u8 => Some(DoorSensorState::DoorOpen),
            1u8 => Some(DoorSensorState::DoorClosed),
            2u8 => Some(DoorSensorState::Timeout),
            3u8 => Some(DoorSensorState::DeviceReset),
            _ => None,
        }
    }
}

/// Movement detection state.
#[derive(Copy, Clone, Debug, PartialEq, Eq, Structural)]
pub enum MovementDetectionState {
    /// Movement detected in the configured time frame (`0x00`).
    MovementDetectedWithinTimeframe,
    /// No movement detected in the configured time frame (`0x01`).
    NoMovementDetectedWithinTimeframe,
}

impl MovementDetectionState {
    /// The value that a wire code stands for, if any.
    pub open spec fn spec_from_code(code: u8) -> Option<MovementDetectionState> {
        match code {
            0u8 => Some(MovementDetectionState::MovementDetectedWithinTimeframe),
            1u8 => Some(MovementDetectionState::NoMovementDetectedWithinTimeframe),
            _ => None,
        }
    }

    /// The value that a wire code stands for, if any.
    pub fn from_code(code: u8) -> (r: Option<MovementDetectionState>)
        ensures
            r == MovementDetectionState::spec_from_code(code),
    {
        match code {
            0u8 => Some(MovementDetectionState::MovementDetectedWithinTimeframe),
            1u8 => Some(MovementDetectionState::NoMovementDetectedWithinTimeframe),
            _ => None,
        }
    }
}

/// Sleep state reported by a Mi Band.
#[derive(Copy, Clone, Debug, PartialEq, Eq, Structural)]
pub enum MiBandSleepState {
    /// No sleep event occurred (`0x00`).
    NoEvent,
    /// The user fell asleep (`0x01`).
    FallAsleep,
    /// The user woke up (`0x02`).
    WakeUp,
}

impl MiBandSleepState {
    /// The value that a wire code stands for, if any.
    pub open spec fn spec_from_code(code: u8) -> Option<MiBandSleepState> {
        match code {
            0u8 => Some(MiBandSleepState::NoEvent),
            1u8 => Some(MiBandSleepState::FallAsleep),
            2u8 => Some(MiBandSleepState::WakeUp),
            _ => None,
        }
    }

    /// The value that a wire code stands for, if any.
    pub fn from_code(code: u8) -> (r: Option<MiBandSleepState>)
        ensures
            r == MiBandSleepState::spec_from_code(code),
    {
        match code {
            0u8 => Some(MiBandSleepState::NoEvent),
            1u8 => Some(MiBandSleepState::FallAsleep),
            2u8 => Some(MiBandSleepState::WakeUp),
            _ => None,
        }
    }
}

/// Roidmi vacuum cleaner state.
#[derive(Copy, Clone, Debug, PartialEq, Eq, Structural)]
pub enum RoidmiVacuumCleanerState {
    /// Charging (`0x00`).
    Charging,
    /// Standby (`0x01`).
    Standby,
    /// Cleaning in standard mode (`0x02`).
    Standard,
    /// Cleaning in strong mode (`0x03`).
    Strong,
    /// Abnormal state (`0xFF`).
    Abnormal,
}

impl RoidmiVacuumCleanerState {
    /// The value that a wire code stands for, if any.
    pub open spec fn spec_from_code(code: u8) -> Option<RoidmiVacuumCleanerState> {
        match code {
            0u8 => Some(RoidmiVacuumCleanerState::Charging),
            1u8 => Some(RoidmiVacuumCleanerState::Standby),
            2u8 => Some(RoidmiVacuumCleanerState::Standard),
            3u8 => Some(RoidmiVacuumCleanerState::Strong),
            255u8 => Some(RoidmiVacuumCleanerState::Abnormal),
            _ => None,
        }
    }

    /// The value that a wire code stands for, if any.
    pub fn from_code(code: u8) -> (r: Option<RoidmiVacuumCleanerState>)
        ensures
            r == RoidmiVacuumCleanerState::spec_from_code(code),
    {
        match code {
            0u8 => Some(RoidmiVacuumCleanerState::Charging),
            1u8 => Some(RoidmiVacuumCleanerState::Standby),
            2u8 => Some(RoidmiVacuumCleanerState::Standard),
            3u8 => Some(RoidmiVacuumCleanerState::Strong),
            255u8 => Some(RoidmiVacuumCleanerState::Abnormal),
            _ => None,
        }
    }
}

/// Flower and grass detector event.
#[derive(Copy, Clone, Debug, PartialEq, Eq, Structural)]
pub enum FlowerAndGrassDetectorEvent {
    /// Normal (`0x00`).
    Normal,
    /// Unplugged (`0x01`).
    Unplugged,
}

impl FlowerAndGrassDetectorEvent {
    /// The value that a wire code stands for, if any.
    pub open spec fn spec_from_code(code: u8) -> Option<FlowerAndGrassDetectorEvent> {
        match code {
            0u8 => Some(FlowerAndGrassDetectorEvent::Normal),
            1u8 => Some(FlowerAndGrassDetectorEvent::Unplugged),
            _ => None,
        }
    }

    /// The value that a wire code stands for, if any.
    pub fn from_code(code: u8) -> (r: Option<FlowerAndGrassDetectorEvent>)
        ensures
            r == FlowerAndGrassDetectorEvent::spec_from_code(code),
    {
        match code {
            0u8 => Some(FlowerAndGrassDetectorEvent::Normal),
            1u8 => Some(FlowerAndGrassDetectorEvent::Unplugged),
            _ => None,
        }
    }
}

/// Qingping sensor location event.
#[derive(Copy, Clone, Debug, PartialEq, Eq, Structural)]
pub enum QuingpingSensorLocationEvent {
    /// Separated from the base (`0x00`).
    SeparatedFromBase,
    /// Connected (`0x01`).
    Connected,
}

impl QuingpingSensorLocationEvent {
    /// The value that a wire code stands for, if any.
    pub open spec fn spec_from_code(code: u8) -> Option<QuingpingSensorLocationEvent> {
        match code {
            0u8 => Some(QuingpingSensorLocationEvent::SeparatedFromBase),
            1u8 => Some(QuingpingSensorLocationEvent::Connected),
            _ => None,
        }
    }

    /// The value that a wire code stands for, if any.
    pub fn from_code(code: u8) -> (r: Option<QuingpingSensorLocationEvent>)
        ensures
            r == QuingpingSensorLocationEvent::spec_from_code(code),
    {
        match code {
            0u8 => Some(QuingpingSensorLocationEvent::SeparatedFromBase),
            1u8 => Some(QuingpingSensorLocationEvent::Connected),
            _ => None,
        }
    }
}

/// Qingping pomodoro event.
#[derive(Copy, Clone, Debug, PartialEq, Eq, Structural)]
pub enum QuingpingPomodoroEvent {
    /// Start of a pomodoro (`0x00`).
    Start,
    /// End of a pomodoro (`0x01`).
    End,
    /// Start of a break (`0x02`).
    StartOfBreak,
    /// End of a break (`0x03`).
    EndOfBreak,
}

impl QuingpingPomodoroEvent {
    /// The value that a wire code stands for, if any.
    pub open spec fn spec_from_code(code: u8) -> Option<QuingpingPomodoroEvent> {
        match code {
            0u8 => Some(QuingpingPomodoroEvent::Start),
            1u8 => Some(QuingpingPomodoroEvent::End),
            2u8 => Some(QuingpingPomodoroEvent::StartOfBreak),
            3u8 => Some(QuingpingPomodoroEvent::EndOfBreak),
            _ => None,
        }
    }

    /// The value that a wire code stands for, if any.
    pub fn from_code(code: u8) -> (r: Option<QuingpingPomodoroEvent>)
        ensures
            r == QuingpingPomodoroEvent::spec_from_code(code),
    {
        match code {
            0u8 => Some(QuingpingPomodoroEvent::Start),
            1u8 => Some(QuingpingPomodoroEvent::End),
            2u8 => Some(QuingpingPomodoroEvent::StartOfBreak),
            3u8 => Some(QuingpingPomodoroEvent::EndOfBreak),
            _ => None,
        }
    }
}

/// Event type of a button press. Button presses share their object id with weighing events;
/// that id decodes as a [`MiBeaconObjectPayload::WeighingEvent`].
#[derive(Copy, Clone, Debug, PartialEq, Eq, Structural)]
pub enum ButtonEventType {
    /// Single click (`0x00`).
    SingleClick,
    /// Double click (`0x01`).
    DoubleClick,
    /// Long press (`0x02`).
    LongPress,
    /// Triple click (`0x03`).
    TripleClick,
}

/// Key id of a fingerprint event.
#[derive(Copy, Clone, Debug, PartialEq, Eq, Structural)]
pub enum FingerprintEventKeyId {
    /// Lock administrator (`0x00000000`).
    LockAdministrator,
    /// Unknown operator (`0xFFFFFFFF`).
    UnknownOperator,
    /// Any other key id.
    KeyId(u32),
}

impl FingerprintEventKeyId {
    /// The key id that a raw value stands for.
    pub open spec fn spec_from_u32(v: u32) -> FingerprintEventKeyId {
        if v == 0 {
            FingerprintEventKeyId::LockAdministrator
        } else if v == 0xFFFF_FFFF {
            FingerprintEventKeyId::UnknownOperator
        } else {
            FingerprintEventKeyId::KeyId(v)
        }
    }

    /// The key id that a raw value stands for.
    pub fn from_u32(v: u32) -> (r: FingerprintEventKeyId)
        ensures
            r == FingerprintEventKeyId::spec_from_u32(v),
    {
        if v == 0 {
            FingerprintEventKeyId::LockAdministrator
        } else if v == 0xFFFF_FFFF {
            FingerprintEventKeyId::UnknownOperator
        } else {
            FingerprintEventKeyId::KeyId(v)
        }
    }
}

/// Gesture of a gesture event (a 16-bit code).
#[derive(Copy, Clone, Debug, PartialEq, Eq, Structural)]
pub enum Gesture {
    /// Shake (`0x0001`).
    Shake,
    /// Flip 90 degrees (`0x0002`).
    FlipNinetyDegrees,
    /// Flip 180 degrees (`0x0003`).
    FlipOneHundredEightyDegrees,
    /// Plane rotation (`0x0004`).
    PlaneRotation,
    /// Knock (`0x0005`).
    Knock,
    /// Nudge (`0x0006`).
    Nudge,
}

impl Gesture {
    /// The gesture that a wire code stands for, if any.
    pub open spec fn spec_from_code(code: u16) -> Option<Gesture> {
        match code {
            1u16 => Some(Gesture::Shake),
            2u16 => Some(Gesture::FlipNinetyDegrees),
            3u16 => Some(Gesture::FlipOneHundredEightyDegrees),
            4u16 => Some(Gesture::PlaneRotation),
            5u16 => Some(Gesture::Knock),
            6u16 => Some(Gesture::Nudge),
            _ => None,
        }
    }

    /// The gesture that a wire code stands for, if any.
    pub fn from_code(code: u16) -> (r: Option<Gesture>)
        ensures
            r == Gesture::spec_from_code(code),
    {
        match code {
            1u16 => Some(Gesture::Shake),
            2u16 => Some(Gesture::FlipNinetyDegrees),
            3u16 => Some(Gesture::FlipOneHundredEightyDegrees),
            4u16 => Some(Gesture::PlaneRotation),
            5u16 => Some(Gesture::Knock),
            6u16 => Some(Gesture::Nudge),
            _ => None,
        }
    }
}

/// Smart pillow state: every byte value has a meaning.
#[derive(Copy, Clone, Debug, PartialEq, Eq, Structural)]
pub enum SmartPillowState {
    /// Out of bed (`0x00`).
    OutOfBed,
    /// In bed (`0x01`).
    InBed,
    /// Reserved (`0x02` to `0xFF`).
    Reserved(u8),
}

impl SmartPillowState {
    /// The state that a wire code stands for.
    pub open spec fn spec_from_code(code: u8) -> SmartPillowState {
        match code {
            0u8 => SmartPillowState::OutOfBed,
            1u8 => SmartPillowState::InBed,
            _ => SmartPillowState::Reserved(code),
        }
    }

    /// The state that a wire code stands for.
    pub fn from_code(code: u8) -> (r: SmartPillowState)
        ensures
            r == SmartPillowState::spec_from_code(code),
    {
        match code {
            0u8 => SmartPillowState::OutOfBed,
            1u8 => SmartPillowState::InBed,
            _ => SmartPillowState::Reserved(code),
        }
    }
}

/// Operation byte of a lock event: the action in the low four bits, the method in the high
/// four bits.
#[derive(Copy, Clone, Debug, PartialEq, Eq)]
pub struct LockEventOperation {
    /// The raw byte.
    pub bits: u8,
}

impl LockEventOperation {
    /// The action (low four bits): 0 unlocked from outside, 1 locked, 2 anti-lock on,
    /// 3 anti-lock off, 4 unlocked from inside, 5 locked from inside, 6 child lock on,
    /// 7 child lock off, 8 locked from outside, 15 abnormal.
    pub open spec fn spec_operation_action(self) -> u8 {
        ((self.bits >> 0u8) & 15u8) as u8
    }

    /// The action (low four bits): 0 unlocked from outside, 1 locked, 2 anti-lock on,
    /// 3 anti-lock off, 4 unlocked from inside, 5 locked from inside, 6 child lock on,
    /// 7 child lock off, 8 locked from outside, 15 abnormal.
    pub fn operation_action(&self) -> (r: u8)
        ensures
            r == self.spec_operation_action(),
    {
        ((self.bits >> 0u8) & 15u8) as u8
    }

    /// The method (high four bits): 0 Bluetooth, 1 password, 2 biometrics, 3 key,
    /// 4 turntable, 5 NFC, 6 one-time password, 7 two-factor, 8 coercion, 9 HomeKit,
    /// 10 artificial, 11 automatic, 15 abnormal.
    pub open spec fn spec_operation_method(self) -> u8 {
        ((self.bits >> 4u8) & 15u8) as u8
    }

    /// The method (high four bits): 0 Bluetooth, 1 password, 2 biometrics, 3 key,
    /// 4 turntable, 5 NFC, 6 one-time password, 7 two-factor, 8 coercion, 9 HomeKit,
    /// 10 artificial, 11 automatic, 15 abnormal.
    pub fn operation_method(&self) -> (r: u8)
        ensures
            r == self.spec_operation_method(),
    {
        ((self.bits >> 4u8) & 15u8) as u8
    }
}

/// Lock sensor state. Bits 4 to 7 are reserved.
#[derive(Copy, Clone, Debug, PartialEq, Eq)]
pub struct LockState {
    /// The raw byte.
    pub bits: u8,
}

impl LockState {
    /// Whether the tongue is ejected (bit 0).
    pub open spec fn spec_tongue_ejected(self) -> bool {
        bit_u8(self.bits, 0)
    }

    /// Whether the tongue is ejected (bit 0).
    pub fn tongue_ejected(&self) -> (r: bool)
        ensures
            r == self.spec_tongue_ejected(),
    {
        (self.bits >> 0u8) & 1u8 == 1u8
    }

    /// Whether the dead tongue is ejected (bit 1).
    pub open spec fn spec_dead_tongue_ejected(self) -> bool {
        bit_u8(self.bits, 1)
    }

    /// Whether the dead tongue is ejected (bit 1).
    pub fn dead_tongue_ejected(&self) -> (r: bool)
        ensures
            r == self.spec_dead_tongue_ejected(),
    {
        (self.bits >> 1u8) & 1u8 == 1u8
    }

    /// Whether the latch is ejected (bit 2).
    pub open spec fn spec_latch_ejected(self) -> bool {
        bit_u8(self.bits, 2)
    }

    /// Whether the latch is ejected (bit 2).
    pub fn latch_ejected(&self) -> (r: bool)
        ensures
            r == self.spec_latch_ejected(),
    {
        (self.bits >> 2u8) & 1u8 == 1u8
    }

    /// Whether the child lock is ejected (bit 3).
    pub open spec fn spec_child_lock_ejected(self) -> bool {
        bit_u8(self.bits, 3)
    }

    /// Whether the child lock is ejected (bit 3).
    pub fn child_lock_ejected(&self) -> (r: bool)
        ensures
            r == self.spec_child_lock_ejected(),
    {
        (self.bits >> 3u8) & 1u8 == 1u8
    }
}

/// Lock event payload.
#[derive(Copy, Clone, Debug, PartialEq, Eq)]
pub struct LockEvent {
    /// Action and method.
    pub operation: LockEventOperation,
    /// Key id: `0x00000000` is the administrator, `0xFFFFFFFF` an unknown operator,
    /// `0xDEADBEEF` an invalid operator; ids starting with `0xC0DE` report exceptions.
    pub key_id: u32,
    /// UTC timestamp.
    pub timestamp: u32,
}

/// Decoded payload of a MiBeacon object.
///
/// Each known object id has one layout, or two told apart by the object's length (the longer
/// one adds a trailing optional field). A recognized id whose value field holds a code that its
/// layout does not define is kept as [`MiBeaconObjectPayload::Unknown`], as is any id that is
/// not recognized.
#[derive(Clone, Debug)]
pub enum MiBeaconObjectPayload {
    /// Connect event: the id of the object to be paired, such as the key event. Object id `0x0001`.
    ConnectEvent(u16),
    /// Simple pairing event: the id of the object to be paired. Object id `0x0002`.
    SimplePairingEvent(u16),
    /// Proximity event. Object id `0x0003`.
    ProximityEvent(u16),
    /// Keep-away event. Object id `0x0004`.
    KeepAwayEvent(u16),
    /// Lock event (deprecated layout). Object id `0x0005`.
    LockEventDeprecated(u16),
    /// Fingerprint event. Object id `0x0006`.
    FingerprintEvent {
        /// Key id.
        key_id: FingerprintEventKeyId,
        /// Matching result.
        matching_result: FingerprintEventMatchingResult,
    },
    /// Door event. Object id `0x0007`.
    DoorEvent(DoorEvent),
    /// Arming event; the timestamp is present at length 5. Object id `0x0008`.
    ArmingEvent {
        /// Status.
        status: ArmingEventStatus,
        /// UTC timestamp, present at length 5.
        timestamp: Option<u32>,
    },
    /// Gesture event. Object id `0x0009`.
    GestureEvent(Gesture),
    /// Body temperature event, in hundredths of a degree Celsius. Object id `0x000A`.
    BodyTemperatureEvent(i16),
    /// Lock event. Object id `0x000B`.
    LockEvent(LockEvent),
    /// Flooding alarm event. Object id `0x000C`.
    FloodingAlarmEvent(FloodingAlarmEvent),
    /// Smoke detector alarm. Object id `0x000D`.
    SmokeAlarmEvent(SmokeAlarmEvent),
    /// Gas leak alarm. Object id `0x000E`.
    GasAlarmEvent(GasAlarmEvent),
    /// Movement detector alarm, with the illuminance in lux. Object id `0x000F`.
    MovementAlarmWithIlluminanceEvent(U24),
    /// Toothbrush event; the score is present at length 2. Object id `0x0010`.
    ToothbrushEvent {
        /// Started or ended brushing.
        event_type: ToothbrushEventType,
        /// Score from 0 to 100, present at length 2.
        score: Option<u8>,
    },
    /// Doorbell camera event. Object id `0x0011`.
    DoorbellCameraEvent(DoorbellCameraEvent),
    /// Weighing event. Object id `0x0012`.
    WeighingEvent {
        /// Weight in grams.
        weight: u16,
        /// Current, reduced or increased weight.
        weighing_type: WeighingEventType,
    },
    /// Sleep state. Object id `0x1002`.
    Sleep(SleepState),
    /// Signal strength. Object id `0x1003`.
    Rssi(u8),
    /// Temperature, in tenths of a degree Celsius. Object id `0x1004`.
    Temperature(i16),
    /// Power state and temperature. Object id `0x1005`.
    PowerAndTemperature {
        /// Power: zero is off, anything else on.
        power: u8,
        /// Temperature in degrees Celsius.
        temperature: u8,
    },
    /// Humidity, in tenths of a percent. Object id `0x1006`.
    Humidity(u16),
    /// Illuminance, in lux. Object id `0x1007`.
    Illuminance(U24),
    /// Soil moisture, in percent. Object id `0x1008`.
    Moisture(u8),
    /// Soil electrical conductivity, in µS/cm. Object id `0x1009`.
    Conductivity(u16),
    /// Battery power, in percent. Object id `0x100A`.
    BatteryPower(u8),
    /// Lock sensor state. Object id `0x100E`.
    Lock(LockState),
    /// Door state. Object id `0x100F`.
    Door(DoorState),
    /// Formaldehyde concentration, in hundredths of a mg/m³. Object id `0x1010`.
    FormaldehydeConcentration(u16),
    /// Binding state, in the first of the two bytes. Object id `0x1011`.
    Binding(BindingState),
    /// Switch state. Object id `0x1012`.
    Switch(SwitchState),
    /// Remaining consumable supplies, in percent. Object id `0x1013`.
    RemainingSupplies(u8),
    /// Water immersion state. Object id `0x1014`.
    WaterImmersion(WaterImmersionState),
    /// Smoke detection state. Object id `0x1015`.
    SmokeDetection(SmokeDetectionState),
    /// Gas leakage detection state. Object id `0x1016`.
    GasLeakageDetection(GasLeakageDetectionState),
    /// Time without motion, in seconds. Object id `0x1017`.
    TimeWithoutMotion(u32),
    /// Light intensity state, in the first of the two bytes. Object id `0x1018`.
    LightIntensity(LightIntensityState),
    /// Door sensor state, in the first of the two bytes. Object id `0x1019`.
    DoorSensor(DoorSensorState),
    /// Weight, in grams (read out in kilograms, as thousandths). Object id `0x101A`.
    Weight(u16),
    /// Movement detection in a time frame. Object id `0x101B`.
    MovementDetection(MovementDetectionState),
    /// Smart pillow state (the one-byte layout of this id). Object id `0x101C`.
    SmartPillow(SmartPillowState),
    /// Formaldehyde concentration, in thousandths of a mg/m³ (the two-byte layout of this
    /// id). Object id `0x101C`.
    FormaldehydeConcentrationNew(u16),
    /// Body thermometer reading. Object id `0x2000`.
    BodyTemperature {
        /// Skin temperature, in hundredths of a degree Celsius.
        skin_temperature: u16,
        /// Circuit board temperature, in hundredths of a degree Celsius.
        pcb_temperature: u16,
        /// Battery power, in percent.
        battery_power: u8,
    },
    /// Mi Band report. Object id `0x2001`.
    MiBand {
        /// Current step count.
        step_count: u16,
        /// Sleep event.
        sleep: MiBandSleepState,
        /// Current signal strength.
        rssi: u8,
    },
    /// Roidmi vacuum cleaner report. Object id `0x2002`.
    RoidmiVacuumCleaner {
        /// Vacuum state.
        status: RoidmiVacuumCleanerState,
        /// Current standard gear.
        gear: u8,
    },
    /// Black Plus bracelet report. Object id `0x2003`.
    BlackPlusBracelet {
        /// Steps per day.
        step_count: u16,
        /// Last heart rate.
        heart_rate: u8,
        /// Current activity status.
        state: u8,
    },
    /// Flower and grass detector event. Object id `0x3000`.
    FlowerAndGrassDetectorEvent(FlowerAndGrassDetectorEvent),
    /// Qingping sensor location event. Object id `0x3001`.
    QuingpingSensorLocationEvent(QuingpingSensorLocationEvent),
    /// Qingping pomodoro event. Object id `0x3002`.
    QuingpingPomodoroEvent(QuingpingPomodoroEvent),
    /// Xiaobei toothbrush event; the score is present at length 6. Object id `0x3003`.
    XiaobelToothbrushEvent {
        /// Started or ended brushing.
        event_type: ToothbrushEventType,
        /// UTC timestamp.
        timestamp: u32,
        /// Score from 0 to 100, present at length 6.
        score: Option<u8>,
    },
    /// The raw bytes of an object whose id is not recognized, or whose value is not defined.
    Unknown(Vec<u8>),
}

/// The lengths that a recognized object id allows (twice the same when it allows one), or
/// `None` when the id is not recognized.
pub open spec fn spec_expected_lengths(id: u16) -> Option<(u8, u8)> {
    match id {
        0x0001u16 => Some((2u8, 2u8)),
        0x0002u16 => Some((2u8, 2u8)),
        0x0003u16 => Some((2u8, 2u8)),
        0x0004u16 => Some((2u8, 2u8)),
        0x0005u16 => Some((2u8, 2u8)),
        0x0006u16 => Some((5u8, 5u8)),
        0x0007u16 => Some((1u8, 1u8)),
        0x0008u16 => Some((1u8, 5u8)),
        0x0009u16 => Some((2u8, 2u8)),
        0x000Au16 => Some((2u8, 2u8)),
        0x000Bu16 => Some((9u8, 9u8)),
        0x000Cu16 => Some((1u8, 1u8)),
        0x000Du16 => Some((1u8, 1u8)),
        0x000Eu16 => Some((1u8, 1u8)),
        0x000Fu16 => Some((3u8, 3u8)),
        0x0010u16 => Some((1u8, 2u8)),
        0x0011u16 => Some((1u8, 1u8)),
        0x0012u16 => Some((3u8, 3u8)),
        0x1002u16 => Some((1u8, 1u8)),
        0x1003u16 => Some((1u8, 1u8)),
        0x1004u16 => Some((2u8, 2u8)),
        0x1005u16 => Some((2u8, 2u8)),
        0x1006u16 => Some((2u8, 2u8)),
        0x1007u16 => Some((3u8, 3u8)),
        0x1008u16 => Some((1u8, 1u8)),
        0x1009u16 => Some((2u8, 2u8)),
        0x100Au16 => Some((1u8, 1u8)),
        0x100Eu16 => Some((1u8, 1u8)),
        0x100Fu16 => Some((1u8, 1u8)),
        0x1010u16 => Some((2u8, 2u8)),
        0x1011u16 => Some((2u8, 2u8)),
        0x1012u16 => Some((1u8, 1u8)),
        0x1013u16 => Some((1u8, 1u8)),
        0x1014u16 => Some((1u8, 1u8)),
        0x1015u16 => Some((1u8, 1u8)),
        0x1016u16 => Some((1u8, 1u8)),
        0x1017u16 => Some((4u8, 4u8)),
        0x1018u16 => Some((2u8, 2u8)),
        0x1019u16 => Some((2u8, 2u8)),
        0x101Au16 => Some((2u8, 2u8)),
        0x101Bu16 => Some((1u8, 1u8)),
        0x101Cu16 => Some((1u8, 2u8)),
        0x2000u16 => Some((5u8, 5u8)),
        0x2001u16 => Some((4u8, 4u8)),
        0x2002u16 => Some((2u8, 2u8)),
        0x2003u16 => Some((4u8, 4u8)),
        0x3000u16 => Some((1u8, 1u8)),
        0x3001u16 => Some((1u8, 1u8)),
        0x3002u16 => Some((1u8, 1u8)),
        0x3003u16 => Some((5u8, 6u8)),
        _ => None,
    }
}

/// The lengths that a recognized object id allows (twice the same when it allows one), or
/// `None` when the id is not recognized.
pub fn expected_lengths(id: u16) -> (r: Option<(u8, u8)>)
    ensures
        r == spec_expected_lengths(id),
{
    match id {
        0x0001u16 => Some((2u8, 2u8)),
        0x0002u16 => Some((2u8, 2u8)),
        0x0003u16 => Some((2u8, 2u8)),
        0x0004u16 => Some((2u8, 2u8)),
        0x0005u16 => Some((2u8, 2u8)),
        0x0006u16 => Some((5u8, 5u8)),
        0x0007u16 => Some((1u8, 1u8)),
        0x0008u16 => Some((1u8, 5u8)),
        0x0009u16 => Some((2u8, 2u8)),
        0x000Au16 => Some((2u8, 2u8)),
        0x000Bu16 => Some((9u8, 9u8)),
        0x000Cu16 => Some((1u8, 1u8)),
        0x000Du16 => Some((1u8, 1u8)),
        0x000Eu16 => Some((1u8, 1u8)),
        0x000Fu16 => Some((3u8, 3u8)),
        0x0010u16 => Some((1u8, 2u8)),
        0x0011u16 => Some((1u8, 1u8)),
        0x0012u16 => Some((3u8, 3u8)),
        0x1002u16 => Some((1u8, 1u8)),
        0x1003u16 => Some((1u8, 1u8)),
        0x1004u16 => Some((2u8, 2u8)),
        0x1005u16 => Some((2u8, 2u8)),
        0x1006u16 => Some((2u8, 2u8)),
        0x1007u16 => Some((3u8, 3u8)),
        0x1008u16 => Some((1u8, 1u8)),
        0x1009u16 => Some((2u8, 2u8)),
        0x100Au16 => Some((1u8, 1u8)),
        0x100Eu16 => Some((1u8, 1u8)),
        0x100Fu16 => Some((1u8, 1u8)),
        0x1010u16 => Some((2u8, 2u8)),
        0x1011u16 => Some((2u8, 2u8)),
        0x1012u16 => Some((1u8, 1u8)),
        0x1013u16 => Some((1u8, 1u8)),
        0x1014u16 => Some((1u8, 1u8)),
        0x1015u16 => Some((1u8, 1u8)),
        0x1016u16 => Some((1u8, 1u8)),
        0x1017u16 => Some((4u8, 4u8)),
        0x1018u16 => Some((2u8, 2u8)),
        0x1019u16 => Some((2u8, 2u8)),
        0x101Au16 => Some((2u8, 2u8)),
        0x101Bu16 => Some((1u8, 1u8)),
        0x101Cu16 => Some((1u8, 2u8)),
        0x2000u16 => Some((5u8, 5u8)),
        0x2001u16 => Some((4u8, 4u8)),
        0x2002u16 => Some((2u8, 2u8)),
        0x2003u16 => Some((4u8, 4u8)),
        0x3000u16 => Some((1u8, 1u8)),
        0x3001u16 => Some((1u8, 1u8)),
        0x3002u16 => Some((1u8, 1u8)),
        0x3003u16 => Some((5u8, 6u8)),
        _ => None,
    }
}

/// Whether the object id is one whose layout is known.
pub open spec fn is_known_id(id: u16) -> bool {
    spec_expected_lengths(id) is Some
}

/// Whether an object of this id may have this length: any length for an id that is not
/// recognized, one of its layout's lengths for one that is.
pub open spec fn length_accepted(id: u16, len: int) -> bool {
    match spec_expected_lengths(id) {
        None => true,
        Some((a, b)) => len == a || len == b,
    }
}

/// The payload that the bytes of a recognized object decode to, or `None` when the id is not
/// recognized, the length not accepted, or a code in the value not defined.
pub open spec fn known_payload(id: u16, data: Seq<u8>) -> Option<MiBeaconObjectPayload> {
    if spec_expected_lengths(id) is None || !length_accepted(id, data.len() as int) {
        None
    } else {
        match id {
            0x0001u16 => {
                Some(MiBeaconObjectPayload::ConnectEvent(le_u16(data, 0)))
            },
            0x0002u16 => {
                Some(MiBeaconObjectPayload::SimplePairingEvent(le_u16(data, 0)))
            },
            0x0003u16 => {
                Some(MiBeaconObjectPayload::ProximityEvent(le_u16(data, 0)))
            },
            0x0004u16 => {
                Some(MiBeaconObjectPayload::KeepAwayEvent(le_u16(data, 0)))
            },
            0x0005u16 => {
                Some(MiBeaconObjectPayload::LockEventDeprecated(le_u16(data, 0)))
            },
            0x0006u16 => {
                match FingerprintEventMatchingResult::spec_from_code(data[4]) {
                    Some(value) => Some(MiBeaconObjectPayload::FingerprintEvent {
                        key_id: FingerprintEventKeyId::spec_from_u32(le_u32(data, 0)),
                        matching_result: value,
                    }),
                    None => None,
                }
            },
            0x0007u16 => {
                match DoorEvent::spec_from_code(data[0]) {
                    Some(value) => Some(MiBeaconObjectPayload::DoorEvent(value)),
                    None => None,
                }
            },
            0x0008u16 => {
                match ArmingEventStatus::spec_from_code(data[0]) {
                    Some(value) => Some(MiBeaconObjectPayload::ArmingEvent {
                        status: value,
                        timestamp: if data.len() == 5 { Some(le_u32(data, 1)) } else { None },
                    }),
                    None => None,
                }
            },
            0x0009u16 => {
                match Gesture::spec_from_code(le_u16(data, 0)) {
                    Some(value) => Some(MiBeaconObjectPayload::GestureEvent(value)),
                    None => None,
                }
            },
            0x000Au16 => {
                Some(MiBeaconObjectPayload::BodyTemperatureEvent(le_i16(data, 0)))
            },
            0x000Bu16 => {
                Some(
                    MiBeaconObjectPayload::LockEvent(LockEvent {
                        operation: LockEventOperation { bits: data[0] },
                        key_id: le_u32(data, 1),
                        timestamp: le_u32(data, 5),
                    }),
                )
            },
            0x000Cu16 => {
                match FloodingAlarmEvent::spec_from_code(data[0]) {
                    Some(value) => Some(MiBeaconObjectPayload::FloodingAlarmEvent(value)),
                    None => None,
                }
            },
            0x000Du16 => {
                match SmokeAlarmEvent::spec_from_code(data[0]) {
                    Some(value) => Some(MiBeaconObjectPayload::SmokeAlarmEvent(value)),
                    None => None,
                }
            },
            0x000Eu16 => {
                match GasAlarmEvent::spec_from_code(data[0]) {
                    Some(value) => Some(MiBeaconObjectPayload::GasAlarmEvent(value)),
                    None => None,
                }
            },
            0x000Fu16 => {
                Some(MiBeaconObjectPayload::MovementAlarmWithIlluminanceEvent(u24_at(data, 0)))
            },
            0x0010u16 => {
                match ToothbrushEventType::spec_from_code(data[0]) {
                    Some(value) => Some(MiBeaconObjectPayload::ToothbrushEvent {
                        event_type: value,
                        score: if data.len() == 2 { Some(data[1]) } else { None },
                    }),
                    None => None,
                }
            },
            0x0011u16 => {
                match DoorbellCameraEvent::spec_from_code(data[0]) {
                    Some(value) => Some(MiBeaconObjectPayload::DoorbellCameraEvent(value)),
                    None => None,
                }
            },
            0x0012u16 => {
                match WeighingEventType::spec_from_code(data[2]) {
                    Some(value) => Some(MiBeaconObjectPayload::WeighingEvent {
                        weight: le_u16(data, 0),
                        weighing_type: value,
                    }),
                    None => None,
                }
            },
            0x1002u16 => {
                match SleepState::spec_from_code(data[0]) {
                    Some(value) => Some(MiBeaconObjectPayload::Sleep(value)),
                    None => None,
                }
            },
            0x1003u16 => {
                Some(MiBeaconObjectPayload::Rssi(data[0]))
            },
            0x1004u16 => {
                Some(MiBeaconObjectPayload::Temperature(le_i16(data, 0)))
            },
            0x1005u16 => {
                Some(MiBeaconObjectPayload::PowerAndTemperature {
                    power: data[0],
                    temperature: data[1],
                })
            },
            0x1006u16 => {
                Some(MiBeaconObjectPayload::Humidity(le_u16(data, 0)))
            },
            0x1007u16 => {
                Some(MiBeaconObjectPayload::Illuminance(u24_at(data, 0)))
            },
            0x1008u16 => {
                Some(MiBeaconObjectPayload::Moisture(data[0]))
            },
            0x1009u16 => {
                Some(MiBeaconObjectPayload::Conductivity(le_u16(data, 0)))
            },
            0x100Au16 => {
                Some(MiBeaconObjectPayload::BatteryPower(data[0]))
            },
            0x100Eu16 => {
                Some(MiBeaconObjectPayload::Lock(LockState { bits: data[0] }))
            },
            0x100Fu16 => {
                match DoorState::spec_from_code(data[0]) {
                    Some(value) => Some(MiBeaconObjectPayload::Door(value)),
                    None => None,
                }
            },
            0x1010u16 => {
                Some(MiBeaconObjectPayload::FormaldehydeConcentration(le_u16(data, 0)))
            },
            0x1011u16 => {
                match BindingState::spec_from_code(data[0]) {
                    Some(value) => Some(MiBeaconObjectPayload::Binding(value)),
                    None => None,
                }
            },
            0x1012u16 => {
                match SwitchState::spec_from_code(data[0]) {
                    Some(value) => Some(MiBeaconObjectPayload::Switch(value)),
                    None => None,
                }
            },
            0x1013u16 => {
                Some(MiBeaconObjectPayload::RemainingSupplies(data[0]))
            },
            0x1014u16 => {
                match WaterImmersionState::spec_from_code(data[0]) {
                    Some(value) => Some(MiBeaconObjectPayload::WaterImmersion(value)),
                    None => None,
                }
            },
            0x1015u16 => {
                match SmokeDetectionState::spec_from_code(data[0]) {
                    Some(value) => Some(MiBeaconObjectPayload::SmokeDetection(value)),
                    None => None,
                }
            },
            0x1016u16 => {
                match GasLeakageDetectionState::spec_from_code(data[0]) {
                    Some(value) => Some(MiBeaconObjectPayload::GasLeakageDetection(value)),
                    None => None,
                }
            },
            0x1017u16 => {
                Some(MiBeaconObjectPayload::TimeWithoutMotion(le_u32(data, 0)))
            },
            0x1018u16 => {
                match LightIntensityState::spec_from_code(data[0]) {
                    Some(value) => Some(MiBeaconObjectPayload::LightIntensity(value)),
                    None => None,
                }
            },
            0x1019u16 => {
                match DoorSensorState::spec_from_code(data[0]) {
                    Some(value) => Some(MiBeaconObjectPayload::DoorSensor(value)),
                    None => None,
                }
            },
            0x101Au16 => {
                Some(MiBeaconObjectPayload::Weight(le_u16(data, 0)))
            },
            0x101Bu16 => {
                match MovementDetectionState::spec_from_code(data[0]) {
                    Some(value) => Some(MiBeaconObjectPayload::MovementDetection(value)),
                    None => None,
                }
            },
            0x101Cu16 => {
                if data.len() == 1 {
                    let state = SmartPillowState::spec_from_code(data[0]);
                    Some(MiBeaconObjectPayload::SmartPillow(state))
                } else {
                    Some(MiBeaconObjectPayload::FormaldehydeConcentrationNew(le_u16(data, 0)))
                }
            },
            0x2000u16 => {
                Some(MiBeaconObjectPayload::BodyTemperature {
                    skin_temperature: le_u16(data, 0),
                    pcb_temperature: le_u16(data, 2),
                    battery_power: data[4],
                })
            },
            0x2001u16 => {
                match MiBandSleepState::spec_from_code(data[2]) {
                    Some(value) => Some(MiBeaconObjectPayload::MiBand {
                        step_count: le_u16(data, 0),
                        sleep: value,
                        rssi: data[3],
                    }),
                    None => None,
                }
            },
            0x2002u16 => {
                match RoidmiVacuumCleanerState::spec_from_code(data[0]) {
                    Some(value) => Some(MiBeaconObjectPayload::RoidmiVacuumCleaner {
                        status: value,
                        gear: data[1],
                    }),
                    None => None,
                }
            },
            0x2003u16 => {
                Some(MiBeaconObjectPayload::BlackPlusBracelet {
                    step_count: le_u16(data, 0),
                    heart_rate: data[2],
                    state: data[3],
                })
            },
            0x3000u16 => {
                match FlowerAndGrassDetectorEvent::spec_from_code(data[0]) {
                    Some(value) => Some(MiBeaconObjectPayload::FlowerAndGrassDetectorEvent(value)),
                    None => None,
                }
            },
            0x3001u16 => {
                match QuingpingSensorLocationEvent::spec_from_code(data[0]) {
                    Some(value) => Some(MiBeaconObjectPayload::QuingpingSensorLocationEvent(value)),
                    None => None,
                }
            },
            0x3002u16 => {
                match QuingpingPomodoroEvent::spec_from_code(data[0]) {
                    Some(value) => Some(MiBeaconObjectPayload::QuingpingPomodoroEvent(value)),
                    None => None,
                }
            },
            0x3003u16 => {
                match ToothbrushEventType::spec_from_code(data[0]) {
                    Some(value) => Some(MiBeaconObjectPayload::XiaobelToothbrushEvent {
                        event_type: value,
                        timestamp: le_u32(data, 1),
                        score: if data.len() == 6 { Some(data[5]) } else { None },
                    }),
                    None => None,
                }
            },
            _ => None,
        }
    }
}

/// Whether `p` is what an object of id `id` with value bytes `data` decodes to: the layout of
/// a recognized id, else the raw bytes.
pub open spec fn payload_decodes(id: u16, data: Seq<u8>, p: MiBeaconObjectPayload) -> bool {
    &&& length_accepted(id, data.len() as int)
    &&& match known_payload(id, data) {
        Some(k) => p == k,
        None => p is Unknown && p->Unknown_0@ == data,
    }
}

/// Decodes the bytes of a recognized object whose length its layout accepts.
fn decode_known(id: u16, data: &[u8]) -> (r: Option<MiBeaconObjectPayload>)
    requires
        is_known_id(id),
        length_accepted(id, data@.len() as int),
    ensures
        r == known_payload(id, data@),
{
    match id {
        0x0001u16 => {
            Some(MiBeaconObjectPayload::ConnectEvent(read_u16_le(data, 0)))
        },
        0x0002u16 => {
            Some(MiBeaconObjectPayload::SimplePairingEvent(read_u16_le(data, 0)))
        },
        0x0003u16 => {
            Some(MiBeaconObjectPayload::ProximityEvent(read_u16_le(data, 0)))
        },
        0x0004u16 => {
            Some(MiBeaconObjectPayload::KeepAwayEvent(read_u16_le(data, 0)))
        },
        0x0005u16 => {
            Some(MiBeaconObjectPayload::LockEventDeprecated(read_u16_le(data, 0)))
        },
        0x0006u16 => {
            match FingerprintEventMatchingResult::from_code(data[4]) {
                Some(value) => Some(MiBeaconObjectPayload::FingerprintEvent {
                    key_id: FingerprintEventKeyId::from_u32(read_u32_le(data, 0)),
                    matching_result: value,
                }),
                None => None,
            }
        },
        0x0007u16 => {
            match DoorEvent::from_code(data[0]) {
                Some(value) => Some(MiBeaconObjectPayload::DoorEvent(value)),
                None => None,
            }
        },
        0x0008u16 => {
            match ArmingEventStatus::from_code(data[0]) {
                Some(value) => Some(MiBeaconObjectPayload::ArmingEvent {
                    status: value,
                    timestamp: if data.len() == 5 { Some(read_u32_le(data, 1)) } else { None },
                }),
                None => None,
            }
        },
        0x0009u16 => {
            match Gesture::from_code(read_u16_le(data, 0)) {
                Some(value) => Some(MiBeaconObjectPayload::GestureEvent(value)),
                None => None,
            }
        },
        0x000Au16 => {
            Some(MiBeaconObjectPayload::BodyTemperatureEvent(read_i16_le(data, 0)))
        },
        0x000Bu16 => {
            Some(
                    MiBeaconObjectPayload::LockEvent(LockEvent {
                        operation: LockEventOperation { bits: data[0] },
                        key_id: read_u32_le(data, 1),
                        timestamp: read_u32_le(data, 5),
                    }),
                )
        },
        0x000Cu16 => {
            match FloodingAlarmEvent::from_code(data[0]) {
                Some(value) => Some(MiBeaconObjectPayload::FloodingAlarmEvent(value)),
                None => None,
            }
        },
        0x000Du16 => {
            match SmokeAlarmEvent::from_code(data[0]) {
                Some(value) => Some(MiBeaconObjectPayload::SmokeAlarmEvent(value)),
                None => None,
            }
        },
        0x000Eu16 => {
            match GasAlarmEvent::from_code(data[0]) {
                Some(value) => Some(MiBeaconObjectPayload::GasAlarmEvent(value)),
                None => None,
            }
        },
        0x000Fu16 => {
            Some(MiBeaconObjectPayload::MovementAlarmWithIlluminanceEvent(U24::read(data, 0)))
        },
        0x0010u16 => {
            match ToothbrushEventType::from_code(data[0]) {
                Some(value) => Some(MiBeaconObjectPayload::ToothbrushEvent {
                    event_type: value,
                    score: if data.len() == 2 { Some(data[1]) } else { None },
                }),
                None => None,
            }
        },
        0x0011u16 => {
            match DoorbellCameraEvent::from_code(data[0]) {
                Some(value) => Some(MiBeaconObjectPayload::DoorbellCameraEvent(value)),
                None => None,
            }
        },
        0x0012u16 => {
            match WeighingEventType::from_code(data[2]) {
                Some(value) => Some(MiBeaconObjectPayload::WeighingEvent {
                    weight: read_u16_le(data, 0),
                    weighing_type: value,
                }),
                None => None,
            }
        },
        0x1002u16 => {
            match SleepState::from_code(data[0]) {
                Some(value) => Some(MiBeaconObjectPayload::Sleep(value)),
                None => None,
            }
        },
        0x1003u16 => {
            Some(MiBeaconObjectPayload::Rssi(data[0]))
        },
        0x1004u16 => {
            Some(MiBeaconObjectPayload::Temperature(read_i16_le(data, 0)))
        },
        0x1005u16 => {
            Some(MiBeaconObjectPayload::PowerAndTemperature {
                power: data[0],
                temperature: data[1],
            })
        },
        0x1006u16 => {
            Some(MiBeaconObjectPayload::Humidity(read_u16_le(data, 0)))
        },
        0x1007u16 => {
            Some(MiBeaconObjectPayload::Illuminance(U24::read(data, 0)))
        },
        0x1008u16 => {
            Some(MiBeaconObjectPayload::Moisture(data[0]))
        },
        0x1009u16 => {
            Some(MiBeaconObjectPayload::Conductivity(read_u16_le(data, 0)))
        },
        0x100Au16 => {
            Some(MiBeaconObjectPayload::BatteryPower(data[0]))
        },
        0x100Eu16 => {
            Some(MiBeaconObjectPayload::Lock(LockState { bits: data[0] }))
        },
        0x100Fu16 => {
            match DoorState::from_code(data[0]) {
                Some(value) => Some(MiBeaconObjectPayload::Door(value)),
                None => None,
            }
        },
        0x1010u16 => {
            Some(MiBeaconObjectPayload::FormaldehydeConcentration(read_u16_le(data, 0)))
        },
        0x1011u16 => {
            match BindingState::from_code(data[0]) {
                Some(value) => Some(MiBeaconObjectPayload::Binding(value)),
                None => None,
            }
        },
        0x1012u16 => {
            match SwitchState::from_code(data[0]) {
                Some(value) => Some(MiBeaconObjectPayload::Switch(value)),
                None => None,
            }
        },
        0x1013u16 => {
            Some(MiBeaconObjectPayload::RemainingSupplies(data[0]))
        },
        0x1014u16 => {
            match WaterImmersionState::from_code(data[0]) {
                Some(value) => Some(MiBeaconObjectPayload::WaterImmersion(value)),
                None => None,
            }
        },
        0x1015u16 => {
            match SmokeDetectionState::from_code(data[0]) {
                Some(value) => Some(MiBeaconObjectPayload::SmokeDetection(value)),
                None => None,
            }
        },
        0x1016u16 => {
            match GasLeakageDetectionState::from_code(data[0]) {
                Some(value) => Some(MiBeaconObjectPayload::GasLeakageDetection(value)),
                None => None,
            }
        },
        0x1017u16 => {
            Some(MiBeaconObjectPayload::TimeWithoutMotion(read_u32_le(data, 0)))
        },
        0x1018u16 => {
            match LightIntensityState::from_code(data[0]) {
                Some(value) => Some(MiBeaconObjectPayload::LightIntensity(value)),
                None => None,
            }
        },
        0x1019u16 => {
            match DoorSensorState::from_code(data[0]) {
                Some(value) => Some(MiBeaconObjectPayload::DoorSensor(value)),
                None => None,
            }
        },
        0x101Au16 => {
            Some(MiBeaconObjectPayload::Weight(read_u16_le(data, 0)))
        },
        0x101Bu16 => {
            match MovementDetectionState::from_code(data[0]) {
                Some(value) => Some(MiBeaconObjectPayload::MovementDetection(value)),
                None => None,
            }
        },
        0x101Cu16 => {
            if data.len() == 1 {
                Some(MiBeaconObjectPayload::SmartPillow(SmartPillowState::from_code(data[0])))
            } else {
                Some(MiBeaconObjectPayload::FormaldehydeConcentrationNew(read_u16_le(data, 0)))
            }
        },
        0x2000u16 => {
            Some(MiBeaconObjectPayload::BodyTemperature {
                skin_temperature: read_u16_le(data, 0),
                pcb_temperature: read_u16_le(data, 2),
                battery_power: data[4],
            })
        },
        0x2001u16 => {
            match MiBandSleepState::from_code(data[2]) {
                Some(value) => Some(MiBeaconObjectPayload::MiBand {
                    step_count: read_u16_le(data, 0),
                    sleep: value,
                    rssi: data[3],
                }),
                None => None,
            }
        },
        0x2002u16 => {
            match RoidmiVacuumCleanerState::from_code(data[0]) {
                Some(value) => Some(MiBeaconObjectPayload::RoidmiVacuumCleaner {
                    status: value,
                    gear: data[1],
                }),
                None => None,
            }
        },
        0x2003u16 => {
            Some(MiBeaconObjectPayload::BlackPlusBracelet {
                step_count: read_u16_le(data, 0),
                heart_rate: data[2],
                state: data[3],
            })
        },
        0x3000u16 => {
            match FlowerAndGrassDetectorEvent::from_code(data[0]) {
                Some(value) => Some(MiBeaconObjectPayload::FlowerAndGrassDetectorEvent(value)),
                None => None,
            }
        },
        0x3001u16 => {
            match QuingpingSensorLocationEvent::from_code(data[0]) {
                Some(value) => Some(MiBeaconObjectPayload::QuingpingSensorLocationEvent(value)),
                None => None,
            }
        },
        0x3002u16 => {
            match QuingpingPomodoroEvent::from_code(data[0]) {
                Some(value) => Some(MiBeaconObjectPayload::QuingpingPomodoroEvent(value)),
                None => None,
            }
        },
        0x3003u16 => {
            match ToothbrushEventType::from_code(data[0]) {
                Some(value) => Some(MiBeaconObjectPayload::XiaobelToothbrushEvent {
                    event_type: value,
                    timestamp: read_u32_le(data, 1),
                    score: if data.len() == 6 { Some(data[5]) } else { None },
                }),
                None => None,
            }
        },
        _ => None,
    }
}

impl MiBeaconObjectPayload {
    /// Decodes the value bytes of an object of id `id`.
    ///
    /// An id that is not recognized always decodes, to its raw bytes; a recognized id fails
    /// exactly when the length is not one its layout allows.
    pub fn decode(id: u16, data: &[u8]) -> (r: Result<MiBeaconObjectPayload, ParseError>)
        requires
            data@.len() <= 255,
        ensures
            r is Ok <==> length_accepted(id, data@.len() as int),
            r matches Ok(p) ==> payload_decodes(id, data@, p),
            r matches Err(e) ==> e == ParseError::spec_invalid_length(id, data@.len() as u8),
    {
        match expected_lengths(id) {
            None => Ok(MiBeaconObjectPayload::Unknown(vstd::slice::slice_to_vec(data))),
            Some((a, b)) => {
                let len = data.len();
                if len != a as usize && len != b as usize {
                    Err(ParseError::invalid_length(id, len as u8))
                } else {
                    match decode_known(id, data) {
                        Some(p) => Ok(p),
                        None => Ok(MiBeaconObjectPayload::Unknown(vstd::slice::slice_to_vec(data))),
                    }
                }
            },
        }
    }
}

} // verus!
