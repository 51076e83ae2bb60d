//! Decoding of raw messages into typed messages.

use vstd::prelude::*;

use crate::error::DecodeError;
use crate::flags::{all_reset_labels, is_reset_label_error, split_labels, ResetFlags, SensorStatus};
use crate::reader::{
    RawDeviceStatus, RawHubStatus, RawObservation, RawPrecipEvent, RawRapidWind, RawStrikeEvent,
    RawTempestMsg, SLOT_AIR_TEMPERATURE, SLOT_BATTERY_VOLTS, SLOT_ILLUMINANCE, SLOT_IRRADIANCE,
    SLOT_LIGHTNING_COUNT, SLOT_LIGHTNING_DISTANCE, SLOT_PRECIP_TYPE, SLOT_RAIN_LAST_MINUTE,
    SLOT_RELATIVE_HUMIDITY, SLOT_REPORT_INTERVAL, SLOT_STATION_PRESSURE, SLOT_TIMESTAMP,
    SLOT_ULTRAVIOLET_INDEX, SLOT_WIND_AVG, SLOT_WIND_DIRECTION, SLOT_WIND_GUST,
    SLOT_WIND_INTERVAL, SLOT_WIND_LULL,
};
use crate::reading::{truncate_to_i64, Reading, TimeSpan, Timestamp};

verus! {

/// Rain started.
#[derive(Debug)]
pub struct PrecipEvent {
    pub timestamp: Timestamp,
}

impl PrecipEvent {
    pub open spec fn of_raw(raw: RawPrecipEvent) -> PrecipEvent {
        PrecipEvent { timestamp: Timestamp { unix_seconds: raw.evt.0 } }
    }
}

impl From<RawPrecipEvent> for PrecipEvent {
    fn from(raw: RawPrecipEvent) -> Self {
        PrecipEvent { timestamp: Timestamp::from_unix_seconds(raw.evt.0) }
    }
}

impl vstd::std_specs::convert::FromSpecImpl<RawPrecipEvent> for PrecipEvent {
    open spec fn obeys_from_spec() -> bool {
        true
    }

    open spec fn from_spec(raw: RawPrecipEvent) -> Self {
        PrecipEvent::of_raw(raw)
    }
}

/// A lightning strike.
#[derive(Debug)]
pub struct StrikeEvent {
    pub timestamp: Timestamp,
    pub distance: Reading,
    pub energy: Reading,
}

impl StrikeEvent {
    pub open spec fn of_raw(raw: RawStrikeEvent) -> StrikeEvent {
        StrikeEvent {
            timestamp: Timestamp { unix_seconds: raw.evt.0 },
            distance: raw.evt.1,
            energy: raw.evt.2,
        }
    }
}

impl From<RawStrikeEvent> for StrikeEvent {
    fn from(raw: RawStrikeEvent) -> Self {
        StrikeEvent {
            timestamp: Timestamp::from_unix_seconds(raw.evt.0),
            distance: raw.evt.1,
            energy: raw.evt.2,
        }
    }
}

impl vstd::std_specs::convert::FromSpecImpl<RawStrikeEvent> for StrikeEvent {
    open spec fn obeys_from_spec() -> bool {
        true
    }

    open spec fn from_spec(raw: RawStrikeEvent) -> Self {
        StrikeEvent::of_raw(raw)
    }
}

/// A wind: its speed, and the direction it blows from, in degrees clockwise from
/// north. The direction is taken as given, with no check of its range.
#[derive(Debug, Clone, Copy, PartialEq, Eq, Structural)]
pub struct Wind {
    pub speed_magnitude: Reading,
    pub source_direction: Reading,
}

impl Wind {
    pub fn new(speed: Reading, dir: Reading) -> (r: Wind)
        ensures
            r == (Wind { speed_magnitude: speed, source_direction: dir }),
    {
        Wind { speed_magnitude: speed, source_direction: dir }
    }

    pub fn speed_magnitude(&self) -> (r: Reading)
        ensures
            r == self.speed_magnitude,
    {
        self.speed_magnitude
    }

    pub fn source_direction(&self) -> (r: Reading)
        ensures
            r == self.source_direction,
    {
        self.source_direction
    }
}

/// An instant wind reading.
#[derive(Debug)]
pub struct RapidWind {
    pub timestamp: Timestamp,
    pub wind: Wind,
}

impl RapidWind {
    pub open spec fn of_raw(raw: RawRapidWind) -> RapidWind {
        RapidWind {
            timestamp: Timestamp { unix_seconds: raw.ob.0 },
            wind: Wind { speed_magnitude: raw.ob.1, source_direction: raw.ob.2 },
        }
    }
}

impl From<RawRapidWind> for RapidWind {
    fn from(raw: RawRapidWind) -> Self {
        RapidWind {
            timestamp: Timestamp::from_unix_seconds(raw.ob.0),
            wind: Wind::new(raw.ob.1, raw.ob.2),
        }
    }
}

impl vstd::std_specs::convert::FromSpecImpl<RawRapidWind> for RapidWind {
    open spec fn obeys_from_spec() -> bool {
        true
    }

    open spec fn from_spec(raw: RawRapidWind) -> Self {
        RapidWind::of_raw(raw)
    }
}

/// What fell in the last minute.
#[derive(Debug, Clone, Copy, PartialEq, Eq, Structural)]
pub enum PrecipKind {
    NoPrecip,
    Rain,
    Hail,
    RainHail,
}

impl PrecipKind {
    /// The kind that a precipitation type code stands for, if any.
    pub open spec fn of_code(code: int) -> Option<PrecipKind> {
        if code == 0 {
            Some(PrecipKind::NoPrecip)
        } else if code == 1 {
            Some(PrecipKind::Rain)
        } else if code == 2 {
            Some(PrecipKind::Hail)
        } else if code == 3 {
            Some(PrecipKind::RainHail)
        } else {
            None
        }
    }

    pub fn from_code(code: i64) -> (r: Option<PrecipKind>)
        ensures
            r == PrecipKind::of_code(code as int),
    {
        match code {
            0 => Some(PrecipKind::NoPrecip),
            1 => Some(PrecipKind::Rain),
            2 => Some(PrecipKind::Hail),
            3 => Some(PrecipKind::RainHail),
            _ => None,
        }
    }
}

/// The wind over the observation's interval.
#[derive(Debug, Clone, Copy, PartialEq, Eq, Structural)]
pub struct WindObservation {
    pub lull: Wind,
    pub avg: Wind,
    pub gust: Wind,
    pub interval: TimeSpan,
}

#[derive(Debug, Clone, Copy, PartialEq, Eq, Structural)]
pub struct SolarObservation {
    pub illuminance: Reading,
    pub ultraviolet_index: Reading,
    pub irradiance: Reading,
}

#[derive(Debug, Clone, Copy, PartialEq, Eq, Structural)]
pub struct PrecipObservation {
    pub quantity_last_minute: Reading,
    pub kind: PrecipKind,
}

#[derive(Debug, Clone, Copy, PartialEq, Eq, Structural)]
pub struct LightningObservation {
    pub average_distance: Reading,
    pub count: i64,
}

/// A periodic observation. Each group, and each lone quantity, is present or absent
/// on its own; a group is present only when all its slots were.
#[derive(Debug, Clone, Copy, PartialEq, Eq, Structural)]
pub struct Observation {
    pub timestamp: Timestamp,
    pub wind: Option<WindObservation>,
    pub station_pressure: Option<Reading>,
    pub air_temperature: Option<Reading>,
    pub relative_humidity: Option<Reading>,
    pub solar: Option<SolarObservation>,
    pub precip: Option<PrecipObservation>,
    pub lightning: Option<LightningObservation>,
    pub battery_volts: Reading,
    pub report_interval: TimeSpan,
}

/// The integer that a reading truncates to, as a spec value.
pub open spec fn whole(r: Reading) -> i64 {
    truncate_to_i64(r.bits) as i64
}

impl WindObservation {
    /// The wind group of a raw observation: present only when its direction, lull,
    /// average, gust and interval all are.
    pub open spec fn of_slots(raw: RawObservation) -> Option<WindObservation> {
        match (
            raw.slot_at(SLOT_WIND_DIRECTION as int),
            raw.slot_at(SLOT_WIND_LULL as int),
            raw.slot_at(SLOT_WIND_AVG as int),
            raw.slot_at(SLOT_WIND_GUST as int),
            raw.slot_at(SLOT_WIND_INTERVAL as int),
        ) {
            (Some(dir), Some(lull), Some(avg), Some(gust), Some(interval)) => Some(
                WindObservation {
                    lull: Wind { speed_magnitude: lull, source_direction: dir },
                    avg: Wind { speed_magnitude: avg, source_direction: dir },
                    gust: Wind { speed_magnitude: gust, source_direction: dir },
                    interval: TimeSpan { seconds: whole(interval) as i128 },
                },
            ),
            _ => None,
        }
    }

    pub fn from_slots(raw: &RawObservation) -> (r: Option<WindObservation>)
        ensures
            r == WindObservation::of_slots(*raw),
    {
        match (
            raw.slot(SLOT_WIND_DIRECTION),
            raw.slot(SLOT_WIND_LULL),
            raw.slot(SLOT_WIND_AVG),
            raw.slot(SLOT_WIND_GUST),
            raw.slot(SLOT_WIND_INTERVAL),
        ) {
            (Some(dir), Some(lull), Some(avg), Some(gust), Some(interval)) => Some(
                WindObservation {
                    lull: Wind::new(lull, dir),
                    avg: Wind::new(avg, dir),
                    gust: Wind::new(gust, dir),
                    interval: TimeSpan::from_seconds(interval.truncate()),
                },
            ),
            _ => None,
        }
    }
}

impl SolarObservation {
    /// The solar group of a raw observation: present only when all three of its
    /// quantities are.
    pub open spec fn of_slots(raw: RawObservation) -> Option<SolarObservation> {
        match (
            raw.slot_at(SLOT_ILLUMINANCE as int),
            raw.slot_at(SLOT_ULTRAVIOLET_INDEX as int),
            raw.slot_at(SLOT_IRRADIANCE as int),
        ) {
            (Some(illuminance), Some(ultraviolet_index), Some(irradiance)) => Some(
                SolarObservation { illuminance, ultraviolet_index, irradiance },
            ),
            _ => None,
        }
    }

    pub fn from_slots(raw: &RawObservation) -> (r: Option<SolarObservation>)
        ensures
            r == SolarObservation::of_slots(*raw),
    {
        match (raw.slot(SLOT_ILLUMINANCE), raw.slot(SLOT_ULTRAVIOLET_INDEX), raw.slot(SLOT_IRRADIANCE)) {
            (Some(illuminance), Some(ultraviolet_index), Some(irradiance)) => Some(
                SolarObservation { illuminance, ultraviolet_index, irradiance },
            ),
            _ => None,
        }
    }
}

impl PrecipObservation {
    /// The precipitation group of a raw observation: absent unless both its quantity
    /// and its type code are present, and an error where the code stands for no kind.
    pub open spec fn of_slots(raw: RawObservation) -> Result<Option<PrecipObservation>, DecodeError> {
        match (raw.slot_at(SLOT_RAIN_LAST_MINUTE as int), raw.slot_at(SLOT_PRECIP_TYPE as int)) {
            (Some(quantity), Some(code)) => match PrecipKind::of_code(whole(code) as int) {
                Some(kind) => Ok(Some(PrecipObservation { quantity_last_minute: quantity, kind })),
                None => Err(DecodeError::UnrecognizedPrecipType { code: whole(code) }),
            },
            _ => Ok(None),
        }
    }

    pub fn from_slots(raw: &RawObservation) -> (r: Result<Option<PrecipObservation>, DecodeError>)
        ensures
            r == PrecipObservation::of_slots(*raw),
    {
        match (raw.slot(SLOT_RAIN_LAST_MINUTE), raw.slot(SLOT_PRECIP_TYPE)) {
            (Some(quantity), Some(code)) => {
                let code = code.truncate();
                match PrecipKind::from_code(code) {
                    Some(kind) => Ok(Some(PrecipObservation { quantity_last_minute: quantity, kind })),
                    None => Err(DecodeError::UnrecognizedPrecipType { code }),
                }
            },
            _ => Ok(None),
        }
    }
}

impl LightningObservation {
    /// The lightning group of a raw observation: present only when both the average
    /// distance and the strike count are.
    pub open spec fn of_slots(raw: RawObservation) -> Option<LightningObservation> {
        match (raw.slot_at(SLOT_LIGHTNING_DISTANCE as int), raw.slot_at(SLOT_LIGHTNING_COUNT as int)) {
            (Some(average_distance), Some(count)) => Some(
                LightningObservation { average_distance, count: whole(count) },
            ),
            _ => None,
        }
    }

    pub fn from_slots(raw: &RawObservation) -> (r: Option<LightningObservation>)
        ensures
            r == LightningObservation::of_slots(*raw),
    {
        match (raw.slot(SLOT_LIGHTNING_DISTANCE), raw.slot(SLOT_LIGHTNING_COUNT)) {
            (Some(average_distance), Some(count)) => Some(
                LightningObservation { average_distance, count: count.truncate() },
            ),
            _ => None,
        }
    }
}

impl Observation {
    /// The observation that a raw observation decodes to, or why it does not: its
    /// timestamp, battery voltage and report interval are required, and a present
    /// precipitation group must carry a known type code.
    pub open spec fn of_raw(raw: RawObservation) -> Result<Observation, DecodeError> {
        match raw.slot_at(SLOT_TIMESTAMP as int) {
            None => Err(DecodeError::MissingTimestamp),
            Some(timestamp) => match PrecipObservation::of_slots(raw) {
                Err(e) => Err(e),
                Ok(precip) => match raw.slot_at(SLOT_BATTERY_VOLTS as int) {
                    None => Err(DecodeError::MissingBatteryVoltage),
                    Some(battery_volts) => match raw.slot_at(SLOT_REPORT_INTERVAL as int) {
                        None => Err(DecodeError::MissingReportInterval),
                        Some(interval) => Ok(
                            Observation {
                                timestamp: Timestamp { unix_seconds: whole(timestamp) },
                                wind: WindObservation::of_slots(raw),
                                station_pressure: raw.slot_at(SLOT_STATION_PRESSURE as int),
                                air_temperature: raw.slot_at(SLOT_AIR_TEMPERATURE as int),
                                relative_humidity: raw.slot_at(SLOT_RELATIVE_HUMIDITY as int),
                                solar: SolarObservation::of_slots(raw),
                                precip,
                                lightning: LightningObservation::of_slots(raw),
                                battery_volts,
                                report_interval: TimeSpan { seconds: (whole(interval) * 60) as i128 },
                            },
                        ),
                    },
                },
            },
        }
    }
}

impl Observation {
    /// The station pressure and air temperature, where both are present: the inputs
    /// of the barometric pressure.
    pub fn pressure_inputs(&self) -> (r: Option<(Reading, Reading)>)
        ensures
            r == match (self.station_pressure, self.air_temperature) {
                (Some(pressure), Some(temperature)) => Some((pressure, temperature)),
                _ => None,
            },
    {
        match (self.station_pressure, self.air_temperature) {
            (Some(pressure), Some(temperature)) => Some((pressure, temperature)),
            _ => None,
        }
    }

    /// The air temperature and relative humidity, where both are present: the inputs
    /// of the actual vapor pressure, the dew point and the wet-bulb temperature.
    pub fn humidity_inputs(&self) -> (r: Option<(Reading, Reading)>)
        ensures
            r == match (self.air_temperature, self.relative_humidity) {
                (Some(temperature), Some(humidity)) => Some((temperature, humidity)),
                _ => None,
            },
    {
        match (self.air_temperature, self.relative_humidity) {
            (Some(temperature), Some(humidity)) => Some((temperature, humidity)),
            _ => None,
        }
    }

    /// The air temperature, relative humidity, average wind speed and solar
    /// irradiance, where all are present: the inputs of the apparent temperature.
    pub fn apparent_inputs(&self) -> (r: Option<(Reading, Reading, Reading, Reading)>)
        ensures
            r == match (self.air_temperature, self.relative_humidity, self.wind, self.solar) {
                (Some(temperature), Some(humidity), Some(wind), Some(solar)) => Some(
                    (temperature, humidity, wind.avg.speed_magnitude, solar.irradiance),
                ),
                _ => None,
            },
    {
        match (self.air_temperature, self.relative_humidity, self.wind, self.solar) {
            (Some(temperature), Some(humidity), Some(wind), Some(solar)) => Some(
                (temperature, humidity, wind.avg.speed_magnitude(), solar.irradiance),
            ),
            _ => None,
        }
    }
}

impl TryFrom<RawObservation> for Observation {
    type Error = (RawObservation, DecodeError);

    fn try_from(raw: RawObservation) -> Result<Self, Self::Error> {
        let timestamp = match raw.slot(SLOT_TIMESTAMP) {
            Some(seconds) => Timestamp::from_unix_seconds(seconds.truncate()),
            None => return Err((raw, DecodeError::MissingTimestamp)),
        };
        let wind = WindObservation::from_slots(&raw);
        let solar = SolarObservation::from_slots(&raw);
        let precip = match PrecipObservation::from_slots(&raw) {
            Ok(precip) => precip,
            Err(e) => return Err((raw, e)),
        };
        let lightning = LightningObservation::from_slots(&raw);
        let battery_volts = match raw.slot(SLOT_BATTERY_VOLTS) {
            Some(volts) => volts,
            None => return Err((raw, DecodeError::MissingBatteryVoltage)),
        };
        let report_interval = match raw.slot(SLOT_REPORT_INTERVAL) {
            Some(minutes) => TimeSpan::from_minutes(minutes.truncate()),
            None => return Err((raw, DecodeError::MissingReportInterval)),
        };
        Ok(
            Observation {
                timestamp,
                wind,
                station_pressure: raw.slot(SLOT_STATION_PRESSURE),
                air_temperature: raw.slot(SLOT_AIR_TEMPERATURE),
                relative_humidity: raw.slot(SLOT_RELATIVE_HUMIDITY),
                solar,
                precip,
                lightning,
                battery_volts,
                report_interval,
            },
        )
    }
}

impl vstd::std_specs::convert::TryFromSpecImpl<RawObservation> for Observation {
    open spec fn obeys_try_from_spec() -> bool {
        true
    }

    open spec fn try_from_spec(raw: RawObservation) -> Result<Self, Self::Error> {
        match Observation::of_raw(raw) {
            Ok(obs) => Ok(obs),
            Err(e) => Err((raw, e)),
        }
    }
}

/// A station's status report.
#[derive(Debug)]
pub struct DeviceStatus {
    pub serial_number: String,
    pub hub_serial_number: String,
    pub timestamp: Timestamp,
    pub uptime: TimeSpan,
    pub voltage: Reading,
    pub firmware_revision: i32,
    pub rssi: Reading,
    pub hub_rssi: Reading,
    pub sensor_status: SensorStatus,
    pub debug: bool,
}

impl DeviceStatus {
    pub open spec fn of_raw(raw: RawDeviceStatus) -> DeviceStatus {
        DeviceStatus {
            serial_number: raw.serial_number,
            hub_serial_number: raw.hub_sn,
            timestamp: Timestamp { unix_seconds: raw.timestamp },
            uptime: TimeSpan { seconds: raw.uptime as i128 },
            voltage: raw.voltage,
            firmware_revision: raw.firmware_revision,
            rssi: raw.rssi,
            hub_rssi: raw.hub_rssi,
            sensor_status: SensorStatus::of_field(raw.sensor_status),
            debug: raw.debug == 1,
        }
    }
}

impl From<RawDeviceStatus> for DeviceStatus {
    fn from(raw: RawDeviceStatus) -> Self {
        DeviceStatus {
            serial_number: raw.serial_number,
            hub_serial_number: raw.hub_sn,
            timestamp: Timestamp::from_unix_seconds(raw.timestamp),
            uptime: TimeSpan::from_seconds(raw.uptime),
            voltage: raw.voltage,
            firmware_revision: raw.firmware_revision,
            rssi: raw.rssi,
            hub_rssi: raw.hub_rssi,
            sensor_status: SensorStatus::from(raw.sensor_status),
            debug: raw.debug == 1,
        }
    }
}

impl vstd::std_specs::convert::FromSpecImpl<RawDeviceStatus> for DeviceStatus {
    open spec fn obeys_from_spec() -> bool {
        true
    }

    open spec fn from_spec(raw: RawDeviceStatus) -> Self {
        DeviceStatus::of_raw(raw)
    }
}

/// The hub's status report.
#[derive(Debug)]
pub struct HubStatus {
    pub serial_number: String,
    pub firmware_revision: String,
    pub uptime: TimeSpan,
    pub rssi: Reading,
    pub timestamp: Timestamp,
    pub reset_flags: ResetFlags,
    pub seq: i32,
}

impl HubStatus {
    /// The status a raw hub status decodes to, given the flags its labels list.
    pub open spec fn of_raw(raw: RawHubStatus, reset_flags: ResetFlags) -> HubStatus {
        HubStatus {
            serial_number: raw.serial_number,
            firmware_revision: raw.firmware_revision,
            uptime: TimeSpan { seconds: raw.uptime as i128 },
            rssi: raw.rssi,
            timestamp: Timestamp { unix_seconds: raw.timestamp },
            reset_flags,
            seq: raw.seq,
        }
    }

    /// Whether the reset flags of a raw hub status decode.
    pub open spec fn decodes(raw: RawHubStatus) -> bool {
        all_reset_labels(split_labels(raw.reset_flags@))
    }

    /// Decodes a raw hub status; it is rejected, and handed back unchanged, where its
    /// reset flags hold a label that names no cause.
    pub fn decode(raw: RawHubStatus) -> (r: Result<HubStatus, (RawHubStatus, DecodeError)>)
        ensures
            r is Ok <==> HubStatus::decodes(raw),
            r matches Ok(status) ==> status == HubStatus::of_raw(
                raw,
                ResetFlags::of_labels(split_labels(raw.reset_flags@)),
            ),
            r matches Err((back, e)) ==> back == raw && is_reset_label_error(raw.reset_flags@, e),
    {
        let reset_flags = match ResetFlags::parse(raw.reset_flags.as_str()) {
            Ok(flags) => flags,
            Err(e) => return Err((raw, e)),
        };
        Ok(
            HubStatus {
                serial_number: raw.serial_number,
                firmware_revision: raw.firmware_revision,
                uptime: TimeSpan::from_seconds(raw.uptime),
                rssi: raw.rssi,
                timestamp: Timestamp::from_unix_seconds(raw.timestamp),
                reset_flags,
                seq: raw.seq,
            },
        )
    }
}

/// A decoded message, one variant per kind of raw message.
#[derive(Debug)]
pub enum TempestMsg {
    PrecipEvent(PrecipEvent),
    StrikeEvent(StrikeEvent),
    RapidWind(RapidWind),
    Observation(Observation),
    DeviceStatus(DeviceStatus),
    HubStatus(HubStatus),
}

impl TempestMsg {
    /// The message a raw message decodes to, or `None` where it is rejected.
    pub open spec fn decoded(raw: RawTempestMsg) -> Option<TempestMsg> {
        match raw {
            RawTempestMsg::PrecipEvent(r) => Some(TempestMsg::PrecipEvent(PrecipEvent::of_raw(r))),
            RawTempestMsg::StrikeEvent(r) => Some(TempestMsg::StrikeEvent(StrikeEvent::of_raw(r))),
            RawTempestMsg::RapidWind(r) => Some(TempestMsg::RapidWind(RapidWind::of_raw(r))),
            RawTempestMsg::Observation(r) => match Observation::of_raw(r) {
                Ok(obs) => Some(TempestMsg::Observation(obs)),
                Err(_) => None,
            },
            RawTempestMsg::DeviceStatus(r) => Some(
                TempestMsg::DeviceStatus(DeviceStatus::of_raw(r)),
            ),
            RawTempestMsg::HubStatus(r) => if HubStatus::decodes(r) {
                Some(
                    TempestMsg::HubStatus(
                        HubStatus::of_raw(r, ResetFlags::of_labels(split_labels(r.reset_flags@))),
                    ),
                )
            } else {
                None
            },
        }
    }

    /// `e` is the error that rejects `raw`.
    pub open spec fn is_decode_error(raw: RawTempestMsg, e: DecodeError) -> bool {
        match raw {
            RawTempestMsg::Observation(r) => Observation::of_raw(r) == Err::<Observation, DecodeError>(e),
            RawTempestMsg::HubStatus(r) => is_reset_label_error(r.reset_flags@, e),
            _ => false,
        }
    }

    /// The messages that a sequence of raw messages decodes to, in order; each raw
    /// message that is rejected is left out.
    pub open spec fn decoded_all(raws: Seq<RawTempestMsg>) -> Seq<TempestMsg>
        decreases raws.len(),
    {
        if raws.len() == 0 {
            Seq::empty()
        } else {
            let before = TempestMsg::decoded_all(raws.drop_last());
            match TempestMsg::decoded(raws.last()) {
                Some(msg) => before.push(msg),
                None => before,
            }
        }
    }

    /// Decodes one raw message. Events, instant winds and station status reports
    /// always decode; a rejected observation or hub status is handed back unchanged
    /// with the error.
    pub fn decode(raw: RawTempestMsg) -> (r: Result<TempestMsg, (RawTempestMsg, DecodeError)>)
        ensures
            r is Ok <==> TempestMsg::decoded(raw) is Some,
            r matches Ok(msg) ==> TempestMsg::decoded(raw) == Some(msg),
            r matches Err((back, e)) ==> back == raw && TempestMsg::is_decode_error(raw, e),
    {
        match raw {
            RawTempestMsg::PrecipEvent(r) => Ok(TempestMsg::PrecipEvent(PrecipEvent::from(r))),
            RawTempestMsg::StrikeEvent(r) => Ok(TempestMsg::StrikeEvent(StrikeEvent::from(r))),
            RawTempestMsg::RapidWind(r) => Ok(TempestMsg::RapidWind(RapidWind::from(r))),
            RawTempestMsg::Observation(r) => match Observation::try_from(r) {
                Ok(obs) => Ok(TempestMsg::Observation(obs)),
                Err((r, e)) => Err((RawTempestMsg::Observation(r), e)),
            },
            RawTempestMsg::DeviceStatus(r) => Ok(TempestMsg::DeviceStatus(DeviceStatus::from(r))),
            RawTempestMsg::HubStatus(r) => match HubStatus::decode(r) {
                Ok(status) => Ok(TempestMsg::HubStatus(status)),
                Err((r, e)) => Err((RawTempestMsg::HubStatus(r), e)),
            },
        }
    }

    /// Decodes a batch of raw messages in order, leaving out each one that is rejected;
    /// a rejected message does not stop the ones after it.
    pub fn decode_all(raws: Vec<RawTempestMsg>) -> (r: Vec<TempestMsg>)
        ensures
            r@ == TempestMsg::decoded_all(raws@),
    {
        let ghost all = raws@;
        let mut rest = raws;
        let mut out: Vec<TempestMsg> = Vec::new();
        let ghost done: int = 0;
        assert(all.subrange(0, 0) =~= Seq::<RawTempestMsg>::empty());
        while rest.len() > 0
            invariant
                0 <= done <= all.len(),
                rest@ == all.subrange(done, all.len() as int),
                out@ == TempestMsg::decoded_all(all.subrange(0, done)),
            decreases rest@.len(),
        {
            let raw = rest.remove(0);
            proof {
                assert(all.subrange(0, done + 1).drop_last() =~= all.subrange(0, done));
                assert(all.subrange(0, done + 1).last() == raw);
            }
            match TempestMsg::decode(raw) {
                Ok(msg) => out.push(msg),
                Err(_) => {},
            }
            proof {
                done = done + 1;
                assert(rest@ =~= all.subrange(done, all.len() as int));
            }
        }
        assert(all.subrange(0, all.len() as int) =~= all);
        out
    }
}

/// Decoding a concatenation decodes each part on its own.
pub proof fn lemma_decoded_all_concat(first: Seq<RawTempestMsg>, second: Seq<RawTempestMsg>)
    ensures
        TempestMsg::decoded_all(first + second) == TempestMsg::decoded_all(first)
            + TempestMsg::decoded_all(second),
    decreases second.len(),
{
    if second.len() == 0 {
        assert(first + second =~= first);
        assert(TempestMsg::decoded_all(first) + TempestMsg::decoded_all(second) =~= TempestMsg::decoded_all(first));
    } else {
        lemma_decoded_all_concat(first, second.drop_last());
        assert((first + second).drop_last() =~= first + second.drop_last());
        assert((first + second).last() == second.last());
        let left = TempestMsg::decoded_all(first);
        let right = TempestMsg::decoded_all(second.drop_last());
        match TempestMsg::decoded(second.last()) {
            Some(msg) => {
                assert((left + right).push(msg) =~= left + right.push(msg));
            },
            None => {},
        }
    }
}

/// A message that is rejected is dropped from the decoded sequence, and the messages
/// after it decode as if it had never been sent.
pub proof fn lemma_rejected_message_is_skipped(
    before: Seq<RawTempestMsg>,
    rejected: RawTempestMsg,
    after: Seq<RawTempestMsg>,
)
    requires
        TempestMsg::decoded(rejected) is None,
    ensures
        TempestMsg::decoded_all(before.push(rejected) + after) == TempestMsg::decoded_all(before)
            + TempestMsg::decoded_all(after),
{
    lemma_decoded_all_concat(before.push(rejected), after);
    assert(before.push(rejected).drop_last() =~= before);
}

/// An observation whose precipitation group is present but whose type code names no
/// kind is rejected, whatever else it holds; where its timestamp is there, the error
/// names that code.
pub proof fn lemma_unknown_precip_code_rejects(raw: RawObservation)
    requires
        raw.slot_at(SLOT_RAIN_LAST_MINUTE as int) is Some,
        raw.slot_at(SLOT_PRECIP_TYPE as int) matches Some(code) && PrecipKind::of_code(
            whole(code) as int,
        ) is None,
    ensures
        Observation::of_raw(raw) is Err,
        raw.slot_at(SLOT_TIMESTAMP as int) is Some ==> Observation::of_raw(raw) == Err::<
            Observation,
            DecodeError,
        >(DecodeError::UnrecognizedPrecipType { code: whole(raw.slot_at(SLOT_PRECIP_TYPE as int)->0) }),
        TempestMsg::decoded(RawTempestMsg::Observation(raw)) is None,
{
}

/// Without its direction the wind group is left out as a whole, even where its
/// lull, average and gust are there; the observation itself decodes or not on its
/// required slots and its precipitation code alone.
pub proof fn lemma_wind_without_direction_is_absent(raw: RawObservation)
    requires
        raw.slot_at(SLOT_WIND_DIRECTION as int) is None,
    ensures
        WindObservation::of_slots(raw) is None,
        Observation::of_raw(raw) is Ok <==> {
            &&& raw.slot_at(SLOT_TIMESTAMP as int) is Some
            &&& PrecipObservation::of_slots(raw) is Ok
            &&& raw.slot_at(SLOT_BATTERY_VOLTS as int) is Some
            &&& raw.slot_at(SLOT_REPORT_INTERVAL as int) is Some
        },
        Observation::of_raw(raw) matches Ok(obs) ==> obs.wind is None,
{
}

} // verus!
