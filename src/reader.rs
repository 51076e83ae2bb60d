//! The raw messages of the station's broadcast protocol, as already read off the
//! wire: each field where the protocol puts it, numbers not yet interpreted.

use vstd::prelude::*;

use crate::reading::Reading;

verus! {

/// Where each quantity stands in the slots of a raw observation.
pub const SLOT_TIMESTAMP: usize = 0;
pub const SLOT_WIND_LULL: usize = 1;
pub const SLOT_WIND_AVG: usize = 2;
pub const SLOT_WIND_GUST: usize = 3;
pub const SLOT_WIND_DIRECTION: usize = 4;
pub const SLOT_WIND_INTERVAL: usize = 5;
pub const SLOT_STATION_PRESSURE: usize = 6;
pub const SLOT_AIR_TEMPERATURE: usize = 7;
pub const SLOT_RELATIVE_HUMIDITY: usize = 8;
pub const SLOT_ILLUMINANCE: usize = 9;
pub const SLOT_ULTRAVIOLET_INDEX: usize = 10;
pub const SLOT_IRRADIANCE: usize = 11;
pub const SLOT_RAIN_LAST_MINUTE: usize = 12;
pub const SLOT_PRECIP_TYPE: usize = 13;
pub const SLOT_LIGHTNING_DISTANCE: usize = 14;
pub const SLOT_LIGHTNING_COUNT: usize = 15;
pub const SLOT_BATTERY_VOLTS: usize = 16;
pub const SLOT_REPORT_INTERVAL: usize = 17;
/// How many slots a raw observation has.
pub const OBSERVATION_SLOTS: usize = 18;

/// One raw message, told apart by the protocol's type tag.
#[derive(Debug)]
pub enum RawTempestMsg {
    /// `evt_precip`
    PrecipEvent(RawPrecipEvent),
    /// `evt_strike`
    StrikeEvent(RawStrikeEvent),
    /// `rapid_wind`
    RapidWind(RawRapidWind),
    /// `obs_st`
    Observation(RawObservation),
    /// `device_status`
    DeviceStatus(RawDeviceStatus),
    /// `hub_status`
    HubStatus(RawHubStatus),
}

/// Rain started; `evt` holds its Unix time.
#[derive(Debug)]
pub struct RawPrecipEvent {
    pub serial_number: String,
    pub hub_sn: String,
    pub evt: (i64,),
}

/// A lightning strike; `evt` holds its Unix time, distance and energy.
#[derive(Debug)]
pub struct RawStrikeEvent {
    pub serial_number: String,
    pub hub_sn: String,
    pub evt: (i64, Reading, Reading),
}

/// An instant wind reading; `ob` holds its Unix time, speed and source direction.
#[derive(Debug)]
pub struct RawRapidWind {
    pub serial_number: String,
    pub hub_sn: String,
    pub ob: (i64, Reading, Reading),
}

/// A periodic observation: one row of slots, any of which may be absent.
#[derive(Debug)]
pub struct RawObservation {
    pub serial_number: String,
    pub hub_sn: String,
    pub obs: [[Option<Reading>; 18]; 1],
    pub firmware_revision: i32,
}

#[derive(Debug)]
pub struct RawDeviceStatus {
    pub serial_number: String,
    pub hub_sn: String,
    pub timestamp: i64,
    pub uptime: i64,
    pub voltage: Reading,
    pub firmware_revision: i32,
    pub rssi: Reading,
    pub hub_rssi: Reading,
    pub sensor_status: u32,
    pub debug: i32,
}

#[derive(Debug)]
pub struct RawHubStatus {
    pub serial_number: String,
    pub firmware_revision: String,
    pub uptime: i64,
    pub rssi: Reading,
    pub timestamp: i64,
    pub reset_flags: String,
    pub seq: i32,
    pub radio_stats: [i32; 5],
}

impl RawObservation {
    /// What the observation holds in slot `index`.
    pub open spec fn slot_at(&self, index: int) -> Option<Reading> {
        self.obs[0][index]
    }

    pub fn slot(&self, index: usize) -> (r: Option<Reading>)
        requires
            index < OBSERVATION_SLOTS,
        ensures
            r == self.slot_at(index as int),
    {
        self.obs[0][index]
    }
}

} // verus!
