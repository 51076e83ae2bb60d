use tempest_exporter::decoder::{
    DeviceStatus, Observation, PrecipEvent, PrecipKind, RapidWind, StrikeEvent, TempestMsg, Wind,
};
use tempest_exporter::error::DecodeError;
use tempest_exporter::reader::{
    RawDeviceStatus, RawHubStatus, RawObservation, RawPrecipEvent, RawRapidWind, RawStrikeEvent,
    RawTempestMsg,
};
use tempest_exporter::reading::Reading;

fn r(x: f64) -> Reading {
    Reading::from_bits(x.to_bits())
}

fn raw_observation(slots: [Option<f64>; 18]) -> RawObservation {
    RawObservation {
        serial_number: "ST-00000512".to_string(),
        hub_sn: "HB-00013030".to_string(),
        obs: [slots.map(|s| s.map(r))],
        firmware_revision: 129,
    }
}

fn full_slots() -> [Option<f64>; 18] {
    [
        Some(1588948614.0),
        Some(0.18),
        Some(0.22),
        Some(0.27),
        Some(144.0),
        Some(6.0),
        Some(1017.57),
        Some(22.37),
        Some(50.26),
        Some(328.0),
        Some(0.03),
        Some(3.0),
        Some(0.000000),
        Some(0.0),
        Some(0.0),
        Some(0.0),
        Some(2.410),
        Some(1.0),
    ]
}

fn raw_hub_status(reset_flags: &str) -> RawHubStatus {
    RawHubStatus {
        serial_number: "HB-00000001".to_string(),
        firmware_revision: "35".to_string(),
        uptime: 1670133,
        rssi: r(-62.0),
        timestamp: 1495724691,
        reset_flags: reset_flags.to_string(),
        seq: 48,
        radio_stats: [2, 1, 0, 3, 2839],
    }
}

#[test]
fn observation_decodes_every_group() {
    let obs = Observation::try_from(raw_observation(full_slots())).unwrap();
    assert_eq!(obs.timestamp.unix_seconds, 1588948614);
    let wind = obs.wind.unwrap();
    assert_eq!(wind.lull, Wind::new(r(0.18), r(144.0)));
    assert_eq!(wind.avg, Wind::new(r(0.22), r(144.0)));
    assert_eq!(wind.gust, Wind::new(r(0.27), r(144.0)));
    assert_eq!(wind.interval.seconds, 6);
    assert_eq!(obs.station_pressure, Some(r(1017.57)));
    assert_eq!(obs.air_temperature, Some(r(22.37)));
    assert_eq!(obs.relative_humidity, Some(r(50.26)));
    let solar = obs.solar.unwrap();
    assert_eq!(solar.illuminance, r(328.0));
    assert_eq!(solar.ultraviolet_index, r(0.03));
    assert_eq!(solar.irradiance, r(3.0));
    let precip = obs.precip.unwrap();
    assert_eq!(precip.quantity_last_minute, r(0.0));
    assert_eq!(precip.kind, PrecipKind::NoPrecip);
    let lightning = obs.lightning.unwrap();
    assert_eq!(lightning.average_distance, r(0.0));
    assert_eq!(lightning.count, 0);
    assert_eq!(obs.battery_volts, r(2.41));
    assert_eq!(obs.report_interval.seconds, 60);
}

#[test]
fn observation_precip_kinds() {
    let kinds = [
        (0.0, PrecipKind::NoPrecip),
        (1.0, PrecipKind::Rain),
        (2.0, PrecipKind::Hail),
        (3.0, PrecipKind::RainHail),
    ];
    for (code, kind) in kinds {
        let mut slots = full_slots();
        slots[12] = Some(0.25);
        slots[13] = Some(code);
        let obs = Observation::try_from(raw_observation(slots)).unwrap();
        let precip = obs.precip.unwrap();
        assert_eq!(precip.kind, kind);
        assert_eq!(precip.quantity_last_minute, r(0.25));
    }
}

#[test]
fn observation_unknown_precip_code_is_rejected_unchanged() {
    let mut slots = full_slots();
    slots[13] = Some(9.0);
    let (back, err) = Observation::try_from(raw_observation(slots)).unwrap_err();
    assert_eq!(err, DecodeError::UnrecognizedPrecipType { code: 9 });
    assert_eq!(back.obs, raw_observation(slots).obs);
    assert_eq!(back.serial_number, "ST-00000512");
    assert_eq!(back.hub_sn, "HB-00013030");
    assert_eq!(back.firmware_revision, 129);
}

#[test]
fn stream_goes_on_after_rejected_observation() {
    let mut bad = full_slots();
    bad[13] = Some(9.0);
    let decoded = TempestMsg::decode_all(vec![
        RawTempestMsg::Observation(raw_observation(bad)),
        RawTempestMsg::Observation(raw_observation(full_slots())),
    ]);
    assert_eq!(decoded.len(), 1);
    match &decoded[0] {
        TempestMsg::Observation(obs) => assert_eq!(obs.timestamp.unix_seconds, 1588948614),
        other => panic!("unexpected message {:?}", other),
    }
}

#[test]
fn observation_without_wind_direction_has_no_wind() {
    let mut slots = full_slots();
    slots[4] = None;
    let obs = Observation::try_from(raw_observation(slots)).unwrap();
    assert!(obs.wind.is_none());
    assert!(obs.solar.is_some());
    assert_eq!(obs.air_temperature, Some(r(22.37)));
}

#[test]
fn observation_groups_are_all_or_nothing() {
    let mut slots = full_slots();
    slots[5] = None;
    slots[10] = None;
    slots[12] = None;
    slots[15] = None;
    let obs = Observation::try_from(raw_observation(slots)).unwrap();
    assert!(obs.wind.is_none());
    assert!(obs.solar.is_none());
    assert!(obs.precip.is_none());
    assert!(obs.lightning.is_none());
}

#[test]
fn observation_missing_code_skips_precip_check() {
    let mut slots = full_slots();
    slots[12] = None;
    slots[13] = Some(9.0);
    let obs = Observation::try_from(raw_observation(slots)).unwrap();
    assert!(obs.precip.is_none());
}

#[test]
fn observation_lone_quantities_may_be_absent() {
    let mut slots = full_slots();
    slots[6] = None;
    slots[8] = None;
    let obs = Observation::try_from(raw_observation(slots)).unwrap();
    assert_eq!(obs.station_pressure, None);
    assert_eq!(obs.air_temperature, Some(r(22.37)));
    assert_eq!(obs.relative_humidity, None);
    assert_eq!(obs.pressure_inputs(), None);
    assert_eq!(obs.humidity_inputs(), None);
    assert_eq!(obs.apparent_inputs(), None);
}

#[test]
fn observation_missing_timestamp_is_rejected() {
    let mut slots = full_slots();
    slots[0] = None;
    let (_, err) = Observation::try_from(raw_observation(slots)).unwrap_err();
    assert_eq!(err, DecodeError::MissingTimestamp);
}

#[test]
fn observation_missing_battery_is_rejected() {
    let mut slots = full_slots();
    slots[16] = None;
    let (_, err) = Observation::try_from(raw_observation(slots)).unwrap_err();
    assert_eq!(err, DecodeError::MissingBatteryVoltage);
}

#[test]
fn observation_missing_report_interval_is_rejected() {
    let mut slots = full_slots();
    slots[17] = None;
    let (_, err) = Observation::try_from(raw_observation(slots)).unwrap_err();
    assert_eq!(err, DecodeError::MissingReportInterval);
}

#[test]
fn observation_timestamp_is_checked_first() {
    let mut slots = full_slots();
    slots[0] = None;
    slots[13] = Some(9.0);
    slots[16] = None;
    let (_, err) = Observation::try_from(raw_observation(slots)).unwrap_err();
    assert_eq!(err, DecodeError::MissingTimestamp);
}

#[test]
fn observation_whole_numbers_are_truncated() {
    let mut slots = full_slots();
    slots[0] = Some(1588948614.9);
    slots[5] = Some(6.7);
    slots[15] = Some(3.2);
    slots[17] = Some(2.9);
    let obs = Observation::try_from(raw_observation(slots)).unwrap();
    assert_eq!(obs.timestamp.unix_seconds, 1588948614);
    assert_eq!(obs.wind.unwrap().interval.seconds, 6);
    assert_eq!(obs.lightning.unwrap().count, 3);
    assert_eq!(obs.report_interval.seconds, 120);
}

#[test]
fn observation_inputs_of_derived_quantities() {
    let obs = Observation::try_from(raw_observation(full_slots())).unwrap();
    assert_eq!(obs.pressure_inputs(), Some((r(1017.57), r(22.37))));
    assert_eq!(obs.humidity_inputs(), Some((r(22.37), r(50.26))));
    assert_eq!(obs.apparent_inputs(), Some((r(22.37), r(50.26), r(0.22), r(3.0))));
}

#[test]
fn decode_precip_event() {
    let raw = RawTempestMsg::PrecipEvent(RawPrecipEvent {
        serial_number: "SK-00008453".to_string(),
        hub_sn: "HB-00000001".to_string(),
        evt: (1493322445,),
    });
    match TempestMsg::decode(raw).unwrap() {
        TempestMsg::PrecipEvent(PrecipEvent { timestamp }) => {
            assert_eq!(timestamp.unix_seconds, 1493322445)
        }
        other => panic!("unexpected message {:?}", other),
    }
}

#[test]
fn decode_strike_event() {
    let raw = RawTempestMsg::StrikeEvent(RawStrikeEvent {
        serial_number: "AR-00004049".to_string(),
        hub_sn: "HB-00000001".to_string(),
        evt: (1493322445, r(27.0), r(3848.0)),
    });
    match TempestMsg::decode(raw).unwrap() {
        TempestMsg::StrikeEvent(StrikeEvent { timestamp, distance, energy }) => {
            assert_eq!(timestamp.unix_seconds, 1493322445);
            assert_eq!(distance, r(27.0));
            assert_eq!(energy, r(3848.0));
        }
        other => panic!("unexpected message {:?}", other),
    }
}

#[test]
fn decode_rapid_wind() {
    let raw = RawTempestMsg::RapidWind(RawRapidWind {
        serial_number: "SK-00008453".to_string(),
        hub_sn: "HB-00000001".to_string(),
        ob: (1493322445, r(2.3), r(128.0)),
    });
    match TempestMsg::decode(raw).unwrap() {
        TempestMsg::RapidWind(RapidWind { timestamp, wind }) => {
            assert_eq!(timestamp.unix_seconds, 1493322445);
            assert_eq!(wind.speed_magnitude(), r(2.3));
            assert_eq!(wind.source_direction(), r(128.0));
        }
        other => panic!("unexpected message {:?}", other),
    }
}

#[test]
fn decode_device_status() {
    let raw = RawDeviceStatus {
        serial_number: "AR-00004049".to_string(),
        hub_sn: "HB-00000001".to_string(),
        timestamp: 1510855923,
        uptime: 2189,
        voltage: r(3.50),
        firmware_revision: 17,
        rssi: r(-17.0),
        hub_rssi: r(-87.0),
        sensor_status: 0x8 | 0x8000,
        debug: 1,
    };
    let status = DeviceStatus::from(raw);
    assert_eq!(status.serial_number, "AR-00004049");
    assert_eq!(status.hub_serial_number, "HB-00000001");
    assert_eq!(status.timestamp.unix_seconds, 1510855923);
    assert_eq!(status.uptime.seconds, 2189);
    assert_eq!(status.voltage, r(3.5));
    assert_eq!(status.firmware_revision, 17);
    assert_eq!(status.rssi, r(-17.0));
    assert_eq!(status.hub_rssi, r(-87.0));
    assert!(status.sensor_status.pressure_failed);
    assert!(status.sensor_status.power_booster_depleted);
    assert!(!status.sensor_status.wind_failed);
    assert!(status.debug);
}

#[test]
fn decode_device_status_debug_only_when_one() {
    for (debug, expected) in [(0, false), (1, true), (2, false), (-1, false)] {
        let raw = RawTempestMsg::DeviceStatus(RawDeviceStatus {
            serial_number: "AR-00004049".to_string(),
            hub_sn: "HB-00000001".to_string(),
            timestamp: 0,
            uptime: 0,
            voltage: r(3.5),
            firmware_revision: 17,
            rssi: r(-17.0),
            hub_rssi: r(-87.0),
            sensor_status: 0,
            debug,
        });
        match TempestMsg::decode(raw).unwrap() {
            TempestMsg::DeviceStatus(status) => assert_eq!(status.debug, expected),
            other => panic!("unexpected message {:?}", other),
        }
    }
}

#[test]
fn decode_hub_status() {
    match TempestMsg::decode(RawTempestMsg::HubStatus(raw_hub_status("BOR,PIN,POR"))).unwrap() {
        TempestMsg::HubStatus(status) => {
            assert_eq!(status.serial_number, "HB-00000001");
            assert_eq!(status.firmware_revision, "35");
            assert_eq!(status.uptime.seconds, 1670133);
            assert_eq!(status.rssi, r(-62.0));
            assert_eq!(status.timestamp.unix_seconds, 1495724691);
            assert_eq!(status.seq, 48);
            assert!(status.reset_flags.brownout);
            assert!(status.reset_flags.pin);
            assert!(status.reset_flags.power_on);
            assert!(!status.reset_flags.software);
        }
        other => panic!("unexpected message {:?}", other),
    }
}

#[test]
fn decode_hub_status_bad_flag_is_rejected_unchanged() {
    let (back, err) =
        TempestMsg::decode(RawTempestMsg::HubStatus(raw_hub_status("BOR,XYZ"))).unwrap_err();
    assert_eq!(err, DecodeError::UnrecognizedResetFlag { label: "XYZ".to_string() });
    match back {
        RawTempestMsg::HubStatus(raw) => {
            assert_eq!(raw.reset_flags, "BOR,XYZ");
            assert_eq!(raw.serial_number, "HB-00000001");
            assert_eq!(raw.radio_stats, [2, 1, 0, 3, 2839]);
        }
        other => panic!("unexpected raw message {:?}", other),
    }
}

#[test]
fn decode_all_keeps_order_and_drops_rejected() {
    let mut no_timestamp = full_slots();
    no_timestamp[0] = None;
    let decoded = TempestMsg::decode_all(vec![
        RawTempestMsg::HubStatus(raw_hub_status("XYZ")),
        RawTempestMsg::PrecipEvent(RawPrecipEvent {
            serial_number: "SK-00008453".to_string(),
            hub_sn: "HB-00000001".to_string(),
            evt: (1,),
        }),
        RawTempestMsg::Observation(raw_observation(no_timestamp)),
        RawTempestMsg::HubStatus(raw_hub_status("SFT")),
        RawTempestMsg::Observation(raw_observation(full_slots())),
    ]);
    assert_eq!(decoded.len(), 3);
    assert!(matches!(decoded[0], TempestMsg::PrecipEvent(_)));
    assert!(matches!(decoded[1], TempestMsg::HubStatus(_)));
    assert!(matches!(decoded[2], TempestMsg::Observation(_)));
}

#[test]
fn decode_all_of_nothing_is_empty() {
    assert!(TempestMsg::decode_all(Vec::new()).is_empty());
}

#[test]
fn precip_kind_from_code() {
    assert_eq!(PrecipKind::from_code(0), Some(PrecipKind::NoPrecip));
    assert_eq!(PrecipKind::from_code(3), Some(PrecipKind::RainHail));
    assert_eq!(PrecipKind::from_code(4), None);
    assert_eq!(PrecipKind::from_code(-1), None);
}
