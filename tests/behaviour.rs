use fpv_bridge::config::{
    default_arm_button_hold_ms, default_auto_disarm_timeout_s, default_baud_rate, default_center,
    default_failsafe_timeout_ms, default_link_stats_interval_ms, default_log_dir,
    default_log_format, default_log_interval_ms, default_max_files_to_keep,
    default_max_records_per_file, default_min_throttle_to_arm, default_packet_rate_hz,
    default_reconnect_interval_ms, default_serial_port, default_telemetry_enabled,
    default_throttle_max, default_throttle_min, default_timeout_ms, validate_settings,
    ChannelConfig, CrsfConfig, SafetyConfig, SerialConfig, TelemetryConfig,
};
use fpv_bridge::controller::channel_mapper::ChannelMapper;
use fpv_bridge::controller::mapper::{ControllerState, EventMapper, EV_ABS, EV_KEY, ABS_Y, BTN_TL};
use fpv_bridge::controller::ps5::is_dualsense;
use fpv_bridge::crsf::crc::{crc8_dvb_s2, crc8_dvb_s2_slow, generate_crc8_table, Crc8Table};
use fpv_bridge::crsf::decoder::{
    decode_frame, decode_frame_with, decode_gps, decode_rc_channels_payload, decode_telemetry, TelemetryRecord,
};
use fpv_bridge::crsf::encoder::{encode_rc_channels_frame, encode_rc_channels_frame_with};
use fpv_bridge::crsf::protocol::{CrsfFrame, CRSF_FRAMETYPE_LINK_STATISTICS};
use fpv_bridge::error::{CrsfError, FpvBridgeError};
use fpv_bridge::transport::{
    packet_period_ms, LatestSlot, LoopAction, LoopEvent, Severity, TransportState,
};

fn frame_with(frame_type: u8, payload: &[u8]) -> Vec<u8> {
    let mut data = vec![(payload.len() + 2) as u8, frame_type];
    data.extend_from_slice(payload);
    let crc = crc8_dvb_s2(&data);
    let mut frame = vec![0xC8];
    frame.extend_from_slice(&data);
    frame.push(crc);
    frame
}

fn protocol_error(r: Result<CrsfFrame, FpvBridgeError>) -> CrsfError {
    match r {
        Err(FpvBridgeError::CrsfProtocol(e)) => e,
        other => panic!("expected a protocol error, got {:?}", other),
    }
}

#[test]
fn crc_check_value() {
    assert_eq!(crc8_dvb_s2(b"123456789"), 0xBC);
    assert_eq!(crc8_dvb_s2_slow(b"123456789"), 0xBC);
}

#[test]
fn crc_table_first_entries() {
    let table = generate_crc8_table();
    assert_eq!(table[0], 0x00);
    assert_eq!(table[1], 0xD5);
    assert_eq!(table[2], 0x7F);
}

#[test]
fn crc_table_agrees_with_direct_on_many_buffers() {
    for len in 0..40usize {
        let data: Vec<u8> = (0..len).map(|i| (i * 37 + len * 11) as u8).collect();
        assert_eq!(crc8_dvb_s2(&data), crc8_dvb_s2_slow(&data));
    }
}

#[test]
fn channels_round_trip() {
    let channels: [u16; 16] = [
        0, 1, 2, 1023, 1024, 2047, 100, 200, 300, 400, 500, 600, 700, 800, 1500, 2046,
    ];
    let frame = encode_rc_channels_frame(&channels);
    let decoded = decode_frame(&frame).unwrap();
    assert_eq!(decoded.frame_type, 0x16);
    assert_eq!(decoded.payload.len(), 22);
    let unpacked = decode_rc_channels_payload(&decoded.payload).unwrap();
    assert_eq!(unpacked, channels);
}

#[test]
fn channels_round_trip_clamps_out_of_range() {
    let mut channels = [1024u16; 16];
    channels[3] = 5000;
    let frame = encode_rc_channels_frame(&channels);
    let decoded = decode_frame(&frame).unwrap();
    let unpacked = decode_rc_channels_payload(&decoded.payload).unwrap();
    assert_eq!(unpacked[3], 2047);
    assert_eq!(unpacked[4], 1024);
}

#[test]
fn unpack_rejects_short_payload() {
    match decode_rc_channels_payload(&[0u8; 21]) {
        Err(FpvBridgeError::CrsfProtocol(CrsfError::PayloadTooShort { required, actual })) => {
            assert_eq!(required, 22);
            assert_eq!(actual, 21);
        }
        other => panic!("unexpected {:?}", other),
    }
}

#[test]
fn every_single_bit_flip_is_caught() {
    let channels = [100, 200, 300, 400, 500, 600, 700, 800, 900, 1000, 1100, 1200, 1300, 1400, 1500, 1600];
    let frame = encode_rc_channels_frame(&channels);
    for p in 0..26 {
        if p == 1 {
            continue;
        }
        for j in 0..8 {
            let mut flipped = frame.clone();
            flipped[p] ^= 1 << j;
            let e = protocol_error(decode_frame(&flipped));
            if p == 0 {
                assert_eq!(e, CrsfError::InvalidSync(0xC8 ^ (1 << j)));
            } else {
                assert!(matches!(e, CrsfError::CrcMismatch { .. }), "byte {} bit {}: {:?}", p, j, e);
            }
        }
    }
}

#[test]
fn decode_errors_each_variant() {
    assert_eq!(protocol_error(decode_frame(&[0xC8, 0x02, 0x16])), CrsfError::FrameTooShort);
    assert_eq!(protocol_error(decode_frame(&[0xEE, 0x02, 0x16, 0x00])), CrsfError::InvalidSync(0xEE));
    assert_eq!(protocol_error(decode_frame(&[0xC8, 0x01, 0x16, 0x00])), CrsfError::InvalidLength(1));
    assert_eq!(
        protocol_error(decode_frame(&[0xC8, 0x05, 0x16, 0x00])),
        CrsfError::Truncated { expected: 7, actual: 4 }
    );
    let mut frame = frame_with(0x14, &[1, 2, 3]);
    let good = frame[6];
    frame[6] ^= 0x01;
    assert_eq!(
        protocol_error(decode_frame(&frame)),
        CrsfError::CrcMismatch { computed: good, received: good ^ 0x01 }
    );
    let big = frame_with(0x7A, &[0u8; 61]);
    assert_eq!(protocol_error(decode_frame(&big)), CrsfError::PayloadTooLarge(61));
}

#[test]
fn decode_frame_with_empty_payload() {
    let frame = frame_with(0x28, &[]);
    let decoded = decode_frame(&frame).unwrap();
    assert_eq!(decoded.frame_type, 0x28);
    assert!(decoded.payload.is_empty());
    let full = frame_with(0x28, &[7u8; 60]);
    assert_eq!(decode_frame(&full).unwrap().payload, vec![7u8; 60]);
}

#[test]
fn telemetry_dispatch_link_statistics() {
    let frame = CrsfFrame::new(CRSF_FRAMETYPE_LINK_STATISTICS, vec![100, 95, 80, 0xF6, 1, 2, 20, 90, 85, 12]).unwrap();
    match decode_telemetry(&frame).unwrap() {
        TelemetryRecord::LinkStatistics(stats) => {
            assert_eq!(stats.uplink_rssi_2, 95);
            assert_eq!(stats.uplink_snr, -10);
            assert_eq!(stats.active_antenna, 1);
            assert_eq!(stats.downlink_lq, 85);
        }
        other => panic!("unexpected {:?}", other),
    }
}

#[test]
fn telemetry_dispatch_battery_and_gps() {
    let battery = CrsfFrame::new(0x08, vec![0x04, 0x19, 0x00, 0x7D, 0x00, 0x03, 0xE8, 0x4B]).unwrap();
    match decode_telemetry(&battery).unwrap() {
        TelemetryRecord::BatterySensor(b) => {
            assert_eq!(b.voltage_centivolts, 1049);
            assert_eq!(b.current_deciamps, 125);
            assert_eq!(b.capacity_used, 1000);
            assert_eq!(b.remaining_percent, 75);
        }
        other => panic!("unexpected {:?}", other),
    }
    let short_gps = CrsfFrame::new(0x02, vec![0u8; 14]).unwrap();
    assert!(matches!(
        decode_telemetry(&short_gps),
        Err(FpvBridgeError::CrsfProtocol(CrsfError::PayloadTooShort { required: 15, actual: 14 }))
    ));
}

#[test]
fn telemetry_unknown_type_passes_through() {
    let frame = CrsfFrame::new(0x29, vec![9, 8, 7]).unwrap();
    match decode_telemetry(&frame).unwrap() {
        TelemetryRecord::Unknown { frame_type, payload } => {
            assert_eq!(frame_type, 0x29);
            assert_eq!(payload, vec![9, 8, 7]);
        }
        other => panic!("unexpected {:?}", other),
    }
}

#[test]
fn gps_exact_fields() {
    let payload = [0xFF, 0xFF, 0xFF, 0xFF, 0x00, 0x00, 0x00, 0x01, 0x01, 0x00, 0x8C, 0xA0, 0x00, 0x00, 3];
    let gps = decode_gps(&payload).unwrap();
    assert_eq!(gps.latitude_e7, -1);
    assert_eq!(gps.longitude_e7, 1);
    assert_eq!(gps.ground_speed_dkmh, 256);
    assert_eq!(gps.heading_cdeg, 36000);
    assert_eq!(gps.altitude, -1000);
    assert_eq!(gps.satellites, 3);
    let high = [0, 0, 0, 0, 0, 0, 0, 0, 0, 0, 0, 0, 0xFF, 0xFF, 0];
    assert_eq!(decode_gps(&high).unwrap().altitude, 64535);
}

#[test]
fn reversal_mirrors_each_channel() {
    let mut state = ControllerState::new();
    state.right_stick_x = 40;
    state.right_stick_y = 200;
    state.left_stick_y = 10;
    state.left_stick_x = 250;
    state.btn_l1 = true;
    state.trigger_l2 = 77;
    let plain = ChannelMapper::new().map_to_channels(&state);
    for i in 0..16usize {
        let reversed = ChannelMapper::with_reversed(&[i]).map_to_channels(&state);
        for k in 0..16usize {
            if k == i {
                assert_eq!(reversed[k], 2047 - plain[k]);
            } else {
                assert_eq!(reversed[k], plain[k]);
            }
        }
    }
    assert_eq!(plain[0], 321);
    assert_eq!(plain[8], 1024);
}

#[test]
fn reverse_channels_on_mapped_vector() {
    let mapper = ChannelMapper::with_reversed(&[0, 15, 16]);
    let mut channels = [1000u16; 16];
    channels[5] = 3000;
    let out = mapper.reverse_channels(&channels);
    assert_eq!(out[0], 1047);
    assert_eq!(out[15], 1047);
    assert_eq!(out[1], 1000);
    assert_eq!(out[5], 2047);
}

#[test]
fn raw_events_update_state() {
    let mut mapper = EventMapper::new();
    mapper.process_raw_event(EV_ABS, ABS_Y, 17);
    mapper.process_raw_event(EV_KEY, BTN_TL, 2);
    mapper.process_raw_event(0x00, ABS_Y, 99);
    mapper.process_raw_event(EV_ABS, 0x28, 99);
    assert_eq!(mapper.state().left_stick_y, 17);
    assert!(mapper.state().btn_l1);
    mapper.process_raw_event(EV_KEY, BTN_TL, 0);
    assert!(!mapper.state().btn_l1);
}

#[test]
fn dualsense_identification() {
    assert!(is_dualsense(0x054c, 0x0ce6));
    assert!(!is_dualsense(0x054c, 0x09cc));
    assert!(!is_dualsense(0x045e, 0x0ce6));
}

#[test]
fn failure_severity_escalates_at_threshold() {
    let mut state = TransportState::new(10, 1000);
    let mut severities = Vec::new();
    for _ in 0..12 {
        match state.on_event(LoopEvent::Tick(None)) {
            LoopAction::Transmit(frame) => assert_eq!(frame.len(), 26),
            other => panic!("unexpected {:?}", other),
        }
        severities.push(state.record_failure());
    }
    for (i, s) in severities.iter().enumerate() {
        if i + 1 < 10 {
            assert_eq!(*s, Severity::Debug, "failure {}", i + 1);
        } else {
            assert_eq!(*s, Severity::Warning, "failure {}", i + 1);
        }
    }
    assert_eq!(state.consecutive_failures, 12);
    assert!(matches!(state.on_event(LoopEvent::Tick(None)), LoopAction::Transmit(_)));
    assert!(!state.record_success());
    assert_eq!(state.consecutive_failures, 0);
    assert_eq!(state.total_sent, 1);
}

#[test]
fn consumer_sees_only_latest_sample() {
    let mut slot = LatestSlot::new();
    let mut first = [1024u16; 16];
    first[0] = 10;
    let mut second = [1024u16; 16];
    second[0] = 20;
    slot.publish(first);
    slot.publish(second);
    let mut state = TransportState::new(10, 1000);
    let action = state.on_event(LoopEvent::Tick(slot.take()));
    assert_eq!(state.current, second);
    match action {
        LoopAction::Transmit(frame) => assert_eq!(frame, encode_rc_channels_frame(&second)),
        other => panic!("unexpected {:?}", other),
    }
    assert_eq!(slot.take(), None);
    state.on_event(LoopEvent::Tick(slot.take()));
    assert_eq!(state.current, second);
}

#[test]
fn loop_starts_neutral_and_stops_on_signals() {
    let mut state = TransportState::new(10, 1000);
    assert_eq!(state.current, [1024u16; 16]);
    assert!(matches!(state.on_event(LoopEvent::Shutdown), LoopAction::Exit));
    assert!(matches!(state.on_event(LoopEvent::ProducerFinished), LoopAction::Fail));
    assert!(matches!(state.on_event(LoopEvent::ProducerFailed), LoopAction::Fail));
    assert_eq!(packet_period_ms(250), 4);
    assert_eq!(packet_period_ms(500), 2);
}

#[test]
fn status_summary_every_interval() {
    let mut state = TransportState::new(10, 3);
    let due: Vec<bool> = (0..7).map(|_| state.record_success()).collect();
    assert_eq!(due, vec![false, false, true, false, false, true, false]);
    assert_eq!(state.last_log_count, 6);
}

fn valid_sections() -> (SerialConfig, ChannelConfig, TelemetryConfig, SafetyConfig, CrsfConfig) {
    (
        SerialConfig {
            port: default_serial_port(),
            baud_rate: default_baud_rate(),
            timeout_ms: default_timeout_ms(),
            reconnect_interval_ms: default_reconnect_interval_ms(),
        },
        ChannelConfig {
            throttle_min: default_throttle_min(),
            throttle_max: default_throttle_max(),
            center: default_center(),
            channel_reverse: vec![],
        },
        TelemetryConfig {
            enabled: default_telemetry_enabled(),
            log_dir: default_log_dir(),
            max_records_per_file: default_max_records_per_file(),
            max_files_to_keep: default_max_files_to_keep(),
            log_interval_ms: default_log_interval_ms(),
            format: default_log_format(),
        },
        SafetyConfig {
            arm_button_hold_ms: default_arm_button_hold_ms(),
            auto_disarm_timeout_s: default_auto_disarm_timeout_s(),
            failsafe_timeout_ms: default_failsafe_timeout_ms(),
            min_throttle_to_arm: default_min_throttle_to_arm(),
        },
        CrsfConfig {
            packet_rate_hz: default_packet_rate_hz(),
            link_stats_interval_ms: default_link_stats_interval_ms(),
        },
    )
}

#[test]
fn default_settings_are_valid() {
    let (serial, channels, telemetry, safety, crsf) = valid_sections();
    assert!(validate_settings(&serial, &channels, &telemetry, &safety, &crsf).is_ok());
}

#[test]
fn invalid_settings_are_rejected() {
    let (serial, mut channels, telemetry, safety, mut crsf) = valid_sections();
    channels.channel_reverse = vec![0, 15, 16];
    assert!(matches!(
        validate_settings(&serial, &channels, &telemetry, &safety, &crsf),
        Err(FpvBridgeError::Config(_))
    ));
    channels.channel_reverse = vec![0, 15];
    crsf.packet_rate_hz = 200;
    assert!(validate_settings(&serial, &channels, &telemetry, &safety, &crsf).is_err());
    crsf.packet_rate_hz = 500;
    let mut telemetry = telemetry;
    telemetry.format = "csv".to_string();
    assert!(validate_settings(&serial, &channels, &telemetry, &safety, &crsf).is_err());
    telemetry.format = "jsonl".to_string();
    telemetry.enabled = false;
    telemetry.log_dir = String::new();
    assert!(validate_settings(&serial, &channels, &telemetry, &safety, &crsf).is_ok());
}

#[test]
fn table_built_once_matches_direct() {
    let table = Crc8Table::new();
    for len in 0..30usize {
        let data: Vec<u8> = (0..len).map(|i| (i * 91 + 7) as u8).collect();
        assert_eq!(table.checksum(&data), crc8_dvb_s2_slow(&data));
    }
    let channels = [1500u16; 16];
    let frame = encode_rc_channels_frame_with(&table, &channels);
    assert_eq!(frame, encode_rc_channels_frame(&channels));
    assert_eq!(decode_frame_with(&table, &frame).unwrap().payload, frame[3..25].to_vec());
}

#[test]
fn assemble_channels_places_and_reverses() {
    let mapper = ChannelMapper::with_reversed(&[1, 9]);
    let out = mapper.assemble_channels(10, 20, 30, 40, true, false, 3000, 60);
    assert_eq!(out[0], 10);
    assert_eq!(out[1], 2047 - 20);
    assert_eq!(out[2], 30);
    assert_eq!(out[3], 40);
    assert_eq!(out[4], 2047);
    assert_eq!(out[5], 0);
    assert_eq!(out[6], 2047);
    assert_eq!(out[7], 60);
    assert_eq!(out[8], 1024);
    assert_eq!(out[9], 1023);
}

#[test]
fn reversal_counts_from_zero() {
    let mut state = ControllerState::new();
    state.right_stick_x = 255;
    let mapper = ChannelMapper::with_reversed(&[0]);
    assert!(mapper.is_reversed(0));
    assert_eq!(mapper.map_to_channels(&state)[0], 0);
    let ignored = ChannelMapper::with_reversed(&[16, 17, 100]);
    assert_eq!(ignored.map_to_channels(&state), ChannelMapper::new().map_to_channels(&state));
}

#[test]
fn signed_telemetry_fields() {
    let lon_raw: i32 = -1_224_194_000;
    let b = lon_raw.to_be_bytes();
    let payload = [0, 0, 0, 0, b[0], b[1], b[2], b[3], 0, 0, 0, 0, 0x03, 0xE8, 0];
    let gps = decode_gps(&payload).unwrap();
    assert_eq!(gps.longitude_e7, -1_224_194_000);
    assert_eq!(gps.altitude, 0);
}
