use cosmic_clevetura::proto::{
    app_request_reports, check_ble_set_settings_response, check_set_settings_response,
    decode_app_response, get_settings_request, heartbeat_battery, heartbeat_request, plain_request,
    sensitivity_settings, set_os_mode_request, set_settings_request, settings_from_response,
    ble_settings_from_response, AppResponseReader, AppSettings, BadRequestResponse,
    GetSettingsRequest, GetSettingsResponse, GlobalSettings, HeartBeatBattery, HeartBeatResponse,
    ReadProgress, Request, RequestType, Response, SetSettingsResponse,
};

#[test]
fn request_reports_carry_base64_text_and_end_byte() {
    let reports = app_request_reports(&[8, 3, 0x32, 2, 8, 0]);
    assert_eq!(reports.len(), 1);
    let r = &reports[0];
    assert_eq!(r.len(), 64);
    assert_eq!(r[0], 0x23);
    assert_eq!(&r[1..9], b"CAMyAggA");
    assert_eq!(r[9], 0x0A);
    assert!(r[10..].iter().all(|&b| b == 0));
}

#[test]
fn long_request_is_split_into_63_byte_chunks() {
    let proto: Vec<u8> = (0..50).collect();
    let text = b"AAECAwQFBgcICQoLDA0ODxAREhMUFRYXGBkaGxwdHh8gISIjJCUmJygpKissLS4vMDE=";
    let reports = app_request_reports(&proto);
    // 68 text bytes and the end byte: 69 bytes, two reports.
    assert_eq!(reports.len(), 2);
    assert_eq!(&reports[0][1..64], &text[..63]);
    assert_eq!(&reports[1][1..6], &text[63..]);
    assert_eq!(reports[1][6], 0x0A);
    let mut joined: Vec<u8> = Vec::new();
    for r in &reports {
        joined.extend_from_slice(&r[1..]);
    }
    let end = joined.iter().position(|&b| b == 0x0A).unwrap();
    assert_eq!(decode_app_response(&joined[..end]).unwrap(), proto);
}

#[test]
fn empty_request_still_sends_the_end_byte() {
    let reports = app_request_reports(&[]);
    assert_eq!(reports.len(), 1);
    assert_eq!(reports[0][1], 0x0A);
}

#[test]
fn answer_decoding() {
    assert_eq!(decode_app_response(b"AAEC").unwrap(), vec![0, 1, 2]);
    // Null and non-ASCII bytes are dropped before decoding.
    assert_eq!(decode_app_response(&[0, b'A', b'A', 0xff, b'E', b'C', 0]).unwrap(), vec![0, 1, 2]);
    assert_eq!(decode_app_response(&[]).unwrap_err(), "Empty response");
    assert!(decode_app_response(b"A").unwrap_err().starts_with("Base64 decode failed: "));
}

#[test]
fn reader_gathers_until_end_byte() {
    let mut reader = AppResponseReader::new();
    assert_eq!(reader.retries_left, 100);
    reader.start_read().unwrap();
    assert!(matches!(reader.accept(&[0x24, b'A', b'B']), ReadProgress::Pending));
    reader.start_read().unwrap();
    assert!(matches!(reader.accept(&[0x99, b'X']), ReadProgress::Pending));
    reader.start_read().unwrap();
    assert!(matches!(reader.accept(&[0x24, b'C', 0x0A, b'D']), ReadProgress::Complete));
    assert_eq!(reader.data, b"ABC".to_vec());
    assert_eq!(reader.retries_left, 97);
}

#[test]
fn reader_gives_up_after_four_empty_reads() {
    let mut reader = AppResponseReader::new();
    for _ in 0..3 {
        reader.start_read().unwrap();
        assert!(matches!(reader.accept(&[]), ReadProgress::Pending));
    }
    reader.start_read().unwrap();
    match reader.accept(&[]) {
        ReadProgress::Failed(e) => assert_eq!(e, "No response data after retries"),
        _ => panic!("expected a failure"),
    }
}

#[test]
fn reader_allows_one_hundred_reads() {
    let mut reader = AppResponseReader::new();
    for _ in 0..100 {
        reader.start_read().unwrap();
        assert!(matches!(reader.accept(&[0x24, b'A']), ReadProgress::Pending));
    }
    assert_eq!(reader.start_read().unwrap_err(), "Max read retries exceeded");
}

#[test]
fn request_builders() {
    let r = get_settings_request();
    assert_eq!(r, Request { kind: 0, get_settings: Some(GetSettingsRequest {}), ..Default::default() });
    let s = sensitivity_settings(7);
    assert_eq!(s.global.as_ref().unwrap().current_ai_level, Some(7));
    assert_eq!(s.global.as_ref().unwrap().fn_lock, None);
    let r = set_settings_request(s.clone());
    assert_eq!(r.kind, 1);
    assert_eq!(r.set_settings.unwrap().settings, Some(s));
    let r = heartbeat_request(4);
    assert_eq!(r.kind, 3);
    assert_eq!(r.heart_beat.unwrap().active_profile, 4);
    let r = set_os_mode_request(2);
    assert_eq!(r.kind, 8);
    assert_eq!(r.set_os_mode.unwrap().mode, 2);
    assert_eq!(plain_request(RequestType::PerformFullReset).kind, 10);
    assert_eq!(RequestType::from_code(6), Some(RequestType::ControlAi));
    assert_eq!(RequestType::from_code(13), None);
}

#[test]
fn reading_settings_answers() {
    let settings = AppSettings {
        global: Some(GlobalSettings { current_ai_level: Some(3), ..Default::default() }),
        ..Default::default()
    };
    let ok = Response {
        get_settings: Some(GetSettingsResponse { status: 0, settings: Some(settings.clone()) }),
        ..Default::default()
    };
    assert_eq!(settings_from_response(ok.clone()).unwrap(), settings);
    assert_eq!(ble_settings_from_response(ok).unwrap(), settings);
    assert_eq!(settings_from_response(Response::default()).unwrap_err(), "No getSettings in response");
    let empty = Response { get_settings: Some(GetSettingsResponse::default()), ..Default::default() };
    assert_eq!(settings_from_response(empty.clone()).unwrap_err(), "No settings in getSettings response");
    assert_eq!(ble_settings_from_response(empty).unwrap_err(), "No settings in response");
}

#[test]
fn set_settings_answers() {
    assert!(check_set_settings_response(&Response::default()).is_ok());
    let bad = Response { bad_request: Some(BadRequestResponse { error: -3 }), ..Default::default() };
    assert_eq!(check_set_settings_response(&bad).unwrap_err(), "Bad request error: -3");
    assert_eq!(check_ble_set_settings_response(&bad).unwrap_err(), "Bad request error: -3");
    let failed = Response { set_settings: Some(SetSettingsResponse { status: 5 }), ..Default::default() };
    assert_eq!(check_set_settings_response(&failed).unwrap_err(), "SetSettings failed with status 5");
    assert!(check_ble_set_settings_response(&failed).is_ok());
}

#[test]
fn heartbeat_answers() {
    let battery = HeartBeatBattery { level: 80, charging: true };
    let r = Response {
        heart_beat: Some(HeartBeatResponse { status: 0, battery: Some(battery.clone()) }),
        ..Default::default()
    };
    assert_eq!(heartbeat_battery(r), Some(battery));
    assert_eq!(heartbeat_battery(Response::default()), None);
}

#[test]
fn request_type_codes_read_back() {
    let all = [
        RequestType::GetSettings,
        RequestType::SetSettings,
        RequestType::GetDeviceInfo,
        RequestType::Heartbeat,
        RequestType::SetProfileSettings,
        RequestType::GetProfileSettings,
        RequestType::ControlAi,
        RequestType::GetAiState,
        RequestType::SetOsMode,
        RequestType::GetDefaultSettings,
        RequestType::PerformFullReset,
        RequestType::GetUserAiData,
        RequestType::PerformRestart,
    ];
    for (i, t) in all.iter().enumerate() {
        assert_eq!(t.code(), i as i32);
        assert_eq!(RequestType::from_code(t.code()), Some(*t));
    }
    assert_eq!(RequestType::from_code(-1), None);
}

#[test]
fn reader_gives_back_text_across_foreign_and_empty_reads() {
    let mut reader = AppResponseReader::new();
    let reads: Vec<Vec<u8>> = vec![
        vec![0x24, b'C', b'A'],
        vec![],
        vec![0x22, 1, 2],
        vec![0x24, b'M', b'=', 0x0A, b'X', 0],
    ];
    let mut outcome = None;
    for read in &reads {
        reader.start_read().unwrap();
        match reader.accept(read) {
            ReadProgress::Pending => continue,
            ReadProgress::Complete => {
                outcome = Some(true);
                break;
            }
            ReadProgress::Failed(_) => {
                outcome = Some(false);
                break;
            }
        }
    }
    assert_eq!(outcome, Some(true));
    assert_eq!(reader.data, b"CAM=".to_vec());
}
