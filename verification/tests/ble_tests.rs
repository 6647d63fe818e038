use cosmic_clevetura::ble::{
    command_bytes, firmware_version_from_payload, message_chunks, parse_command_response,
    proto_from_answer, proto_message, protocol_version_from_payload, select_ble_devices,
    BlePeripheral, BleResponseReader, Notification, SERVICE_UUID,
};
use cosmic_clevetura::proto::ReadProgress;

#[test]
fn message_chunks_of_56_bytes() {
    let data: Vec<u8> = (0..60).collect();
    let chunks = message_chunks(&data);
    assert_eq!(chunks.len(), 2);
    assert_eq!(chunks[0].len(), 56);
    assert_eq!(&chunks[1][..4], &data[56..]);
    assert_eq!(chunks[1][4], 0x0A);
    let joined: Vec<u8> = chunks.concat();
    assert_eq!(&joined[..60], &data[..]);
    assert_eq!(message_chunks(&[]), vec![vec![0x0A]]);
}

#[test]
fn proto_message_carries_crc_and_base64() {
    // crc32 of [8, 3] is 0x1009c94d.
    assert_eq!(proto_message(&[8, 3]), b"#CANNyQkQ".to_vec());
    assert_eq!(proto_from_answer(b"#CANNyQkQ").unwrap(), vec![8, 3]);
    // Without the marker byte the answer reads the same.
    assert_eq!(proto_from_answer(b"CANNyQkQ").unwrap(), vec![8, 3]);
}

#[test]
fn proto_message_round_trip() {
    let proto: Vec<u8> = (0..200).map(|i| (i * 7) as u8).collect();
    assert_eq!(proto_from_answer(&proto_message(&proto)).unwrap(), proto);
    assert!(!proto_message(&proto).contains(&0x0A));
}

#[test]
fn answer_without_matching_crc_is_kept_whole() {
    // "AAECAwQF" is [0, 1, 2, 3, 4, 5]: its last four bytes are no CRC of the rest.
    assert_eq!(proto_from_answer(b"AAECAwQF").unwrap(), vec![0, 1, 2, 3, 4, 5]);
    // Four bytes or fewer are taken as they are.
    assert_eq!(proto_from_answer(b"AAECAw==").unwrap(), vec![0, 1, 2, 3]);
    assert_eq!(proto_from_answer(&[]).unwrap_err(), "Empty protobuf response");
    assert!(proto_from_answer(b"#A").unwrap_err().starts_with("Base64 decode failed: "));
}

#[test]
fn notification_reader() {
    let mut reader = BleResponseReader::new();
    assert!(matches!(reader.accept(&Notification::Data(vec![1, 2])), ReadProgress::Pending));
    assert!(matches!(reader.accept(&Notification::Data(vec![3, 0x0A, 4])), ReadProgress::Complete));
    assert_eq!(reader.data, vec![1, 2, 3]);
    let mut reader = BleResponseReader::new();
    assert!(matches!(reader.accept(&Notification::Data(vec![5])), ReadProgress::Pending));
    assert!(matches!(reader.accept(&Notification::Closed), ReadProgress::Complete));
    assert_eq!(reader.data, vec![5]);
    match BleResponseReader::new().accept(&Notification::TimedOut) {
        ReadProgress::Failed(e) => assert_eq!(e, "BLE read timeout"),
        _ => panic!("expected a timeout"),
    }
}

#[test]
fn ble_firmware_commands() {
    assert_eq!(command_bytes(131, &[1, 2]), vec![131, 1, 2]);
    assert_eq!(parse_command_response(131, &[1, 4, 5, 6]).unwrap(), vec![4, 5, 6]);
    assert_eq!(parse_command_response(131, &[2, 4]).unwrap_err(), "Device error for command 0x83");
    assert_eq!(parse_command_response(131, &[]).unwrap_err(), "Empty response");
    assert_eq!(firmware_version_from_payload(&[3, 1, 4]).unwrap(), "3.1.4");
    assert_eq!(firmware_version_from_payload(&[3]).unwrap_err(), "FW version response too short");
    assert_eq!(protocol_version_from_payload(&[]).unwrap_err(), "Protocol version response too short");
}

#[test]
fn scan_keeps_clevetura_peripherals() {
    let found = vec![
        BlePeripheral {
            services: vec!["0000180f-0000-1000-8000-00805f9b34fb".to_string(), SERVICE_UUID.to_string()],
            local_name: Some("CLVX S".to_string()),
            address: "AA:BB".to_string(),
        },
        BlePeripheral { services: vec![], local_name: Some("Other".to_string()), address: "CC".to_string() },
        BlePeripheral { services: vec![SERVICE_UUID.to_string()], local_name: None, address: "DD".to_string() },
    ];
    let devices = select_ble_devices(&found);
    assert_eq!(devices.len(), 2);
    assert_eq!((devices[0].name.as_str(), devices[0].address.as_str()), ("CLVX S", "AA:BB"));
    assert_eq!((devices[1].name.as_str(), devices[1].address.as_str()), ("Clevetura", "DD"));
}

#[test]
fn proto_message_reads_back_without_marker() {
    let proto: Vec<u8> = (0u8..20).collect();
    let message = proto_message(&proto);
    assert_eq!(message.len(), 1 + 4 * ((proto.len() + 6) / 3));
    assert_eq!(proto_from_answer(&message[1..]).unwrap(), proto);
}
