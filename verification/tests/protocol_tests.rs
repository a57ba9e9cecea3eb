use audiomoth::protocol::{
    check_write_outcome, command_request, get_battery_reply, get_firmware_description_reply,
    get_firmware_version_reply, get_id_reply, get_packet_reply, get_time_reply,
    query_bootloader_reply, set_app_packet_request, set_app_packet_reply, set_time_reply,
    set_time_request, switch_to_bootloader_reply, Command, REPLY_FRAME_LEN,
    USB_MSG_TYPE_GET_APP_PACKET, USB_MSG_TYPE_GET_BATTERY, USB_MSG_TYPE_GET_FIRMWARE_DESCRIPTION,
    USB_MSG_TYPE_GET_FIRMWARE_VERSION, USB_MSG_TYPE_GET_TIME, USB_MSG_TYPE_GET_UID,
    USB_MSG_TYPE_QUERY_BOOTLOADER, USB_MSG_TYPE_SET_APP_PACKET, USB_MSG_TYPE_SET_TIME,
    USB_MSG_TYPE_SWITCH_TO_BOOTLOADER,
};
use audiomoth::AudioMothError;

fn frame(tag: u8, payload: &[u8]) -> Vec<u8> {
    let mut buffer = vec![0u8; REPLY_FRAME_LEN];
    buffer[0] = tag;
    buffer[1..1 + payload.len()].copy_from_slice(payload);
    buffer
}

#[test]
fn command_codes_are_the_protocol_constants() {
    assert_eq!(Command::GetTime.code(), 0x01);
    assert_eq!(Command::SetTime.code(), 0x02);
    assert_eq!(Command::GetUid.code(), 0x03);
    assert_eq!(Command::GetBattery.code(), 0x04);
    assert_eq!(Command::GetAppPacket.code(), 0x05);
    assert_eq!(Command::SetAppPacket.code(), 0x06);
    assert_eq!(Command::GetFirmwareVersion.code(), 0x07);
    assert_eq!(Command::GetFirmwareDescription.code(), 0x08);
    assert_eq!(Command::QueryBootloader.code(), 0x09);
    assert_eq!(Command::SwitchToBootloader.code(), 0x0A);
}

#[test]
fn every_reply_tag_echoes_the_command_code() {
    for cmd in [
        Command::GetTime,
        Command::SetTime,
        Command::GetUid,
        Command::GetBattery,
        Command::GetAppPacket,
        Command::SetAppPacket,
        Command::GetFirmwareVersion,
        Command::GetFirmwareDescription,
        Command::QueryBootloader,
        Command::SwitchToBootloader,
    ] {
        assert_eq!(cmd.expected_reply_tag(), cmd.code());
    }
}

#[test]
fn request_payload_lengths() {
    assert_eq!(Command::GetTime.request_payload_len(), 0);
    assert_eq!(Command::SetTime.request_payload_len(), 4);
    assert_eq!(Command::SetAppPacket.request_payload_len(), 62);
    assert_eq!(Command::QueryBootloader.request_payload_len(), 0);
}

#[test]
fn command_request_is_prefix_then_code() {
    assert_eq!(command_request(USB_MSG_TYPE_GET_UID), vec![0x00, 0x03]);
}

#[test]
fn set_time_request_encodes_the_timestamp() {
    assert_eq!(
        set_time_request(1234567890),
        vec![0x00, 0x02, 0xD2, 0x02, 0x96, 0x49]
    );
}

#[test]
fn set_app_packet_request_copies_the_payload() {
    assert_eq!(
        set_app_packet_request(&[9u8, 8, 7]),
        vec![0x00, 0x06, 9, 8, 7]
    );
}

#[test]
fn write_outcome_rules() {
    assert_eq!(
        check_write_outcome(Err("write failed".to_string())),
        Err(AudioMothError::Transport("write failed".to_string()))
    );
    assert_eq!(check_write_outcome(Ok(0)), Err(AudioMothError::NoData));
    assert_eq!(check_write_outcome(Ok(2)), Ok(2));
}

#[test]
fn get_time_reply_decodes_a_valid_frame() {
    let reply = frame(USB_MSG_TYPE_GET_TIME, &[0xD2, 0x02, 0x96, 0x49]);
    assert_eq!(get_time_reply(Ok((64, reply))), Ok(1234567890));
}

#[test]
fn get_time_reply_surfaces_failures() {
    assert_eq!(
        get_time_reply(Err("No data read".to_string())),
        Err(AudioMothError::Transport("No data read".to_string()))
    );
    assert_eq!(
        get_time_reply(Ok((0, vec![0u8; 64]))),
        Err(AudioMothError::NoData)
    );
    let wrong = frame(USB_MSG_TYPE_SET_TIME, &[1, 0, 0, 0]);
    assert_eq!(
        get_time_reply(Ok((64, wrong))),
        Err(AudioMothError::ProtocolMismatch)
    );
}

#[test]
fn set_time_reply_returns_the_read_size_on_tag_echo() {
    let reply = frame(USB_MSG_TYPE_SET_TIME, &[]);
    assert_eq!(set_time_reply(Ok((64, reply))), Ok(64));
    let wrong = frame(USB_MSG_TYPE_GET_TIME, &[]);
    assert_eq!(
        set_time_reply(Ok((64, wrong))),
        Err(AudioMothError::ProtocolMismatch)
    );
}

#[test]
fn get_id_reply_renders_the_identifier() {
    let reply = frame(
        USB_MSG_TYPE_GET_UID,
        &[0x01, 0x23, 0x45, 0x67, 0x89, 0xAB, 0xCD, 0xEF],
    );
    assert_eq!(
        get_id_reply(Ok((64, reply))).unwrap().as_str(),
        "EFCDAB8967452301"
    );
}

#[test]
fn get_battery_reply_labels_the_byte() {
    let reply = frame(USB_MSG_TYPE_GET_BATTERY, &[16]);
    assert_eq!(get_battery_reply(Ok((64, reply))).unwrap().as_str(), "5.1V");
    assert_eq!(
        get_battery_reply(Ok((0, vec![0u8; 64]))),
        Err(AudioMothError::BatteryReadFailed)
    );
}

#[test]
fn get_packet_reply_hands_back_the_whole_frame() {
    let reply = frame(USB_MSG_TYPE_GET_APP_PACKET, &[1, 2, 3]);
    assert_eq!(get_packet_reply(Ok((64, reply.clone()))), Ok(reply));
}

#[test]
fn set_app_packet_reply_needs_the_tag_echo() {
    let reply = frame(USB_MSG_TYPE_SET_APP_PACKET, &[]);
    assert_eq!(set_app_packet_reply(Ok((64, reply))), Ok(64));
    assert_eq!(
        set_app_packet_reply(Ok((64, vec![0u8; 64]))),
        Err(AudioMothError::ProtocolMismatch)
    );
}

#[test]
fn get_firmware_version_reply_returns_the_triple() {
    let reply = frame(USB_MSG_TYPE_GET_FIRMWARE_VERSION, &[1, 2, 3]);
    assert_eq!(get_firmware_version_reply(Ok((64, reply))), Ok([1, 2, 3]));
}

#[test]
fn get_firmware_description_reply_reads_the_string() {
    let reply = frame(USB_MSG_TYPE_GET_FIRMWARE_DESCRIPTION, b"AM1.0");
    assert_eq!(
        get_firmware_description_reply(Ok((64, reply))).unwrap().as_str(),
        "AM1.0"
    );
}

#[test]
fn query_bootloader_reply_judges_the_raw_frame() {
    let reply = frame(USB_MSG_TYPE_QUERY_BOOTLOADER, &[0x01]);
    assert!(query_bootloader_reply(Ok((64, reply))));
    let off = frame(USB_MSG_TYPE_QUERY_BOOTLOADER, &[0x00]);
    assert!(!query_bootloader_reply(Ok((64, off))));
    assert!(!query_bootloader_reply(Err("No data read".to_string())));
}

#[test]
fn switch_to_bootloader_reply_returns_the_read_size() {
    let reply = frame(USB_MSG_TYPE_SWITCH_TO_BOOTLOADER, &[]);
    assert_eq!(switch_to_bootloader_reply(Ok((64, reply))), Ok(64));
    assert_eq!(
        switch_to_bootloader_reply(Err("gone".to_string())),
        Err(AudioMothError::Transport("gone".to_string()))
    );
}
