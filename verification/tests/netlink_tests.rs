use countersyncd::actor::control_netlink::{
    parse_control_message, parse_family_name_from_attrs, ControlMonitor, ControlStep,
};
use countersyncd::actor::data_netlink::{
    connect_decision, genl_family_group_from_yaml, get_genl_family_group, yaml_lead_width, ConnectDecision, DataLinkMonitor,
    NetlinkMessageParser, NetlinkParseError, RecvFailure, RecvFailureAction,
};

fn create_mock_netlink_message(payload: &[u8]) -> [u8; 100] {
    let mut msg = [0u8; 100];
    let total_len = 20 + payload.len();
    msg[0] = (total_len & 0xFF) as u8;
    msg[1] = ((total_len >> 8) & 0xFF) as u8;
    msg[2] = ((total_len >> 16) & 0xFF) as u8;
    msg[3] = ((total_len >> 24) & 0xFF) as u8;
    msg[4] = 0x10;
    msg[8] = 0x01;
    msg[16] = 0x01;
    let mut i = 0;
    while i < payload.len() && i < 80 {
        msg[20 + i] = payload[i];
        i += 1;
    }
    msg
}

#[test]
fn test_payload_extraction() {
    let mock_msg = create_mock_netlink_message(b"TEST_PAYLOAD");
    let actual_len = 20 + b"TEST_PAYLOAD".len();
    let mut parser = NetlinkMessageParser::new();

    let result = parser.parse_buffer(&mock_msg[..actual_len]);
    assert!(result.is_ok());

    let messages = result.unwrap();
    assert_eq!(messages.len(), 1);

    let payload = &messages[0];
    let payload_str = String::from_utf8(payload.to_vec()).unwrap();
    assert_eq!(payload_str, "TEST_PAYLOAD");
}

#[test]
fn test_payload_extraction_empty_payload() {
    let mock_msg = create_mock_netlink_message(b"");
    let actual_len = 20;
    let mut parser = NetlinkMessageParser::new();

    let result = parser.parse_buffer(&mock_msg[..actual_len]);
    assert!(result.is_ok());

    let messages = result.unwrap();
    assert_eq!(messages.len(), 1);
    assert!(messages[0].is_empty());
}

#[test]
fn test_payload_extraction_invalid_message() {
    let buffer = vec![0u8; 10];
    let mut parser = NetlinkMessageParser::new();

    let result = parser.parse_buffer(&buffer);
    assert!(result.is_ok());

    let messages = result.unwrap();
    assert!(messages.is_empty());
}

#[test]
fn test_multiple_messages_in_buffer() {
    let mut combined_buffer = Vec::new();
    let msg1 = create_mock_netlink_message(b"MESSAGE1");
    let msg1_len = 20 + b"MESSAGE1".len();
    let msg2 = create_mock_netlink_message(b"MESSAGE2");
    let msg2_len = 20 + b"MESSAGE2".len();
    combined_buffer.extend_from_slice(&msg1[..msg1_len]);
    combined_buffer.extend_from_slice(&msg2[..msg2_len]);

    let mut parser = NetlinkMessageParser::new();
    let result = parser.parse_buffer(&combined_buffer);
    assert!(result.is_ok());

    let messages = result.unwrap();
    assert_eq!(messages.len(), 2);

    let payload1_str = String::from_utf8(messages[0].to_vec()).unwrap();
    let payload2_str = String::from_utf8(messages[1].to_vec()).unwrap();
    assert_eq!(payload1_str, "MESSAGE1");
    assert_eq!(payload2_str, "MESSAGE2");
}

#[test]
fn test_fragmented_message() {
    let msg = create_mock_netlink_message(b"FRAGMENTED_MESSAGE");
    let msg_len = 20 + b"FRAGMENTED_MESSAGE".len();
    let mut parser = NetlinkMessageParser::new();

    let first_part = &msg[..15];
    let result1 = parser.parse_buffer(first_part);
    assert!(result1.is_ok());
    let messages1 = result1.unwrap();
    assert!(messages1.is_empty());

    let second_part = &msg[15..msg_len];
    let result2 = parser.parse_buffer(second_part);
    assert!(result2.is_ok());
    let messages2 = result2.unwrap();
    assert_eq!(messages2.len(), 1);

    let payload_str = String::from_utf8(messages2[0].to_vec()).unwrap();
    assert_eq!(payload_str, "FRAGMENTED_MESSAGE");
}

#[test]
fn test_mixed_complete_and_partial() {
    let mut combined_buffer = Vec::new();
    let msg1 = create_mock_netlink_message(b"COMPLETE");
    let msg1_len = 20 + b"COMPLETE".len();
    combined_buffer.extend_from_slice(&msg1[..msg1_len]);

    let msg2 = create_mock_netlink_message(b"PARTIAL_MSG");
    let msg2_len = 20 + b"PARTIAL_MSG".len();
    combined_buffer.extend_from_slice(&msg2[..25]);

    let mut parser = NetlinkMessageParser::new();
    let result1 = parser.parse_buffer(&combined_buffer);
    assert!(result1.is_ok());

    let messages1 = result1.unwrap();
    assert_eq!(messages1.len(), 1);

    let payload1_str = String::from_utf8(messages1[0].to_vec()).unwrap();
    assert_eq!(payload1_str, "COMPLETE");

    let remaining_part = &msg2[25..msg2_len];
    let result2 = parser.parse_buffer(remaining_part);
    assert!(result2.is_ok());

    let messages2 = result2.unwrap();
    assert_eq!(messages2.len(), 1);

    let payload2_str = String::from_utf8(messages2[0].to_vec()).unwrap();
    assert_eq!(payload2_str, "PARTIAL_MSG");
}

#[test]
fn parser_refuses_impossible_lengths() {
    let mut buf = vec![0u8; 16];
    buf[0] = 8;
    let mut parser = NetlinkMessageParser::new();
    assert_eq!(parser.parse_buffer(&buf), Err(NetlinkParseError::LengthTooSmall(8)));

    let mut big = vec![0u8; 16];
    big[0..4].copy_from_slice(&(2_000_000u32).to_le_bytes());
    let mut parser = NetlinkMessageParser::new();
    assert_eq!(parser.parse_buffer(&big), Err(NetlinkParseError::LengthTooLarge(2_000_000)));
}

#[test]
fn chunking_does_not_change_payloads() {
    let mut stream = Vec::new();
    for p in [&b"ONE"[..], &b"TWO_TWO"[..], &b""[..], &b"THREE"[..]] {
        let m = create_mock_netlink_message(p);
        stream.extend_from_slice(&m[..20 + p.len()]);
    }
    let mut whole = NetlinkMessageParser::new();
    let all: Vec<Vec<u8>> = whole.parse_buffer(&stream).unwrap().iter().map(|m| m.to_vec()).collect();
    for cut in 0..stream.len() {
        let mut parser = NetlinkMessageParser::new();
        let mut got: Vec<Vec<u8>> = parser.parse_buffer(&stream[..cut]).unwrap().iter().map(|m| m.to_vec()).collect();
        got.extend(parser.parse_buffer(&stream[cut..]).unwrap().iter().map(|m| m.to_vec()));
        assert_eq!(got, all, "cut at {}", cut);
    }
    assert_eq!(all.len(), 4);
}

#[test]
fn test_control_message_parsing() {
    let mut buffer = vec![0u8; 100];
    buffer[0..4].copy_from_slice(&(50u32).to_le_bytes());
    buffer[4..6].copy_from_slice(&(16u16).to_le_bytes());
    buffer[16] = 1;
    let family_name = b"test_family\0";
    let attr_len = 4 + family_name.len();
    buffer[20..22].copy_from_slice(&(attr_len as u16).to_le_bytes());
    buffer[22..24].copy_from_slice(&(2u16).to_le_bytes());
    buffer[24..24 + family_name.len()].copy_from_slice(family_name);

    let result = parse_control_message(&buffer, "test_family");
    assert!(result.is_ok());
    assert!(result.unwrap());

    let result2 = parse_control_message(&buffer, "other_family");
    assert!(result2.is_ok());
    assert!(!result2.unwrap());
}

#[test]
fn test_family_name_parsing() {
    let mut attrs_buffer = vec![0u8; 50];
    let family_name = b"sonic_stel\0";
    let attr_len = 4 + family_name.len();
    attrs_buffer[0..2].copy_from_slice(&(attr_len as u16).to_le_bytes());
    attrs_buffer[2..4].copy_from_slice(&(2u16).to_le_bytes());
    attrs_buffer[4..4 + family_name.len()].copy_from_slice(family_name);

    let result = parse_family_name_from_attrs(&attrs_buffer, "sonic_stel");
    assert!(result.is_ok());
    assert!(result.unwrap());

    let result2 = parse_family_name_from_attrs(&attrs_buffer, "other_family");
    assert!(result2.is_ok());
    assert!(!result2.unwrap());
}

#[test]
fn control_messages_of_other_kinds_are_ignored() {
    let mut buffer = vec![0u8; 40];
    buffer[4..6].copy_from_slice(&(16u16).to_le_bytes());
    buffer[16] = 3;
    assert_eq!(parse_control_message(&buffer, "x"), Ok(false));
    assert_eq!(parse_control_message(&buffer[..10], "x"), Ok(false));
    buffer[16] = 2;
    buffer[4] = 17;
    assert_eq!(parse_control_message(&buffer, "x"), Ok(false));
}

#[test]
fn control_monitor_announces_family_changes() {
    let mut m = ControlMonitor::new();
    assert!(!m.tick());
    assert_eq!(m.on_control_result(Some(true)), ControlStep::SendReconnect);
    assert_eq!(m.on_control_result(Some(false)), ControlStep::CheckFamily);
    assert_eq!(m.on_control_result(None), ControlStep::CheckFamily);
    // The family disappears: nothing is sent; it comes back: a reconnect.
    assert!(!m.on_family_check(false));
    assert!(!m.family_was_available);
    assert!(m.on_family_check(true));
    assert!(m.family_was_available);
    // Periodic reconnects come once every 6000 iterations.
    for _ in 0..5999 {
        m.tick();
    }
    assert_eq!(m.heartbeat_counter, 6000);
    assert!(m.on_family_check(true));
    assert_eq!(m.last_periodic_reconnect_counter, 6000);
    assert!(!m.on_family_check(true));
    for _ in 0..12000 {
        m.tick();
    }
    assert_eq!(m.on_control_result(None), ControlStep::RecreateSocket);
}

#[test]
fn data_monitor_limits_local_reconnects() {
    let mut m = DataLinkMonitor::new();
    assert_eq!(m.on_receive_failure(RecvFailure::WouldBlock), RecvFailureAction::Continue);
    assert_eq!(m.on_receive_failure(RecvFailure::NoBufferSpace), RecvFailureAction::Continue);
    assert_eq!(m.on_receive_failure(RecvFailure::Other), RecvFailureAction::Disconnect { reconnect: true });
    assert_eq!(m.on_receive_failure(RecvFailure::Other), RecvFailureAction::Disconnect { reconnect: true });
    assert_eq!(m.on_receive_failure(RecvFailure::Other), RecvFailureAction::Disconnect { reconnect: true });
    assert_eq!(m.on_receive_failure(RecvFailure::Other), RecvFailureAction::Disconnect { reconnect: false });
    assert_eq!(m.consecutive_failures, 4);
    m.clear_failures();
    assert_eq!(m.consecutive_failures, 0);
    m.consecutive_failures = 2;
    for _ in 0..2999 {
        assert_eq!(m.tick(true), (false, false));
    }
    assert_eq!(m.tick(false), (false, true));
    assert_eq!(m.consecutive_failures, 2);
    for _ in 0..2999 {
        m.tick(true);
    }
    assert_eq!(m.tick(true), (false, true));
    assert_eq!(m.consecutive_failures, 0);
}

#[test]
fn socket_health_decides_reconnects() {
    assert_eq!(connect_decision(false, None), ConnectDecision::OpenSocket);
    assert_eq!(connect_decision(false, Some(100)), ConnectDecision::OpenSocket);
    assert_eq!(connect_decision(true, None), ConnectDecision::KeepSocket);
    assert_eq!(connect_decision(true, Some(10)), ConnectDecision::KeepSocket);
    assert_eq!(connect_decision(true, Some(11)), ConnectDecision::ReplaceSocket);
}

#[test]
fn constants_file_names_family_and_group() {
    let text = "constants:\n  high_frequency_telemetry:\n    genl_family: \"my_family\"\n    genl_multicast_group: \"my_group\"\n";
    assert_eq!(
        genl_family_group_from_yaml(text, "c.yml"),
        Ok(("my_family".to_string(), "my_group".to_string()))
    );
}

#[test]
fn constants_file_without_settings_gives_defaults() {
    let text = "constants:\n  other: 1\n";
    assert_eq!(
        genl_family_group_from_yaml(text, "c.yml"),
        Ok(("sonic_stel".to_string(), "ipfix".to_string()))
    );
    let numbers = "constants:\n  high_frequency_telemetry:\n    genl_family: 5\n";
    assert_eq!(
        genl_family_group_from_yaml(numbers, "c.yml"),
        Ok(("sonic_stel".to_string(), "ipfix".to_string()))
    );
}

#[test]
fn constants_file_errors() {
    assert_eq!(
        genl_family_group_from_yaml("", "/x/constants.yml"),
        Err("Empty YAML document in constants file '/x/constants.yml'".to_string())
    );
    let bad = genl_family_group_from_yaml("a: [1, 2", "/x/c.yml").unwrap_err();
    assert!(bad.starts_with("Failed to parse YAML in '/x/c.yml': "));
    assert_eq!(
        get_genl_family_group(Err(bad)),
        ("sonic_stel".to_string(), "ipfix".to_string())
    );
    assert_eq!(
        get_genl_family_group(Ok(("f".to_string(), "g".to_string()))),
        ("f".to_string(), "g".to_string())
    );
}

#[test]
fn test_get_genl_family_group_defaults() {
    // A constants file that cannot be opened gives an error; the daemon then
    // uses the defaults.
    let result: Result<(String, String), String> =
        Err("Failed to open constants file '/non/existent/path/constants.yml': No such file or directory".to_string());
    assert!(result.is_err());
    let (family, group) = get_genl_family_group(result);
    assert_eq!(family, "sonic_stel");
    assert_eq!(group, "ipfix");
}

#[test]
fn test_get_genl_family_group_from_test_file() {
    let contents = "constants:\n  high_frequency_telemetry:\n    genl_family: \"sonic_stel\"\n    genl_multicast_group: \"ipfix\"\n";
    let result = genl_family_group_from_yaml(contents, "tests/data/constants.yml");
    assert!(result.is_ok());
    let (family, group) = result.unwrap();
    assert!(!family.is_empty());
    assert!(!group.is_empty());
}

#[test]
fn test_get_genl_family_group() {
    let contents = "constants:\n  high_frequency_telemetry:\n    genl_family: \"sonic_stel\"\n    genl_multicast_group: \"ipfix\"\n";
    let result = genl_family_group_from_yaml(contents, "tests/data/constants.yml");
    assert!(result.is_ok());
    let (family, group) = get_genl_family_group(result);
    assert!(!family.is_empty());
    assert!(!group.is_empty());
    assert_eq!((family.as_str(), group.as_str()), ("sonic_stel", "ipfix"));
}

#[test]
fn deeply_nested_constants_are_refused() {
    let nested = format!("{}x\n", "- ".repeat(65));
    assert_eq!(yaml_lead_width(&nested), 130);
    assert_eq!(
        genl_family_group_from_yaml(&nested, "/x/c.yml"),
        Err("YAML nested too deeply in constants file '/x/c.yml'".to_string())
    );
    assert_eq!(yaml_lead_width("a:\n  - b: [c, d]\n\r- - e\n"), 4);
}

#[test]
fn nesting_within_the_bound_is_read() {
    // 64 block sequences, then 250 flow sequences each holding a one-pair
    // mapping: the deepest text the bound lets through.
    let text = format!("{}{}x{}\n", "- ".repeat(64), "[a: ".repeat(250), "]".repeat(250));
    assert_eq!(yaml_lead_width(&text), 128);
    let r = genl_family_group_from_yaml(&text, "c.yml");
    assert_eq!(r, Ok(("sonic_stel".to_string(), "ipfix".to_string())));
}

#[test]
fn long_shallow_constants_are_read() {
    let mut text = String::from("constants:\n  high_frequency_telemetry:\n    genl_family: \"fam\"\n    genl_multicast_group: \"grp\"\n");
    for i in 0..1000 {
        text.push_str(&format!("  key-{}: [a, b, {{c: d}}]\n", i));
    }
    assert_eq!(
        genl_family_group_from_yaml(&text, "c.yml"),
        Ok(("fam".to_string(), "grp".to_string()))
    );
}
