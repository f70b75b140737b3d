use opnfi::byte_order::ByteOrder;
use opnfi::config::Config;
use opnfi::device::{key_from_authkey, Device, DeviceAction};
use opnfi::inform::payload::command::{
    OpnFiInformPayloadCommand, OpnFiInformPayloadNoOpCommand, OpnFiInformPayloadUpgradeCommand,
};
use opnfi::inform::payload::gateway::OpnFiInformGatewayPayload;
use opnfi::inform::payload::OpnFiInformPayload;
use opnfi::inform::{read_frame, write_frame, InformHeader, MASTER_INFORM_KEY, UNIFI_MAGIC_HEADER};
use opnfi::util::MacAddr;

const ADOPTION: &str = "capability=gw\\ncfgversion=abc123\\nauthkey=000102030405060708090a0b0c0d0e0f\\nuse_aes_gcm=false\\nmgmt_url=http://unifi:8080\\nstun_url=stun:unifi:3478\\nled_enabled=true\\nselfrun_guest_mode=off\\nreport_crash=false";

const ADOPTED_KEY: [u8; 16] = [0, 1, 2, 3, 4, 5, 6, 7, 8, 9, 10, 11, 12, 13, 14, 15];

fn frame(flags: u16, key: Option<[u8; 16]>, payload: &[u8]) -> Vec<u8> {
    let header = InformHeader {
        magic_header: UNIFI_MAGIC_HEADER,
        packet_version: 0,
        hardware_address: MacAddr(0x00, 0xDE, 0xAD, 0xBE, 0xEF, 0x00),
        flags,
        initialization_vector: [0x11; 16],
        payload_version: 1,
        payload_length: 0,
    };
    let mut out = Vec::new();
    write_frame(ByteOrder::BigEndian, &header, key, payload, &mut out).unwrap();
    out
}

fn setparam(mgmt_cfg: &str) -> String {
    format!(
        "{{\"_type\":\"setparam\",\"mgmt_cfg\":\"{}\",\"server_time_in_utc\":\"1\"}}",
        mgmt_cfg
    )
}

/// What the device sends next, as the controller would read it.
fn next_inform(device: &Device) -> (Vec<u8>, u16, bool) {
    let flags = device.flags();
    let body = format!("{{\"default\":{}}}", device.is_default());
    (frame(flags, device.key(), body.as_bytes()), flags, device.is_default())
}

fn adopted() -> Device {
    let mut device = Device::new(None, 0);
    let answer = frame(0x03, None, setparam(ADOPTION).as_bytes());
    assert_eq!(device.on_response(ByteOrder::BigEndian, &answer), DeviceAction::SaveConfig);
    device
}

#[test]
fn adoption_from_zero() {
    let mut device = Device::new(None, 50_000);
    assert!(!device.is_adopted());
    assert!(device.is_default());
    assert_eq!(device.key(), None);
    assert_eq!(device.flags(), 0x03);
    assert_eq!(device.cfgversion(), "0123456789abcdef");
    assert!(device.tick(50_000));

    // the first inform can be read under the master key
    let (sent, _, default) = next_inform(&device);
    assert!(default);
    assert!(read_frame(ByteOrder::BigEndian, Some(MASTER_INFORM_KEY), None, &sent).is_ok());

    let answer = frame(0x03, None, setparam(ADOPTION).as_bytes());
    let action = device.on_response(ByteOrder::BigEndian, &answer);
    assert_eq!(action, DeviceAction::SaveConfig);
    assert!(device.is_adopted());
    assert!(!device.is_default());
    assert!(device.send_inform);
    assert_eq!(device.key(), Some(ADOPTED_KEY));
    assert_eq!(device.flags(), 0x03);
    assert_eq!(device.flags() & 0x08, 0);
    assert_eq!(device.flags() & 0x02, 0x02);
    assert_eq!(device.cfgversion(), "abc123");
    let config = device.config.clone().unwrap();
    assert_eq!(config.capability, vec!["gw"]);
    assert!(config.led_enabled);
    assert_eq!(config.mgmt_url, "http://unifi:8080");

    // the next inform goes out at once, under the new key
    assert!(device.tick(50_100));
    let (sent, _, _) = next_inform(&device);
    assert!(read_frame(ByteOrder::BigEndian, Some(ADOPTED_KEY), None, &sent).is_ok());
    assert!(read_frame(ByteOrder::BigEndian, Some(MASTER_INFORM_KEY), None, &sent).is_err());
}

#[test]
fn upgrade_to_gcm() {
    let mut device = adopted();
    let answer = frame(0x03, Some(ADOPTED_KEY), setparam("use_aes_gcm=true").as_bytes());
    assert_eq!(device.on_response(ByteOrder::BigEndian, &answer), DeviceAction::SaveConfig);
    assert_eq!(device.flags(), 0x01 | 0x02 | 0x08);
    assert_eq!(device.key(), Some(ADOPTED_KEY));
    assert_eq!(device.cfgversion(), "abc123");
    let (sent, flags, _) = next_inform(&device);
    assert_eq!(flags, 0x0B);
    let (header, _) = read_frame(ByteOrder::BigEndian, Some(ADOPTED_KEY), None, &sent).unwrap();
    assert_eq!(header.flags, 0x0B);
    // the header is the associated data: a changed header byte breaks the tag
    let mut bad = sent.clone();
    bad[5] ^= 1;
    assert!(read_frame(ByteOrder::BigEndian, Some(ADOPTED_KEY), None, &bad).is_err());
}

#[test]
fn noop_cadence() {
    let mut device = adopted();
    assert!(device.tick(1_000));
    let noop = "{\"_type\":\"noop\",\"interval\":60,\"server_time_in_utc\":\"1\"}";
    let answer = frame(0x03, Some(ADOPTED_KEY), noop.as_bytes());
    assert_eq!(device.on_response(ByteOrder::BigEndian, &answer), DeviceAction::Nothing);
    assert_eq!(device.interval, 60);
    assert!(!device.send_inform);
    let mut now = 1_100;
    while now < 61_000 {
        assert!(!device.tick(now));
        now += 100;
    }
    assert!(device.tick(61_000));
    assert_eq!(device.last_inform, 61_000);
    assert!(!device.tick(61_100));
    assert!(!device.tick(120_999));
    assert!(device.tick(121_000));
}

#[test]
fn factory_reset() {
    let mut device = adopted();
    assert!(device.tick(0));
    let reset = "{\"_type\":\"setdefault\",\"server_time_in_utc\":\"1\"}";
    let answer = frame(0x03, Some(ADOPTED_KEY), reset.as_bytes());
    assert_eq!(device.on_response(ByteOrder::BigEndian, &answer), DeviceAction::RemoveConfig);
    assert!(!device.is_adopted());
    assert!(device.is_default());
    assert_eq!(device.key(), None);
    assert_eq!(device.flags(), 0x03);
    assert!(device.send_inform);
    assert!(device.tick(100));
    let (sent, _, default) = next_inform(&device);
    assert!(default);
    assert!(read_frame(ByteOrder::BigEndian, Some(MASTER_INFORM_KEY), None, &sent).is_ok());
}

#[test]
fn bad_tag_changes_nothing() {
    let mut device = adopted();
    let answer = frame(0x03, Some(ADOPTED_KEY), setparam("use_aes_gcm=true").as_bytes());
    device.on_response(ByteOrder::BigEndian, &answer);
    assert!(device.tick(0));
    let before = device.clone();
    let noop = "{\"_type\":\"noop\",\"interval\":60,\"server_time_in_utc\":\"1\"}";
    let mut answer = frame(0x0B, Some(ADOPTED_KEY), noop.as_bytes());
    answer[20] ^= 0x01;
    assert_eq!(device.on_response(ByteOrder::BigEndian, &answer), DeviceAction::Nothing);
    assert_eq!(device, before);
}

#[test]
fn answers_that_hold_no_frame_change_nothing() {
    let mut device = adopted();
    assert!(device.tick(0));
    let before = device.clone();
    let noop = "{\"_type\":\"noop\",\"interval\":60,\"server_time_in_utc\":\"1\"}";
    let good = frame(0x03, Some(ADOPTED_KEY), noop.as_bytes());
    // shorter than a header
    assert_eq!(device.on_response(ByteOrder::BigEndian, &good[..39]), DeviceAction::Nothing);
    assert_eq!(device.on_response(ByteOrder::BigEndian, &[]), DeviceAction::Nothing);
    // cut short
    assert_eq!(
        device.on_response(ByteOrder::BigEndian, &good[..good.len() - 1]),
        DeviceAction::Nothing
    );
    // wrong magic
    let mut bad = good.clone();
    bad[0] = 0;
    assert_eq!(device.on_response(ByteOrder::BigEndian, &bad), DeviceAction::Nothing);
    // wrong key
    let other = frame(0x03, None, noop.as_bytes());
    assert_eq!(device.on_response(ByteOrder::BigEndian, &other), DeviceAction::Nothing);
    assert_eq!(device, before);
    // and the good one is taken
    assert_eq!(device.on_response(ByteOrder::BigEndian, &good), DeviceAction::Nothing);
    assert_eq!(device.interval, 60);
}

#[test]
fn unreadable_payload_sets_the_interval_to_10() {
    for text in ["not json", "[1]", "{\"_type\":\"noop\"}", "{\"_type\":\"noop\",\"interval\":-5,\"server_time_in_utc\":\"1\"}"] {
        let mut device = adopted();
        device.interval = 60;
        let before = device.clone();
        let answer = frame(0x03, Some(ADOPTED_KEY), text.as_bytes());
        assert_eq!(device.on_response(ByteOrder::BigEndian, &answer), DeviceAction::Nothing);
        assert_eq!(device.interval, 10);
        device.interval = 60;
        assert_eq!(device, before);
    }
}

#[test]
fn a_report_changes_nothing() {
    for text in ["{\"hello\":1}", "{}", "{\"_type\":\"sleep\"}", "{\"_type\":7,\"interval\":5}", "{\"default\":true,\"hostname\":\"gw\"}"] {
        let mut device = adopted();
        device.interval = 60;
        let before = device.clone();
        let answer = frame(0x03, Some(ADOPTED_KEY), text.as_bytes());
        assert_eq!(device.on_response(ByteOrder::BigEndian, &answer), DeviceAction::Nothing);
        assert_eq!(device, before);
    }
}

#[test]
fn failures_reset_the_interval() {
    let mut device = Device::new(None, 0);
    device.interval = 60;
    device.on_send_failed();
    assert_eq!(device.interval, 10);
    device.interval = 60;
    device.on_rejected();
    assert_eq!(device.interval, 10);
    assert!(device.send_inform);
    assert!(!device.is_adopted());
}

#[test]
fn commands_that_are_not_handled_change_nothing() {
    let mut device = adopted();
    let before = device.clone();
    let action = device.apply(OpnFiInformPayload::Command(OpnFiInformPayloadCommand::Upgrade(
        OpnFiInformPayloadUpgradeCommand::default(),
    )));
    assert_eq!(action, DeviceAction::Nothing);
    assert_eq!(device, before);
    let action = device.apply(OpnFiInformPayload::Gateway(OpnFiInformGatewayPayload::default()));
    assert_eq!(action, DeviceAction::Nothing);
    assert_eq!(device, before);
    let no_cfg = "{\"_type\":\"setparam\",\"system_cfg\":\"x\",\"server_time_in_utc\":\"1\"}";
    let command = OpnFiInformPayloadCommand::from_data(no_cfg.as_bytes()).unwrap();
    assert_eq!(device.apply_command(command), DeviceAction::Nothing);
    assert_eq!(device, before);
    let action = device.apply_command(OpnFiInformPayloadCommand::NoOp(
        OpnFiInformPayloadNoOpCommand { interval: 7, server_time_in_utc: String::new() },
    ));
    assert_eq!(action, DeviceAction::Nothing);
    assert_eq!(device.interval, 7);
}

#[test]
fn new_device_informs_at_once_and_then_every_10_seconds() {
    let mut device = Device::new(Some(Config::new()), 123_456);
    assert_eq!(device.interval, 10);
    assert_eq!(device.last_inform, 113_456);
    assert!(device.tick(123_456));
    assert!(!device.tick(123_556));
    assert!(!device.tick(133_455));
    assert!(device.tick(133_456));
    // a clock that goes back does not make an inform due
    assert!(!device.tick(0));
    assert_eq!(Device::new(None, 5).last_inform, 0);
}

#[test]
fn keys_from_text() {
    assert_eq!(key_from_authkey("000102030405060708090a0b0c0d0e0f"), Some(ADOPTED_KEY));
    assert_eq!(
        key_from_authkey("BA86F2BBE107C7C57EB5F2690775C712"),
        Some(MASTER_INFORM_KEY)
    );
    assert_eq!(
        key_from_authkey("ba86f2bbe107c7c57eb5f2690775c712"),
        Some(MASTER_INFORM_KEY)
    );
    assert_eq!(key_from_authkey(""), None);
    assert_eq!(key_from_authkey("0001"), None);
    assert_eq!(key_from_authkey("000102030405060708090a0b0c0d0e0"), None);
    assert_eq!(key_from_authkey("000102030405060708090a0b0c0d0e0f00"), None);
    assert_eq!(key_from_authkey("000102030405060708090a0b0c0d0e0g"), None);
    // a device whose settings spell no key uses the master key
    let device = Device::new(Some(Config::from_mgmt_cfg(String::from("authkey=xyz"))), 0);
    assert_eq!(device.key(), None);
}
