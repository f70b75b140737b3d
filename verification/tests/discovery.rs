use opnfi::byte_order::ByteOrder;
use opnfi::discovery::{
    read_values, OpnFiDiscoveryCommand, OpnFiDiscoveryPacket, OpnFiDiscoveryValue,
};
use opnfi::tlv::TlvError;
use opnfi::util::{Ipv4Octets, MacAddr};

#[test]
fn test_read_opnfi_value() {
    let data = vec![0x15, 0, 11, 72, 101, 108, 108, 111, 32, 82, 117, 115, 116, 33];
    let (val, used) = OpnFiDiscoveryValue::read(ByteOrder::BigEndian, &data).unwrap();
    assert_eq!(val, OpnFiDiscoveryValue::Model(String::from("Hello Rust!")));
    assert_eq!(used, 14);
}

#[test]
fn test_write_opnfi_value() {
    let expected = vec![0x15, 0, 11, 72, 101, 108, 108, 111, 32, 82, 117, 115, 116, 33];
    let mut wtr = Vec::new();
    let val = OpnFiDiscoveryValue::Model(String::from("Hello Rust!"));
    val.write(ByteOrder::BigEndian, &mut wtr).unwrap();
    assert_eq!(expected, wtr);
}

#[test]
fn test_read_write_opnfi_value() {
    let mut wtr = Vec::new();
    let expected_val = OpnFiDiscoveryValue::Unknown {
        tag: 123,
        value: String::from("Test123").into_bytes(),
    };
    expected_val.write(ByteOrder::BigEndian, &mut wtr).unwrap();
    let (val, _) = OpnFiDiscoveryValue::read(ByteOrder::BigEndian, &wtr).unwrap();
    assert_eq!(expected_val, val);
}

#[test]
fn test_read_opnfi_packet() {
    let data = vec![0x02, 0x08, 0x00, 0x00];
    let val = OpnFiDiscoveryPacket::read(ByteOrder::BigEndian, &data).unwrap();
    let pkt = OpnFiDiscoveryPacket::v2(OpnFiDiscoveryCommand::Request, None);
    assert_eq!(val, pkt);
    assert_eq!(val.version, 2);
    assert_eq!(val.command, OpnFiDiscoveryCommand::Request);
    assert!(val.values.is_empty());
}

#[test]
fn test_write_opnfi_packet() {
    let expected = vec![0x02, 0x08, 0x00, 0x00];
    let mut wtr = Vec::new();
    let val = OpnFiDiscoveryPacket::v2(OpnFiDiscoveryCommand::Request, None);
    val.write(ByteOrder::BigEndian, &mut wtr).unwrap();
    assert_eq!(expected, wtr);
}

#[test]
fn test_read_write_opnfi_packet() {
    let mut wtr = Vec::new();
    let expected_pkt = OpnFiDiscoveryPacket::v2(
        OpnFiDiscoveryCommand::Unknown(1),
        Some(vec![OpnFiDiscoveryValue::Unknown {
            tag: 123,
            value: String::from("Test123").into_bytes(),
        }]),
    );
    expected_pkt.write(ByteOrder::BigEndian, &mut wtr).unwrap();
    let pkt = OpnFiDiscoveryPacket::read(ByteOrder::BigEndian, &wtr).unwrap();
    assert_eq!(expected_pkt, pkt);
}

fn every_variant() -> Vec<OpnFiDiscoveryValue> {
    let mac = MacAddr(0x00, 0xDE, 0xAD, 0xBE, 0xEF, 0x01);
    vec![
        OpnFiDiscoveryValue::HardwareAddress(mac),
        OpnFiDiscoveryValue::IpInfo(Ipv4Octets(192, 168, 1, 20), mac),
        OpnFiDiscoveryValue::FirmwareVersion(String::from("4.4.50")),
        OpnFiDiscoveryValue::Username(String::from("ubnt")),
        OpnFiDiscoveryValue::Salt(vec![1, 2, 3]),
        OpnFiDiscoveryValue::Challenge(vec![]),
        OpnFiDiscoveryValue::Uptime(-2),
        OpnFiDiscoveryValue::Uptime(0x0102_0304_0506_0708),
        OpnFiDiscoveryValue::Hostname(String::from("gw")),
        OpnFiDiscoveryValue::Platform(String::from("UGW3")),
        OpnFiDiscoveryValue::ESSID(String::from("caf\u{e9}")),
        OpnFiDiscoveryValue::WMode(3),
        OpnFiDiscoveryValue::Sequence(i32::MIN),
        OpnFiDiscoveryValue::Serial(String::from("00DEADBEEF01")),
        OpnFiDiscoveryValue::Model(String::from("UGW3")),
        OpnFiDiscoveryValue::MinimumControllerVersion(String::from("5.0.0")),
        OpnFiDiscoveryValue::IsDefault(true),
        OpnFiDiscoveryValue::Version(String::from("1")),
        OpnFiDiscoveryValue::Unknown { tag: 0x7B, value: vec![9, 9] },
        OpnFiDiscoveryValue::String { tag: 0x10, value: String::from("a") },
        OpnFiDiscoveryValue::String { tag: 0x1D, value: String::new() },
        OpnFiDiscoveryValue::Bool { tag: 0x18, value: false },
        OpnFiDiscoveryValue::Bool { tag: 0x19, value: true },
        OpnFiDiscoveryValue::Bool { tag: 0x1A, value: true },
        OpnFiDiscoveryValue::Number { tag: 0x1C, value: -1 },
    ]
}

#[test]
fn every_variant_round_trips_in_both_orders() {
    for order in [ByteOrder::BigEndian, ByteOrder::LittleEndian] {
        for v in every_variant() {
            let mut wire = Vec::new();
            v.write(order, &mut wire).unwrap();
            wire.push(0xFF);
            let (back, used) = OpnFiDiscoveryValue::read(order, &wire).unwrap();
            assert_eq!(back, v);
            assert_eq!(used, wire.len() - 1);
        }
    }
}

#[test]
fn value_wire_bytes_are_exact() {
    let mac = MacAddr(1, 2, 3, 4, 5, 6);
    let mut out = Vec::new();
    OpnFiDiscoveryValue::IpInfo(Ipv4Octets(10, 0, 0, 1), mac)
        .write(ByteOrder::BigEndian, &mut out)
        .unwrap();
    assert_eq!(out, vec![0x02, 0, 10, 1, 2, 3, 4, 5, 6, 10, 0, 0, 1]);

    let mut out = Vec::new();
    OpnFiDiscoveryValue::Uptime(258).write(ByteOrder::BigEndian, &mut out).unwrap();
    assert_eq!(out, vec![0x0A, 0, 8, 0, 0, 0, 0, 0, 0, 1, 2]);

    let mut out = Vec::new();
    OpnFiDiscoveryValue::WMode(-2).write(ByteOrder::BigEndian, &mut out).unwrap();
    assert_eq!(out, vec![0x0E, 0, 4, 0xFF, 0xFF, 0xFF, 0xFE]);

    let mut out = Vec::new();
    OpnFiDiscoveryValue::WMode(258).write(ByteOrder::LittleEndian, &mut out).unwrap();
    assert_eq!(out, vec![0x0E, 4, 0, 2, 1, 0, 0]);

    let mut out = Vec::new();
    OpnFiDiscoveryValue::IsDefault(true).write(ByteOrder::BigEndian, &mut out).unwrap();
    assert_eq!(out, vec![0x17, 0, 1, 1]);
}

#[test]
fn short_fixed_width_fields() {
    let be = ByteOrder::BigEndian;
    assert!(matches!(
        OpnFiDiscoveryValue::new(be, 0x01, vec![1, 2, 3]),
        Err(TlvError::InvalidLength(_))
    ));
    assert!(matches!(
        OpnFiDiscoveryValue::new(be, 0x01, vec![1, 2, 3, 4, 5, 6, 7]),
        Err(TlvError::InvalidLength(_))
    ));
    assert!(matches!(
        OpnFiDiscoveryValue::new(be, 0x02, vec![1, 2, 3, 4, 5, 6, 7, 8, 9]),
        Err(TlvError::InvalidLength(_))
    ));
    assert!(matches!(
        OpnFiDiscoveryValue::new(be, 0x0A, vec![1, 2, 3]),
        Err(TlvError::InvalidLength(_))
    ));
    assert!(matches!(
        OpnFiDiscoveryValue::new(be, 0x0A, vec![1, 2, 3, 4, 5, 6, 7]),
        Err(TlvError::InvalidLength(_))
    ));
    for tag in [0x0Eu8, 0x12, 0x1C] {
        assert!(matches!(
            OpnFiDiscoveryValue::new(be, tag, vec![]),
            Err(TlvError::InvalidLength(_))
        ));
        assert!(matches!(
            OpnFiDiscoveryValue::new(be, tag, vec![1, 2, 3]),
            Err(TlvError::InvalidLength(_))
        ));
    }
    // a short number inside a record is refused as well
    assert!(matches!(
        OpnFiDiscoveryValue::read(be, &[0x0E, 0, 2, 1, 2]),
        Err(TlvError::InvalidLength(_))
    ));
    // a number of full width is taken from the first bytes
    assert_eq!(
        OpnFiDiscoveryValue::new(be, 0x0E, vec![0, 0, 1, 2]).unwrap(),
        OpnFiDiscoveryValue::WMode(258)
    );
    assert_eq!(
        OpnFiDiscoveryValue::new(be, 0x0A, vec![0, 0, 0, 0, 0, 0, 1, 2]).unwrap(),
        OpnFiDiscoveryValue::Uptime(258)
    );
    assert_eq!(
        OpnFiDiscoveryValue::new(be, 0x17, vec![]).unwrap(),
        OpnFiDiscoveryValue::IsDefault(false)
    );
    assert_eq!(
        OpnFiDiscoveryValue::new(be, 0x17, vec![2]).unwrap(),
        OpnFiDiscoveryValue::IsDefault(false)
    );
    assert_eq!(
        OpnFiDiscoveryValue::new(be, 0x03, vec![0xFF, 0xFE]).unwrap(),
        OpnFiDiscoveryValue::FirmwareVersion(String::new())
    );
}

#[test]
fn packet_read_stops_at_a_short_number() {
    // outer record: one whole field (tag 7), then a 32-bit field of two bytes
    let data = vec![0x02, 0x09, 0, 9, 0x07, 0, 1, 0xAB, 0x0E, 0, 2, 1, 2];
    let pkt = OpnFiDiscoveryPacket::read(ByteOrder::BigEndian, &data).unwrap();
    assert_eq!(pkt.values, vec![OpnFiDiscoveryValue::Salt(vec![0xAB])]);
}

#[test]
fn value_write_refuses_long_body() {
    let v = OpnFiDiscoveryValue::Salt(vec![0u8; 65536]);
    let mut out = vec![1u8];
    assert!(matches!(v.write(ByteOrder::BigEndian, &mut out), Err(TlvError::InvalidLength(_))));
    assert_eq!(out, vec![1u8]);
}

#[test]
fn command_bytes() {
    assert_eq!(OpnFiDiscoveryCommand::new(0x06), OpnFiDiscoveryCommand::Inform);
    assert_eq!(OpnFiDiscoveryCommand::new(0x08), OpnFiDiscoveryCommand::Request);
    assert_eq!(OpnFiDiscoveryCommand::new(0x09), OpnFiDiscoveryCommand::Response);
    assert_eq!(OpnFiDiscoveryCommand::new(0x07), OpnFiDiscoveryCommand::Unknown(7));
    for b in 0..=255u8 {
        assert_eq!(OpnFiDiscoveryCommand::new(b).value(), b);
    }
}

#[test]
fn packet_with_every_variant_round_trips() {
    for order in [ByteOrder::BigEndian, ByteOrder::LittleEndian] {
        let pkt = OpnFiDiscoveryPacket::new(1, OpnFiDiscoveryCommand::Inform, Some(every_variant()));
        let mut wire = Vec::new();
        pkt.write(order, &mut wire).unwrap();
        assert_eq!(wire[0], 1);
        assert_eq!(wire[1], 6);
        let back = OpnFiDiscoveryPacket::read(order, &wire).unwrap();
        assert_eq!(back, pkt);
    }
}

#[test]
fn packet_read_stops_at_incomplete_inner_record() {
    // outer record of 6 bytes: one whole field (tag 7, 1 byte), then 2 stray bytes
    let data = vec![0x02, 0x09, 0, 6, 0x07, 0, 1, 0xAB, 0x07, 0];
    let pkt = OpnFiDiscoveryPacket::read(ByteOrder::BigEndian, &data).unwrap();
    assert_eq!(pkt.command, OpnFiDiscoveryCommand::Response);
    assert_eq!(pkt.values, vec![OpnFiDiscoveryValue::Salt(vec![0xAB])]);
}

#[test]
fn packet_read_truncated_outer_record() {
    assert!(matches!(
        OpnFiDiscoveryPacket::read(ByteOrder::BigEndian, &[]),
        Err(TlvError::InvalidLength(_))
    ));
    assert!(matches!(
        OpnFiDiscoveryPacket::read(ByteOrder::BigEndian, &[2, 8, 0]),
        Err(TlvError::InvalidLength(_))
    ));
    assert!(matches!(
        OpnFiDiscoveryPacket::read(ByteOrder::BigEndian, &[2, 8, 0, 1]),
        Err(TlvError::InvalidLength(_))
    ));
}

#[test]
fn packet_write_refuses_oversized_body() {
    let values = vec![
        OpnFiDiscoveryValue::Salt(vec![0u8; 40000]),
        OpnFiDiscoveryValue::Salt(vec![0u8; 40000]),
    ];
    let pkt = OpnFiDiscoveryPacket::v2(OpnFiDiscoveryCommand::Inform, Some(values));
    let mut out = Vec::new();
    assert!(matches!(pkt.write(ByteOrder::BigEndian, &mut out), Err(TlvError::InvalidLength(_))));
    assert!(out.is_empty());
}

#[test]
fn read_values_of_empty_input() {
    assert!(read_values(ByteOrder::BigEndian, &[]).is_empty());
}

#[test]
fn default_packet() {
    let pkt = OpnFiDiscoveryPacket::default();
    assert_eq!(pkt.version, 0);
    assert_eq!(pkt.command, OpnFiDiscoveryCommand::Unknown(0));
    assert!(pkt.values.is_empty());
}
