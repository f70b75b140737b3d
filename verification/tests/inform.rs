use opnfi::byte_order::ByteOrder;
use opnfi::error::OpnFiError;
use opnfi::inform::compression::check_snappy_chunks;
use opnfi::inform::{
    assemble_frame, compression_for, encryption_for, read_frame, split_frame, write_frame,
    Compression, Encryption, InformHeader, OpaquePayload, OpnfiInformPacket,
    OpnfiInformPacketFlag, HEADER_SIZE, MASTER_INFORM_KEY, UNIFI_MAGIC_HEADER,
};
use opnfi::util::MacAddr;
use rand::{RngCore, SeedableRng};

const ENCRYPTED: u16 = 0x01;
const ZLIB: u16 = 0x02;
const SNAPPY: u16 = 0x04;
const GCM: u16 = 0x08;

fn random_iv() -> [u8; 16] {
    let mut iv = [0u8; 16];
    let mut rng = rand::rngs::StdRng::from_entropy();
    rng.fill_bytes(&mut iv);
    iv
}

fn get_test_packet(flags: u16) -> OpnfiInformPacket<OpaquePayload> {
    OpnfiInformPacket::new(
        Some(UNIFI_MAGIC_HEADER),
        0,
        MacAddr(0x00, 0xDE, 0xAD, 0xBE, 0xEF, 0x00),
        flags,
        1,
        OpaquePayload { data: b"{\"key\":\"message\",\"value\":\"Hello World!\"}".to_vec() },
    )
}

fn round_trip(flags: u16) {
    let packet_in = get_test_packet(flags);
    let iv = random_iv();
    let mut data = Vec::new();
    packet_in.write(ByteOrder::BigEndian, None, iv, &mut data).unwrap();
    let packet_out: OpnfiInformPacket<OpaquePayload> =
        OpnfiInformPacket::read(ByteOrder::BigEndian, None, Some(UNIFI_MAGIC_HEADER), &data)
            .unwrap();
    assert_eq!(packet_in, packet_out);
}

#[test]
fn test_gcm_zlib() {
    round_trip(GCM | ZLIB);
}

#[test]
fn test_gcm_snappy() {
    round_trip(GCM | SNAPPY);
}

#[test]
fn test_cbc_zlib() {
    round_trip(ENCRYPTED | ZLIB);
}

#[test]
fn test_cbc_snappy() {
    round_trip(ENCRYPTED | SNAPPY);
}

#[test]
fn round_trip_of_every_flag_set_and_both_orders() {
    for order in [ByteOrder::BigEndian, ByteOrder::LittleEndian] {
        for flags in 0u16..16 {
            let packet_in = get_test_packet(flags | 0x4000);
            let mut data = Vec::new();
            packet_in.write(order, Some([7u8; 16]), random_iv(), &mut data).unwrap();
            let packet_out: OpnfiInformPacket<OpaquePayload> =
                OpnfiInformPacket::read(order, Some([7u8; 16]), None, &data).unwrap();
            assert_eq!(packet_in, packet_out);
            assert_eq!(packet_out.flags, flags | 0x4000);
        }
    }
}

#[test]
fn flag_bits() {
    assert_eq!(OpnfiInformPacketFlag::Encrypted.bits(), 0x01);
    assert_eq!(OpnfiInformPacketFlag::ZLibCompressed.bits(), 0x02);
    assert_eq!(OpnfiInformPacketFlag::SnappyCompressed.bits(), 0x04);
    assert_eq!(OpnfiInformPacketFlag::EncryptedGCM.bits(), 0x08);
    assert!(OpnfiInformPacketFlag::ZLibCompressed.is_set(0x0A));
    assert!(!OpnfiInformPacketFlag::Encrypted.is_set(0x0A));
}

#[test]
fn snappy_goes_before_zlib_and_gcm_before_cbc() {
    assert_eq!(compression_for(0), Compression::Identity);
    assert_eq!(compression_for(ZLIB), Compression::ZLib);
    assert_eq!(compression_for(SNAPPY), Compression::Snappy);
    assert_eq!(compression_for(ZLIB | SNAPPY), Compression::Snappy);
    assert_eq!(compression_for(0xFFF0), Compression::Identity);
    assert_eq!(encryption_for(0), Encryption::Plain);
    assert_eq!(encryption_for(ENCRYPTED), Encryption::Cbc);
    assert_eq!(encryption_for(GCM), Encryption::Gcm);
    assert_eq!(encryption_for(GCM | ENCRYPTED), Encryption::Gcm);
    assert_eq!(encryption_for(0xFFF0), Encryption::Plain);
}

fn header(flags: u16, iv: [u8; 16]) -> InformHeader {
    InformHeader {
        magic_header: UNIFI_MAGIC_HEADER,
        packet_version: 0,
        hardware_address: MacAddr(0x00, 0xDE, 0xAD, 0xBE, 0xEF, 0x00),
        flags,
        initialization_vector: iv,
        payload_version: 1,
        payload_length: 0,
    }
}

#[test]
fn header_bytes_are_exact() {
    let mut iv = [0u8; 16];
    for (i, b) in iv.iter_mut().enumerate() {
        *b = 0xA0 + i as u8;
    }
    let mut out = Vec::new();
    write_frame(ByteOrder::BigEndian, &header(0, iv), None, b"abc", &mut out).unwrap();
    let mut expected = vec![0x55, 0x42, 0x4E, 0x54, 0, 0, 0, 0, 0x00, 0xDE, 0xAD, 0xBE, 0xEF, 0x00, 0, 0];
    expected.extend_from_slice(&iv);
    expected.extend_from_slice(&[0, 0, 0, 1, 0, 0, 0, 3]);
    expected.extend_from_slice(b"abc");
    assert_eq!(out, expected);
    assert_eq!(&out[..4], b"UBNT");

    let mut full = header(0x0102, iv);
    full.payload_length = 0x0A0B0C0D;
    let mut out = Vec::new();
    full.write(ByteOrder::LittleEndian, &mut out);
    assert_eq!(out.len(), HEADER_SIZE);
    assert_eq!(&out[..4], &[0x54, 0x4E, 0x42, 0x55]);
    assert_eq!(&out[14..16], &[0x02, 0x01]);
    assert_eq!(&out[36..40], &[0x0D, 0x0C, 0x0B, 0x0A]);
    assert_eq!(InformHeader::parse(ByteOrder::LittleEndian, &out), Some(full));
    assert_eq!(InformHeader::parse(ByteOrder::LittleEndian, &out[..39]), None);
}

#[test]
fn payload_length_is_the_length_of_what_follows() {
    let payload = vec![0x5Au8; 100];
    for flags in 0u16..16 {
        let mut out = Vec::new();
        write_frame(ByteOrder::BigEndian, &header(flags, random_iv()), None, &payload, &mut out)
            .unwrap();
        let h = InformHeader::parse(ByteOrder::BigEndian, &out).unwrap();
        assert_eq!(h.payload_length as usize, out.len() - HEADER_SIZE);
        assert_eq!(h.flags, flags);
    }
    // CBC of 100 plain bytes is padded to 112; GCM adds its tag of 16 bytes.
    let mut out = Vec::new();
    write_frame(ByteOrder::BigEndian, &header(ENCRYPTED, [1; 16]), None, &payload, &mut out)
        .unwrap();
    assert_eq!(InformHeader::parse(ByteOrder::BigEndian, &out).unwrap().payload_length, 112);
    let mut out = Vec::new();
    write_frame(ByteOrder::BigEndian, &header(GCM, [1; 16]), None, &payload, &mut out).unwrap();
    assert_eq!(InformHeader::parse(ByteOrder::BigEndian, &out).unwrap().payload_length, 116);
}

#[test]
fn write_appends_and_keeps_what_was_there() {
    let mut out = vec![9u8, 8, 7];
    write_frame(ByteOrder::BigEndian, &header(GCM | ZLIB, random_iv()), None, b"x", &mut out)
        .unwrap();
    assert_eq!(&out[..3], &[9, 8, 7]);
    let (h, payload) = read_frame(ByteOrder::BigEndian, None, None, &out[3..]).unwrap();
    assert_eq!(payload, b"x".to_vec());
    assert_eq!(h.flags, GCM | ZLIB);
}

#[test]
fn wrong_magic_is_invalid_header() {
    let mut out = Vec::new();
    write_frame(ByteOrder::BigEndian, &header(GCM | ZLIB, random_iv()), None, b"x", &mut out)
        .unwrap();
    for i in 0..4 {
        let mut bad = out.clone();
        bad[i] ^= 0x01;
        assert_eq!(
            read_frame(ByteOrder::BigEndian, None, None, &bad).unwrap_err(),
            OpnFiError::InvalidHeader
        );
    }
    assert_eq!(
        read_frame(ByteOrder::BigEndian, None, Some(0x01020304), &out).unwrap_err(),
        OpnFiError::InvalidHeader
    );
    let mut other = header(0, [0; 16]);
    other.magic_header = 0x01020304;
    let mut out = Vec::new();
    write_frame(ByteOrder::BigEndian, &other, None, b"x", &mut out).unwrap();
    assert!(read_frame(ByteOrder::BigEndian, None, Some(0x01020304), &out).is_ok());
}

#[test]
fn short_input() {
    let mut out = Vec::new();
    write_frame(ByteOrder::BigEndian, &header(ENCRYPTED, random_iv()), None, b"hello", &mut out)
        .unwrap();
    assert_eq!(
        read_frame(ByteOrder::BigEndian, None, None, &out[..39]).unwrap_err(),
        OpnFiError::IOError
    );
    assert_eq!(read_frame(ByteOrder::BigEndian, None, None, &[]).unwrap_err(), OpnFiError::IOError);
    assert_eq!(
        read_frame(ByteOrder::BigEndian, None, None, &out[..out.len() - 1]).unwrap_err(),
        OpnFiError::UnexpectedEof
    );
    assert_eq!(
        split_frame(ByteOrder::BigEndian, UNIFI_MAGIC_HEADER, &out[..40]).unwrap_err(),
        OpnFiError::UnexpectedEof
    );
}

#[test]
fn flipped_iv_byte_under_gcm_is_cipher_error() {
    for i in 16..32 {
        let mut out = Vec::new();
        write_frame(ByteOrder::BigEndian, &header(GCM | ENCRYPTED | ZLIB, random_iv()), None, b"payload", &mut out)
            .unwrap();
        out[i] ^= 0x80;
        assert_eq!(
            read_frame(ByteOrder::BigEndian, None, None, &out).unwrap_err(),
            OpnFiError::CipherError
        );
    }
}

#[test]
fn header_bytes_are_bound_to_the_gcm_tag() {
    // packet version, hardware address, the unused flag bits and the payload
    // version change nothing in how the frame is read but the associated data
    for i in [4usize, 5, 6, 7, 8, 9, 10, 11, 12, 13, 14, 32, 33, 34, 35] {
        let mut out = Vec::new();
        write_frame(ByteOrder::BigEndian, &header(GCM, random_iv()), None, b"payload", &mut out)
            .unwrap();
        out[i] ^= 0x10;
        assert_eq!(
            read_frame(ByteOrder::BigEndian, None, None, &out).unwrap_err(),
            OpnFiError::CipherError
        );
    }
}

#[test]
fn wrong_key_is_cipher_error() {
    let mut out = Vec::new();
    write_frame(ByteOrder::BigEndian, &header(GCM, random_iv()), Some([1; 16]), b"payload", &mut out)
        .unwrap();
    assert_eq!(
        read_frame(ByteOrder::BigEndian, Some([2; 16]), None, &out).unwrap_err(),
        OpnFiError::CipherError
    );
    assert!(read_frame(ByteOrder::BigEndian, Some([1; 16]), None, &out).is_ok());
}

#[test]
fn no_key_is_the_master_key() {
    assert_eq!(
        MASTER_INFORM_KEY,
        [0xBA, 0x86, 0xF2, 0xBB, 0xE1, 0x07, 0xC7, 0xC5, 0x7E, 0xB5, 0xF2, 0x69, 0x07, 0x75, 0xC7, 0x12]
    );
    let mut out = Vec::new();
    write_frame(ByteOrder::BigEndian, &header(ENCRYPTED, random_iv()), None, b"payload", &mut out)
        .unwrap();
    let (_, payload) =
        read_frame(ByteOrder::BigEndian, Some(MASTER_INFORM_KEY), None, &out).unwrap();
    assert_eq!(payload, b"payload".to_vec());
}

#[test]
fn gcm_payload_shorter_than_a_tag_is_cipher_error() {
    let mut out = Vec::new();
    assemble_frame(ByteOrder::BigEndian, &header(GCM, [0; 16]), &[1, 2, 3], &mut out).unwrap();
    assert_eq!(
        read_frame(ByteOrder::BigEndian, None, None, &out).unwrap_err(),
        OpnFiError::CipherError
    );
}

#[test]
fn malformed_compressed_payload_is_compression_error() {
    let mut out = Vec::new();
    assemble_frame(ByteOrder::BigEndian, &header(ZLIB, [0; 16]), &[1, 2, 3, 4], &mut out).unwrap();
    assert_eq!(
        read_frame(ByteOrder::BigEndian, None, None, &out).unwrap_err(),
        OpnFiError::CompressionError
    );
    let mut out = Vec::new();
    assemble_frame(ByteOrder::BigEndian, &header(SNAPPY, [0; 16]), &[1, 2, 3, 4], &mut out)
        .unwrap();
    assert_eq!(
        read_frame(ByteOrder::BigEndian, None, None, &out).unwrap_err(),
        OpnFiError::CompressionError
    );
}

#[test]
fn compressed_and_encrypted_payloads_differ_from_the_plain_one() {
    let payload = vec![b'a'; 64];
    for flags in [ZLIB, SNAPPY, ENCRYPTED, GCM] {
        let mut out = Vec::new();
        write_frame(ByteOrder::BigEndian, &header(flags, [3; 16]), None, &payload, &mut out)
            .unwrap();
        assert_ne!(&out[HEADER_SIZE..], &payload[..]);
        let (sent_header, sent) =
            split_frame(ByteOrder::BigEndian, UNIFI_MAGIC_HEADER, &out).unwrap();
        assert_eq!(sent, out[HEADER_SIZE..].to_vec());
        assert_eq!(sent_header.flags, flags);
    }
    // a zlib stream starts with the byte 0x78
    let mut out = Vec::new();
    write_frame(ByteOrder::BigEndian, &header(ZLIB, [3; 16]), None, &payload, &mut out).unwrap();
    assert_eq!(out[HEADER_SIZE], 0x78);
}

#[test]
fn error_messages() {
    assert_eq!(OpnFiError::CipherError.message(), "[OpnFiError] CipherError");
    assert_eq!(OpnFiError::InvalidHeader.message(), "[OpnFiError] InvalidHeader");
    assert_eq!(OpnFiError::UnexpectedEof.message(), "[OpnFiError] UnexpectedEof");
}

const SNAPPY_IDENT: [u8; 10] = [0xFF, 0x06, 0x00, 0x00, b's', b'N', b'a', b'P', b'p', b'Y'];

#[test]
fn snappy_chunk_without_room_for_its_checksum_is_compression_error() {
    for ty in [0x00u8, 0x01] {
        for len in 0u8..4 {
            let mut stream = SNAPPY_IDENT.to_vec();
            stream.extend_from_slice(&[ty, len, 0, 0]);
            stream.extend_from_slice(&[1, 2, 3, 4]);
            assert!(!check_snappy_chunks(&stream));
            let mut out = Vec::new();
            assemble_frame(ByteOrder::BigEndian, &header(SNAPPY, [0; 16]), &stream, &mut out)
                .unwrap();
            assert_eq!(
                read_frame(ByteOrder::BigEndian, None, None, &out).unwrap_err(),
                OpnFiError::CompressionError
            );
        }
    }
}

#[test]
fn snappy_chunk_check_on_given_streams() {
    assert!(check_snappy_chunks(&[]));
    assert!(check_snappy_chunks(&[0, 0, 0]));
    assert!(check_snappy_chunks(&SNAPPY_IDENT));
    assert!(!check_snappy_chunks(&[0, 3, 0, 0]));
    assert!(!check_snappy_chunks(&[1, 0, 0, 0]));
    assert!(check_snappy_chunks(&[1, 4, 0, 0, 9, 9, 9, 9]));
    // a chunk that the stream ends before is left to the reader
    assert!(check_snappy_chunks(&[1, 4, 0, 0, 9]));
    // a skippable chunk is stepped over
    assert!(!check_snappy_chunks(&[0x80, 2, 0, 0, 7, 7, 0, 1, 0, 0]));
    assert!(check_snappy_chunks(&[0x80, 2, 0, 0, 7, 7, 0, 5, 0, 0]));
    // what the writer makes passes
    let mut out = Vec::new();
    write_frame(ByteOrder::BigEndian, &header(SNAPPY, [0; 16]), None, &[7u8; 300], &mut out)
        .unwrap();
    assert!(check_snappy_chunks(&out[HEADER_SIZE..]));
    let (_, payload) = read_frame(ByteOrder::BigEndian, None, None, &out).unwrap();
    assert_eq!(payload, vec![7u8; 300]);
}

fn plain_frame(flags: [u8; 2], length: u8, payload: &[u8]) -> Vec<u8> {
    let mut data = vec![0x55, 0x42, 0x4E, 0x54, 0, 0, 0, 0, 0x00, 0xDE, 0xAD, 0xBE, 0xEF, 0x00];
    data.extend_from_slice(&flags);
    data.extend_from_slice(&[0u8; 16]);
    data.extend_from_slice(&[0, 0, 0, 1, 0, 0, 0, length]);
    data.extend_from_slice(payload);
    data
}

#[test]
fn unknown_flag_bit_is_kept_and_does_nothing() {
    let data = plain_frame([0x80, 0x00], 2, &[0x68, 0x69]);
    assert_eq!(data.len(), 42);
    let packet: OpnfiInformPacket<OpaquePayload> =
        OpnfiInformPacket::read(ByteOrder::BigEndian, None, Some(0x55424E54), &data).unwrap();
    assert_eq!(packet.magic_header, 0x55424E54);
    assert_eq!(packet.packet_version, 0);
    assert_eq!(packet.hardware_address, MacAddr(0x00, 0xDE, 0xAD, 0xBE, 0xEF, 0x00));
    assert_eq!(packet.flags, 0x8000);
    assert_eq!(packet.payload_version, 1);
    assert_eq!(packet.payload.data, vec![0x68, 0x69]);
}

#[test]
fn exactly_payload_length_bytes_are_taken() {
    let data = plain_frame([0x00, 0x00], 2, &[0x61, 0x62, 0x63]);
    assert_eq!(data.len(), 43);
    let packet: OpnfiInformPacket<OpaquePayload> =
        OpnfiInformPacket::read(ByteOrder::BigEndian, None, Some(0x55424E54), &data).unwrap();
    assert_eq!(packet.flags, 0);
    assert_eq!(packet.payload.data, vec![0x61, 0x62]);
}

#[test]
fn no_key_and_the_master_key_write_the_same_frame() {
    for flags in 0u16..16 {
        let iv = random_iv();
        let mut one = Vec::new();
        write_frame(ByteOrder::BigEndian, &header(flags, iv), None, b"payload", &mut one).unwrap();
        let mut two = Vec::new();
        write_frame(ByteOrder::BigEndian, &header(flags, iv), Some(MASTER_INFORM_KEY), b"payload", &mut two)
            .unwrap();
        assert_eq!(one, two);
    }
}
