//! The inform frame: a header of 40 bytes, then the payload as the flags say it
//! was compressed and encrypted.

pub mod cipher;
pub mod compression;
pub mod payload;

use crate::byte_order::{
    copy_range, lemma_u16_round_trip, lemma_u32_round_trip, put_bytes,
    read_u16, read_u32, u16_bytes, u16_value, u32_bytes, u32_value, write_u16, write_u32,
    ByteOrder,
};
use crate::error::OpnFiError;
use crate::inform::cipher::{
    cbc_decoded, cbc_encoded, decode_gcm, encode_gcm, gcm_decrypted, gcm_encrypted, open_cbc,
    seal_cbc, TAG_SIZE,
};
use crate::inform::compression::{
    check_snappy_chunks, decode_snappy, decode_zlib, encode_snappy, encode_zlib, snappy_encoded,
    snappy_unframed, zlib_decoded, zlib_encoded,
};
use crate::util::{mac_at, mac_seq, put_mac, seq_mac, MacAddr};
use vstd::prelude::*;

verus! {

// ===== Constants =====
/// The key under which a device that has not been adopted encrypts its frames.
pub const MASTER_INFORM_KEY: [u8; 16] = [
    0xBA,
    0x86,
    0xF2,
    0xBB,
    0xE1,
    0x07,
    0xC7,
    0xC5,
    0x7E,
    0xB5,
    0xF2,
    0x69,
    0x07,
    0x75,
    0xC7,
    0x12,
];

/// The magic number that every frame starts with: the letters `UBNT`.
pub const UNIFI_MAGIC_HEADER: u32 = 0x5542_4E54;

/// The length of the frame header.
pub const HEADER_SIZE: usize = 40;

// ===== Inform Packet Flags =====
/// The flags of a frame, each one bit of the flags field.
#[derive(Copy, Clone, Debug, PartialEq, Eq, Structural)]
pub enum OpnfiInformPacketFlag {
    Encrypted,
    ZLibCompressed,
    SnappyCompressed,
    EncryptedGCM,
}

impl OpnfiInformPacketFlag {
    /// The bit that stands for the flag.
    pub open spec fn mask(self) -> u16 {
        match self {
            OpnfiInformPacketFlag::Encrypted => 0x01,
            OpnfiInformPacketFlag::ZLibCompressed => 0x02,
            OpnfiInformPacketFlag::SnappyCompressed => 0x04,
            OpnfiInformPacketFlag::EncryptedGCM => 0x08,
        }
    }

    /// The bit that stands for the flag.
    pub fn bits(self) -> (r: u16)
        ensures
            r == self.mask(),
    {
        match self {
            OpnfiInformPacketFlag::Encrypted => 0x01,
            OpnfiInformPacketFlag::ZLibCompressed => 0x02,
            OpnfiInformPacketFlag::SnappyCompressed => 0x04,
            OpnfiInformPacketFlag::EncryptedGCM => 0x08,
        }
    }

    /// Whether the flag is set in `flags`.
    pub fn is_set(self, flags: u16) -> (r: bool)
        ensures
            r == has_flag(flags, self),
    {
        flags & self.bits() != 0
    }
}

/// Whether `flag` is set in `flags`.
pub open spec fn has_flag(flags: u16, flag: OpnfiInformPacketFlag) -> bool {
    flags & flag.mask() != 0
}

/// How the payload of a frame is compressed.
#[derive(Copy, Clone, Debug, PartialEq, Eq, Structural)]
pub enum Compression {
    Identity,
    ZLib,
    Snappy,
}

/// How the payload of a frame is encrypted.
#[derive(Copy, Clone, Debug, PartialEq, Eq, Structural)]
pub enum Encryption {
    Plain,
    Cbc,
    Gcm,
}

/// The compression that the flags ask for: Snappy before zlib where both are set.
pub open spec fn compression_of(flags: u16) -> Compression {
    if has_flag(flags, OpnfiInformPacketFlag::SnappyCompressed) {
        Compression::Snappy
    } else if has_flag(flags, OpnfiInformPacketFlag::ZLibCompressed) {
        Compression::ZLib
    } else {
        Compression::Identity
    }
}

/// The encryption that the flags ask for: GCM wherever its flag is set, whether
/// or not the plain encryption flag stands beside it.
pub open spec fn encryption_of(flags: u16) -> Encryption {
    if has_flag(flags, OpnfiInformPacketFlag::EncryptedGCM) {
        Encryption::Gcm
    } else if has_flag(flags, OpnfiInformPacketFlag::Encrypted) {
        Encryption::Cbc
    } else {
        Encryption::Plain
    }
}

/// The compression that the flags ask for.
pub fn compression_for(flags: u16) -> (r: Compression)
    ensures
        r == compression_of(flags),
{
    if OpnfiInformPacketFlag::SnappyCompressed.is_set(flags) {
        Compression::Snappy
    } else if OpnfiInformPacketFlag::ZLibCompressed.is_set(flags) {
        Compression::ZLib
    } else {
        Compression::Identity
    }
}

/// The encryption that the flags ask for.
pub fn encryption_for(flags: u16) -> (r: Encryption)
    ensures
        r == encryption_of(flags),
{
    if OpnfiInformPacketFlag::EncryptedGCM.is_set(flags) {
        Encryption::Gcm
    } else if OpnfiInformPacketFlag::Encrypted.is_set(flags) {
        Encryption::Cbc
    } else {
        Encryption::Plain
    }
}

/// Bits that stand for no flag change neither the compression nor the
/// encryption that the flags ask for.
pub proof fn lemma_unknown_bits_do_nothing(flags: u16, extra: u16)
    requires
        extra & 0x0F == 0,
    ensures
        compression_of(flags | extra) == compression_of(flags),
        encryption_of(flags | extra) == encryption_of(flags),
{
    assert((flags | extra) & 0x01 == flags & 0x01) by (bit_vector)
        requires
            extra & 0x0F == 0,
    ;
    assert((flags | extra) & 0x02 == flags & 0x02) by (bit_vector)
        requires
            extra & 0x0F == 0,
    ;
    assert((flags | extra) & 0x04 == flags & 0x04) by (bit_vector)
        requires
            extra & 0x0F == 0,
    ;
    assert((flags | extra) & 0x08 == flags & 0x08) by (bit_vector)
        requires
            extra & 0x0F == 0,
    ;
}

// ===== Header =====
/// The header of a frame.
#[derive(Copy, Clone, Debug, PartialEq, Eq)]
pub struct InformHeader {
    pub magic_header: u32,
    pub packet_version: u32,
    pub hardware_address: MacAddr,
    pub flags: u16,
    pub initialization_vector: [u8; 16],
    pub payload_version: u32,
    pub payload_length: u32,
}

/// What an `InformHeader` holds, with the initialization vector as a sequence.
pub struct InformHeaderView {
    pub magic_header: u32,
    pub packet_version: u32,
    pub hardware_address: MacAddr,
    pub flags: u16,
    pub initialization_vector: Seq<u8>,
    pub payload_version: u32,
    pub payload_length: u32,
}

impl View for InformHeader {
    type V = InformHeaderView;

    open spec fn view(&self) -> InformHeaderView {
        InformHeaderView {
            magic_header: self.magic_header,
            packet_version: self.packet_version,
            hardware_address: self.hardware_address,
            flags: self.flags,
            initialization_vector: self.initialization_vector@,
            payload_version: self.payload_version,
            payload_length: self.payload_length,
        }
    }
}

impl InformHeaderView {
    /// The header with another payload length.
    pub open spec fn with_length(self, payload_length: u32) -> InformHeaderView {
        InformHeaderView { payload_length, ..self }
    }

    /// The 40 bytes of the header: magic number, packet version, hardware address,
    /// flags, initialization vector, payload version, payload length.
    pub open spec fn wire(self, order: ByteOrder) -> Seq<u8> {
        u32_bytes(order, self.magic_header) + u32_bytes(order, self.packet_version) + mac_seq(
            self.hardware_address,
        ) + u16_bytes(order, self.flags) + self.initialization_vector + u32_bytes(
            order,
            self.payload_version,
        ) + u32_bytes(order, self.payload_length)
    }
}

/// The header that the first 40 bytes of `data` spell.
pub open spec fn header_of(order: ByteOrder, data: Seq<u8>) -> InformHeaderView {
    InformHeaderView {
        magic_header: u32_value(order, data.subrange(0, 4)),
        packet_version: u32_value(order, data.subrange(4, 8)),
        hardware_address: seq_mac(data.subrange(8, 14)),
        flags: u16_value(order, data.subrange(14, 16)),
        initialization_vector: data.subrange(16, 32),
        payload_version: u32_value(order, data.subrange(32, 36)),
        payload_length: u32_value(order, data.subrange(36, 40)),
    }
}

/// A header with an initialization vector of 16 bytes takes 40 bytes.
pub proof fn lemma_header_len(order: ByteOrder, h: InformHeaderView)
    requires
        h.initialization_vector.len() == 16,
    ensures
        h.wire(order).len() == HEADER_SIZE,
        u32_bytes(order, h.magic_header).len() == 4,
        u32_bytes(order, h.packet_version).len() == 4,
        u16_bytes(order, h.flags).len() == 2,
        u32_bytes(order, h.payload_version).len() == 4,
        u32_bytes(order, h.payload_length).len() == 4,
{
    lemma_u32_round_trip(order, h.magic_header);
    lemma_u32_round_trip(order, h.packet_version);
    lemma_u16_round_trip(order, h.flags);
    lemma_u32_round_trip(order, h.payload_version);
    lemma_u32_round_trip(order, h.payload_length);
}

/// A header with an initialization vector of 16 bytes takes 40 bytes and is read
/// back from them, whatever follows them.
pub proof fn lemma_header_round_trip(order: ByteOrder, h: InformHeaderView, rest: Seq<u8>)
    requires
        h.initialization_vector.len() == 16,
    ensures
        h.wire(order).len() == HEADER_SIZE,
        header_of(order, h.wire(order) + rest) == h,
{
    lemma_u32_round_trip(order, h.magic_header);
    lemma_u32_round_trip(order, h.packet_version);
    lemma_u16_round_trip(order, h.flags);
    lemma_u32_round_trip(order, h.payload_version);
    lemma_u32_round_trip(order, h.payload_length);
    let data = h.wire(order) + rest;
    assert(data.subrange(0, 4) =~= u32_bytes(order, h.magic_header));
    assert(data.subrange(4, 8) =~= u32_bytes(order, h.packet_version));
    assert(data.subrange(8, 14) =~= mac_seq(h.hardware_address));
    assert(data.subrange(14, 16) =~= u16_bytes(order, h.flags));
    assert(data.subrange(16, 32) =~= h.initialization_vector);
    assert(data.subrange(32, 36) =~= u32_bytes(order, h.payload_version));
    assert(data.subrange(36, 40) =~= u32_bytes(order, h.payload_length));
}

impl InformHeader {
    /// Appends the 40 bytes of the header to `out`.
    pub fn write(&self, order: ByteOrder, out: &mut Vec<u8>)
        ensures
            final(out)@ == old(out)@ + self@.wire(order),
            self@.wire(order).len() == HEADER_SIZE,
    {
        let ghost h = self@;
        let ghost a = u32_bytes(order, h.magic_header);
        let ghost b = u32_bytes(order, h.packet_version);
        let ghost c = mac_seq(h.hardware_address);
        let ghost d = u16_bytes(order, h.flags);
        let ghost e = h.initialization_vector;
        let ghost f = u32_bytes(order, h.payload_version);
        let ghost g = u32_bytes(order, h.payload_length);
        proof {
            lemma_header_len(order, h);
        }
        write_u32(order, self.magic_header, out);
        write_u32(order, self.packet_version, out);
        assert(out@ == old(out)@ + (a + b)) by {
            assert(old(out)@ + a + b =~= old(out)@ + (a + b));
        }
        put_mac(out, &self.hardware_address);
        assert(out@ == old(out)@ + (a + b + c)) by {
            assert(old(out)@ + (a + b) + c =~= old(out)@ + (a + b + c));
        }
        write_u16(order, self.flags, out);
        assert(out@ == old(out)@ + (a + b + c + d)) by {
            assert(old(out)@ + (a + b + c) + d =~= old(out)@ + (a + b + c + d));
        }
        put_bytes(out, self.initialization_vector.as_slice());
        assert(out@ == old(out)@ + (a + b + c + d + e)) by {
            assert(old(out)@ + (a + b + c + d) + e =~= old(out)@ + (a + b + c + d + e));
        }
        write_u32(order, self.payload_version, out);
        assert(out@ == old(out)@ + (a + b + c + d + e + f)) by {
            assert(old(out)@ + (a + b + c + d + e) + f =~= old(out)@ + (a + b + c + d + e + f));
        }
        write_u32(order, self.payload_length, out);
        assert(out@ == old(out)@ + (a + b + c + d + e + f + g)) by {
            assert(old(out)@ + (a + b + c + d + e + f) + g =~= old(out)@ + (a + b + c + d + e + f
                + g));
        }
    }

    /// Reads the header that the first 40 bytes of `data` spell; `None` where
    /// `data` is shorter.
    pub fn parse(order: ByteOrder, data: &[u8]) -> (r: Option<InformHeader>)
        ensures
            data@.len() < HEADER_SIZE ==> r is None,
            data@.len() >= HEADER_SIZE ==> (r matches Some(h) && h@ == header_of(order, data@)),
    {
        if data.len() < HEADER_SIZE {
            return None;
        }
        let mut iv: [u8; 16] = [0u8; 16];
        let mut i: usize = 0;
        while i < 16
            invariant
                i <= 16,
                data@.len() >= HEADER_SIZE,
                forall|k: int| 0 <= k < i ==> iv@[k] == data@[16 + k],
            decreases 16 - i,
        {
            iv[i] = data[16 + i];
            i += 1;
        }
        proof {
            assert(iv@ =~= data@.subrange(16, 32));
        }
        Some(
            InformHeader {
                magic_header: read_u32(order, data, 0),
                packet_version: read_u32(order, data, 4),
                hardware_address: mac_at(data, 8),
                flags: read_u16(order, data, 14),
                initialization_vector: iv,
                payload_version: read_u32(order, data, 32),
                payload_length: read_u32(order, data, 36),
            },
        )
    }
}

// ===== Payload transforms =====
/// The key that a frame is encrypted under: the one given, or the master key.
pub open spec fn key_of(key: Option<[u8; 16]>) -> Seq<u8> {
    match key {
        Some(k) => k@,
        None => MASTER_INFORM_KEY@,
    }
}

/// The payload as it is compressed; `None` where the compressor reports an error.
pub open spec fn compressed(how: Compression, data: Seq<u8>) -> Option<Seq<u8>> {
    match how {
        Compression::Identity => Some(data),
        Compression::ZLib => zlib_encoded(data),
        Compression::Snappy => snappy_encoded(data),
    }
}

/// What a compressed payload holds; `None` where it is malformed.
pub open spec fn decompressed(how: Compression, data: Seq<u8>) -> Option<Seq<u8>> {
    match how {
        Compression::Identity => Some(data),
        Compression::ZLib => zlib_decoded(data),
        Compression::Snappy => snappy_unframed(data),
    }
}

/// What an encrypted payload holds, with `aad` as the associated data of GCM;
/// `None` where it cannot be decrypted or is not authentic.
pub open spec fn decrypted(
    how: Encryption,
    data: Seq<u8>,
    key: Seq<u8>,
    iv: Seq<u8>,
    aad: Seq<u8>,
) -> Option<Seq<u8>> {
    match how {
        Encryption::Plain => Some(data),
        Encryption::Cbc => cbc_decoded(data, key, iv),
        Encryption::Gcm => gcm_decrypted(data, key, iv, aad),
    }
}

/// The bytes of the frame with this header whose payload, compressed already,
/// is `body`, or why there is none, see `frame_wire`.
pub open spec fn sealed_frame(order: ByteOrder, h: InformHeaderView, key: Seq<u8>, body: Seq<u8>)
    -> Result<Seq<u8>, OpnFiError> {
    match encryption_of(h.flags) {
        Encryption::Gcm => {
            if body.len() + TAG_SIZE > u32::MAX {
                Err(OpnFiError::InvalidInput)
            } else {
                let head = h.with_length((body.len() + TAG_SIZE) as u32).wire(order);
                match gcm_encrypted(body, key, h.initialization_vector, head) {
                    None => Err(OpnFiError::CipherError),
                    Some(sealed) => if sealed.len() == body.len() + TAG_SIZE {
                        Ok(head + sealed)
                    } else {
                        Err(OpnFiError::CipherError)
                    },
                }
            }
        },
        Encryption::Cbc => match cbc_encoded(body, key, h.initialization_vector) {
            None => Err(OpnFiError::CipherError),
            Some(sealed) => if sealed.len() > u32::MAX {
                Err(OpnFiError::InvalidInput)
            } else {
                Ok(h.with_length(sealed.len() as u32).wire(order) + sealed)
            },
        },
        Encryption::Plain => {
            if body.len() > u32::MAX {
                Err(OpnFiError::InvalidInput)
            } else {
                Ok(h.with_length(body.len() as u32).wire(order) + body)
            }
        },
    }
}

/// The bytes of the frame with this header and payload under this key, or why
/// there is none. The header's own payload length is not looked at: the length
/// of the payload as it is sent stands in its place, and under GCM the header
/// that holds it is the associated data. `CompressionError` where the payload
/// cannot be compressed; `InvalidInput` where the length of what is sent does
/// not fit its field; `CipherError` where the compressed payload cannot be
/// encrypted, or GCM does not give a ciphertext as long as what it was given.
pub open spec fn frame_wire(order: ByteOrder, h: InformHeaderView, key: Seq<u8>, payload: Seq<u8>)
    -> Result<Seq<u8>, OpnFiError> {
    match compressed(compression_of(h.flags), payload) {
        None => Err(OpnFiError::CompressionError),
        Some(body) => sealed_frame(order, h, key, body),
    }
}

/// The header and the payload of the frame that stands at the start of `data`,
/// or why there is none: `IOError` where `data` ends before the header does,
/// `InvalidHeader` where the magic number is not `magic`, `UnexpectedEof` where
/// `data` ends before the payload does, `CipherError` where the payload cannot be
/// decrypted with the first 40 bytes of `data` as associated data, and
/// `CompressionError` where what was decrypted cannot be decompressed.
pub open spec fn frame_parse(order: ByteOrder, key: Seq<u8>, magic: u32, data: Seq<u8>) -> Result<
    (InformHeaderView, Seq<u8>),
    OpnFiError,
> {
    if data.len() < HEADER_SIZE {
        Err(OpnFiError::IOError)
    } else {
        let h = header_of(order, data);
        if h.magic_header != magic {
            Err(OpnFiError::InvalidHeader)
        } else if data.len() - HEADER_SIZE < h.payload_length {
            Err(OpnFiError::UnexpectedEof)
        } else {
            let body = data.subrange(HEADER_SIZE as int, HEADER_SIZE + h.payload_length);
            let aad = data.subrange(0, HEADER_SIZE as int);
            match decrypted(encryption_of(h.flags), body, key, h.initialization_vector, aad) {
                None => Err(OpnFiError::CipherError),
                Some(plain) => match decompressed(compression_of(h.flags), plain) {
                    None => Err(OpnFiError::CompressionError),
                    Some(payload) => Ok((h, payload)),
                },
            }
        }
    }
}

/// In every frame the payload length that the header holds is the number of
/// bytes that follow the header: under CBC the length of the ciphertext, under
/// GCM the length of the compressed payload and 16.
pub proof fn lemma_length_authority(
    order: ByteOrder,
    h: InformHeaderView,
    key: Seq<u8>,
    payload: Seq<u8>,
)
    requires
        h.initialization_vector.len() == 16,
        frame_wire(order, h, key, payload) is Ok,
    ensures
        compressed(compression_of(h.flags), payload) is Some,
        ({
            let wire = frame_wire(order, h, key, payload)->Ok_0;
            let body = compressed(compression_of(h.flags), payload)->Some_0;
            let length = header_of(order, wire).payload_length;
            &&& wire.len() == HEADER_SIZE + length
            &&& header_of(order, wire) == h.with_length(length)
            &&& encryption_of(h.flags) == Encryption::Cbc ==> cbc_encoded(
                body,
                key,
                h.initialization_vector,
            ) is Some && length == cbc_encoded(body, key, h.initialization_vector)->Some_0.len()
            &&& encryption_of(h.flags) == Encryption::Gcm ==> length == body.len() + TAG_SIZE
            &&& encryption_of(h.flags) == Encryption::Plain ==> length == body.len()
        }),
{
    let body = compressed(compression_of(h.flags), payload)->Some_0;
    match encryption_of(h.flags) {
        Encryption::Gcm => {
            let sent = h.with_length((body.len() + TAG_SIZE) as u32);
            let sealed = gcm_encrypted(body, key, h.initialization_vector, sent.wire(order))->Some_0;
            lemma_header_round_trip(order, sent, sealed);
        },
        Encryption::Cbc => {
            let sealed = cbc_encoded(body, key, h.initialization_vector)->Some_0;
            lemma_header_round_trip(order, h.with_length(sealed.len() as u32), sealed);
        },
        Encryption::Plain => {
            lemma_header_round_trip(order, h.with_length(body.len() as u32), body);
        },
    }
}

/// A frame that is written with no key is the frame that is written with the
/// master key.
pub proof fn lemma_no_key_is_master_key(
    order: ByteOrder,
    h: InformHeaderView,
    payload: Seq<u8>,
)
    ensures
        key_of(None) == key_of(Some(MASTER_INFORM_KEY)),
        frame_wire(order, h, key_of(None), payload) == frame_wire(
            order,
            h,
            key_of(Some(MASTER_INFORM_KEY)),
            payload,
        ),
{
}

/// A frame of at least 40 bytes whose magic number is not the expected one is
/// refused with `InvalidHeader`, whatever else it holds.
pub proof fn lemma_magic_check(order: ByteOrder, key: Seq<u8>, magic: u32, data: Seq<u8>)
    requires
        data.len() >= HEADER_SIZE,
        u32_value(order, data.subrange(0, 4)) != magic,
    ensures
        frame_parse(order, key, magic, data) == Err::<(InformHeaderView, Seq<u8>), OpnFiError>(
            OpnFiError::InvalidHeader,
        ),
{
}

/// The magic number that a frame is held to: the one given, or `UBNT`.
pub open spec fn magic_of(magic: Option<u32>) -> u32 {
    match magic {
        Some(m) => m,
        None => UNIFI_MAGIC_HEADER,
    }
}

/// The header and the payload, as it was sent, of the frame that stands at the
/// start of `data`; the errors are those of `frame_parse` that come before the
/// payload is looked into.
pub open spec fn frame_split(order: ByteOrder, magic: u32, data: Seq<u8>) -> Result<
    (InformHeaderView, Seq<u8>),
    OpnFiError,
> {
    if data.len() < HEADER_SIZE {
        Err(OpnFiError::IOError)
    } else {
        let h = header_of(order, data);
        if h.magic_header != magic {
            Err(OpnFiError::InvalidHeader)
        } else if data.len() - HEADER_SIZE < h.payload_length {
            Err(OpnFiError::UnexpectedEof)
        } else {
            Ok((h, data.subrange(HEADER_SIZE as int, HEADER_SIZE + h.payload_length)))
        }
    }
}

/// Compresses `data` as asked; `CompressionError` where the compressor
/// reports an error.
pub fn compress(how: Compression, data: &[u8]) -> (r: Result<Vec<u8>, OpnFiError>)
    ensures
        match compressed(how, data@) {
            Some(body) => r matches Ok(v) && v@ == body,
            None => r == Err::<Vec<u8>, OpnFiError>(OpnFiError::CompressionError),
        },
{
    match how {
        Compression::Identity => {
            let v = copy_range(data, 0, data.len());
            proof {
                assert(data@.subrange(0, data@.len() as int) =~= data@);
            }
            Ok(v)
        },
        Compression::ZLib => match encode_zlib(data) {
            Ok(v) => Ok(v),
            Err(_) => Err(OpnFiError::CompressionError),
        },
        Compression::Snappy => match encode_snappy(data) {
            Ok(v) => Ok(v),
            Err(_) => Err(OpnFiError::CompressionError),
        },
    }
}

/// Decompresses `data` as asked; `CompressionError` where it is malformed.
pub fn decompress(how: Compression, data: &[u8]) -> (r: Result<Vec<u8>, OpnFiError>)
    ensures
        match decompressed(how, data@) {
            Some(plain) => r matches Ok(v) && v@ == plain,
            None => r == Err::<Vec<u8>, OpnFiError>(OpnFiError::CompressionError),
        },
{
    match how {
        Compression::Identity => {
            let v = copy_range(data, 0, data.len());
            proof {
                assert(data@.subrange(0, data@.len() as int) =~= data@);
            }
            Ok(v)
        },
        Compression::ZLib => match decode_zlib(data) {
            Ok(v) => Ok(v),
            Err(_) => Err(OpnFiError::CompressionError),
        },
        Compression::Snappy => {
            if !check_snappy_chunks(data) {
                return Err(OpnFiError::CompressionError);
            }
            match decode_snappy(data) {
                Ok(v) => Ok(v),
                Err(_) => Err(OpnFiError::CompressionError),
            }
        },
    }
}

/// Decrypts `data` as asked, with `aad` as the associated data of GCM;
/// `CipherError` where it cannot be decrypted or is not authentic.
pub fn decrypt(how: Encryption, data: &[u8], key: &[u8; 16], iv: &[u8; 16], aad: &[u8]) -> (r:
    Result<Vec<u8>, OpnFiError>)
    ensures
        match decrypted(how, data@, key@, iv@, aad@) {
            Some(plain) => r matches Ok(v) && v@ == plain,
            None => r == Err::<Vec<u8>, OpnFiError>(OpnFiError::CipherError),
        },
{
    match how {
        Encryption::Plain => {
            let v = copy_range(data, 0, data.len());
            proof {
                assert(data@.subrange(0, data@.len() as int) =~= data@);
            }
            Ok(v)
        },
        Encryption::Cbc => open_cbc(data, key, iv),
        Encryption::Gcm => decode_gcm(data, key, iv, aad),
    }
}

/// Appends to `out` the header with the length of `sent` in its length field,
/// then `sent`. Refused with `InvalidInput`, and `out` left as it was, where
/// that length does not fit the field.
pub fn assemble_frame(order: ByteOrder, header: &InformHeader, sent: &[u8], out: &mut Vec<u8>) -> (r:
    Result<(), OpnFiError>)
    ensures
        sent@.len() <= u32::MAX ==> r is Ok && final(out)@ == old(out)@ + header@.with_length(
            sent@.len() as u32,
        ).wire(order) + sent@,
        sent@.len() > u32::MAX ==> r == Err::<(), OpnFiError>(OpnFiError::InvalidInput)
            && final(out)@ == old(out)@,
{
    if sent.len() > u32::MAX as usize {
        return Err(OpnFiError::InvalidInput);
    }
    let full = InformHeader {
        magic_header: header.magic_header,
        packet_version: header.packet_version,
        hardware_address: header.hardware_address,
        flags: header.flags,
        initialization_vector: header.initialization_vector,
        payload_version: header.payload_version,
        payload_length: sent.len() as u32,
    };
    full.write(order, out);
    put_bytes(out, sent);
    Ok(())
}

/// Reads the header of the frame that stands at the start of `data`, holds it to
/// `magic` and takes the payload as it was sent, see `frame_split`.
pub fn split_frame(order: ByteOrder, magic: u32, data: &[u8]) -> (r: Result<
    (InformHeader, Vec<u8>),
    OpnFiError,
>)
    ensures
        match frame_split(order, magic, data@) {
            Ok((h, sent)) => r matches Ok((x, v)) && x@ == h && v@ == sent,
            Err(e) => r matches Err(x) && x == e,
        },
{
    match InformHeader::parse(order, data) {
        None => Err(OpnFiError::IOError),
        Some(header) => {
            if header.magic_header != magic {
                return Err(OpnFiError::InvalidHeader);
            }
            let length: usize = header.payload_length as usize;
            if data.len() - HEADER_SIZE < length {
                return Err(OpnFiError::UnexpectedEof);
            }
            let sent = copy_range(data, HEADER_SIZE, HEADER_SIZE + length);
            Ok((header, sent))
        },
    }
}

/// What writing a frame leaves behind: the bytes of the frame after what
/// `before` held, or the error that `frame_wire` gives and nothing written.
pub open spec fn frame_written(
    order: ByteOrder,
    h: InformHeaderView,
    key: Seq<u8>,
    payload: Seq<u8>,
    before: Seq<u8>,
    after: Seq<u8>,
    r: Result<(), OpnFiError>,
) -> bool {
    match frame_wire(order, h, key, payload) {
        Ok(wire) => r is Ok && after == before + wire,
        Err(e) => r == Err::<(), OpnFiError>(e) && after == before,
    }
}

/// Appends to `out` the frame of a payload that GCM encrypts, see `sealed_frame`.
fn write_gcm_frame(
    order: ByteOrder,
    header: &InformHeader,
    key: &[u8; 16],
    body: &[u8],
    out: &mut Vec<u8>,
) -> (r: Result<(), OpnFiError>)
    requires
        encryption_of(header.flags) == Encryption::Gcm,
    ensures
        match sealed_frame(order, header@, key@, body@) {
            Ok(wire) => r is Ok && final(out)@ == old(out)@ + wire,
            Err(e) => r == Err::<(), OpnFiError>(e) && final(out)@ == old(out)@,
        },
{
    if body.len() > u32::MAX as usize - TAG_SIZE {
        return Err(OpnFiError::InvalidInput);
    }
    let full = InformHeader {
        magic_header: header.magic_header,
        packet_version: header.packet_version,
        hardware_address: header.hardware_address,
        flags: header.flags,
        initialization_vector: header.initialization_vector,
        payload_version: header.payload_version,
        payload_length: (body.len() + TAG_SIZE) as u32,
    };
    let mut aad: Vec<u8> = Vec::new();
    full.write(order, &mut aad);
    proof {
        assert(aad@ =~= full@.wire(order));
        assert(full@ == header@.with_length((body@.len() + TAG_SIZE) as u32));
    }
    let sealed = match encode_gcm(body, key, &header.initialization_vector, aad.as_slice()) {
        Ok(v) => v,
        Err(e) => {
            return Err(e);
        },
    };
    if sealed.len() != body.len() + TAG_SIZE {
        return Err(OpnFiError::CipherError);
    }
    put_bytes(out, aad.as_slice());
    put_bytes(out, sealed.as_slice());
    proof {
        assert(out@ =~= old(out)@ + (aad@ + sealed@));
    }
    Ok(())
}

/// Appends to `out` the frame of a payload that CBC encrypts, see `sealed_frame`.
fn write_cbc_frame(
    order: ByteOrder,
    header: &InformHeader,
    key: &[u8; 16],
    body: &[u8],
    out: &mut Vec<u8>,
) -> (r: Result<(), OpnFiError>)
    requires
        encryption_of(header.flags) == Encryption::Cbc,
    ensures
        match sealed_frame(order, header@, key@, body@) {
            Ok(wire) => r is Ok && final(out)@ == old(out)@ + wire,
            Err(e) => r == Err::<(), OpnFiError>(e) && final(out)@ == old(out)@,
        },
{
    let sealed = match seal_cbc(body, key, &header.initialization_vector) {
        Ok(v) => v,
        Err(e) => {
            return Err(e);
        },
    };
    let r = assemble_frame(order, header, sealed.as_slice(), out);
    proof {
        if r is Ok {
            assert(out@ =~= old(out)@ + (header@.with_length(sealed@.len() as u32).wire(order)
                + sealed@));
        }
    }
    r
}

/// Appends to `out` the frame of a payload that is not encrypted, see `sealed_frame`.
fn write_plain_frame(order: ByteOrder, header: &InformHeader, body: &[u8], out: &mut Vec<u8>) -> (r:
    Result<(), OpnFiError>)
    requires
        encryption_of(header.flags) == Encryption::Plain,
    ensures
        forall|key: Seq<u8>|
            match #[trigger] sealed_frame(order, header@, key, body@) {
                Ok(wire) => r is Ok && final(out)@ == old(out)@ + wire,
                Err(e) => r == Err::<(), OpnFiError>(e) && final(out)@ == old(out)@,
            },
{
    let r = assemble_frame(order, header, body, out);
    proof {
        if r is Ok {
            assert(out@ =~= old(out)@ + (header@.with_length(body@.len() as u32).wire(order)
                + body@));
        }
    }
    r
}

/// Appends to `out` the frame with this header and payload: the payload is
/// compressed and encrypted as the header's flags ask, under the key given or
/// the master key, and the length of what is sent is written into the header,
/// see `frame_wire`. On an error `out` is left as it was.
pub fn write_frame(
    order: ByteOrder,
    header: &InformHeader,
    key: Option<[u8; 16]>,
    payload: &[u8],
    out: &mut Vec<u8>,
) -> (r: Result<(), OpnFiError>)
    ensures
        frame_written(order, header@, key_of(key), payload@, old(out)@, final(out)@, r),
{
    let k: [u8; 16] = match key {
        Some(k) => k,
        None => MASTER_INFORM_KEY,
    };
    let body = match compress(compression_for(header.flags), payload) {
        Ok(v) => v,
        Err(e) => {
            return Err(e);
        },
    };
    match encryption_for(header.flags) {
        Encryption::Gcm => write_gcm_frame(order, header, &k, body.as_slice(), out),
        Encryption::Cbc => write_cbc_frame(order, header, &k, body.as_slice(), out),
        Encryption::Plain => write_plain_frame(order, header, body.as_slice(), out),
    }
}

/// Reads the frame that stands at the start of `data`: the header is held to
/// the magic number given, or to `UBNT`; the payload is decrypted under the key
/// given, or the master key, with the first 40 bytes of `data` as associated
/// data, and then decompressed, see `frame_parse`.
pub fn read_frame(order: ByteOrder, key: Option<[u8; 16]>, magic: Option<u32>, data: &[u8]) -> (r:
    Result<(InformHeader, Vec<u8>), OpnFiError>)
    ensures
        match frame_parse(order, key_of(key), magic_of(magic), data@) {
            Ok((h, payload)) => r matches Ok((x, v)) && x@ == h && v@ == payload,
            Err(e) => r matches Err(x) && x == e,
        },
{
    let k: [u8; 16] = match key {
        Some(k) => k,
        None => MASTER_INFORM_KEY,
    };
    let m: u32 = match magic {
        Some(m) => m,
        None => UNIFI_MAGIC_HEADER,
    };
    let (header, sent) = match split_frame(order, m, data) {
        Ok(p) => p,
        Err(e) => {
            return Err(e);
        },
    };
    let aad = copy_range(data, 0, HEADER_SIZE);
    let plain = match decrypt(
        encryption_for(header.flags),
        sent.as_slice(),
        &k,
        &header.initialization_vector,
        aad.as_slice(),
    ) {
        Ok(v) => v,
        Err(e) => {
            return Err(e);
        },
    };
    match decompress(compression_for(header.flags), plain.as_slice()) {
        Ok(payload) => Ok((header, payload)),
        Err(e) => Err(e),
    }
}

// ===== Traits =====
/// A payload that can be turned into the bytes that a frame carries, and back.
/// How it does so is its own matter. A payload type may say which bytes stand
/// for a payload, and what `from_data` makes of given bytes; where it does,
/// its methods keep to that, and what is said of a packet is said in those terms.
pub trait OpnFiInformTryFrom: Sized {
    /// The bytes that stand for this payload, where the payload type says
    /// which they are; `None` where it leaves that open.
    open spec fn data_of(&self) -> Option<Seq<u8>> {
        None
    }

    /// Whether `r` is what `from_data` makes of `data`, as far as the payload
    /// type says; it holds of every `r` where the type leaves that open.
    open spec fn parses(data: Seq<u8>, r: Result<Self, OpnFiError>) -> bool {
        true
    }

    /// The payload that `data` stands for; an error where it stands for none.
    fn from_data(data: &Vec<u8>) -> (r: Result<Self, OpnFiError>)
        ensures
            Self::parses(data@, r),
    ;

    /// The bytes that stand for this payload; an error where it has none.
    fn to_data(&self) -> (r: Result<Vec<u8>, OpnFiError>)
        ensures
            self.data_of() matches Some(bytes) ==> (r matches Ok(v) && v@ == bytes),
    ;
}

/// A payload that is carried as the bytes it is.
#[derive(PartialEq, Eq, Clone, Debug)]
pub struct OpaquePayload {
    pub data: Vec<u8>,
}

impl OpnFiInformTryFrom for OpaquePayload {
    /// The bytes that the payload holds.
    open spec fn data_of(&self) -> Option<Seq<u8>> {
        Some(self.data@)
    }

    /// Every run of bytes stands for the payload that holds it.
    open spec fn parses(data: Seq<u8>, r: Result<Self, OpnFiError>) -> bool {
        r matches Ok(p) && p.data@ == data
    }

    /// The payload that holds these bytes.
    fn from_data(data: &Vec<u8>) -> (r: Result<Self, OpnFiError>) {
        let copy = copy_range(data.as_slice(), 0, data.len());
        proof {
            assert(data@.subrange(0, data@.len() as int) =~= data@);
        }
        Ok(OpaquePayload { data: copy })
    }

    /// The bytes that the payload holds.
    fn to_data(&self) -> (r: Result<Vec<u8>, OpnFiError>) {
        let copy = copy_range(self.data.as_slice(), 0, self.data.len());
        proof {
            assert(self.data@.subrange(0, self.data@.len() as int) =~= self.data@);
        }
        Ok(copy)
    }
}

// ===== Inform Packet =====
/// A frame as its sender or its reader holds it: the header fields that are
/// not made anew for each sending, and the payload.
#[derive(PartialEq, Clone, Debug)]
pub struct OpnfiInformPacket<T: Sized + Clone + OpnFiInformTryFrom> {
    pub magic_header: u32,
    pub packet_version: u32,
    pub hardware_address: MacAddr,
    pub flags: u16,
    pub payload_version: u32,
    pub payload: T,
}

impl<T: Sized + Clone + OpnFiInformTryFrom> OpnfiInformPacket<T> {
    /// The header under which the packet is sent with this initialization
    /// vector; the payload length is made when it is written.
    pub open spec fn header(self, iv: Seq<u8>) -> InformHeaderView {
        InformHeaderView {
            magic_header: self.magic_header,
            packet_version: self.packet_version,
            hardware_address: self.hardware_address,
            flags: self.flags,
            initialization_vector: iv,
            payload_version: self.payload_version,
            payload_length: 0,
        }
    }

    /// Whether the packet holds the fields of the header `h`.
    pub open spec fn has_header(self, h: InformHeaderView) -> bool {
        &&& self.magic_header == h.magic_header
        &&& self.packet_version == h.packet_version
        &&& self.hardware_address == h.hardware_address
        &&& self.flags == h.flags
        &&& self.payload_version == h.payload_version
    }

    /// A packet with these fields; with the magic number `UBNT` where none is given.
    pub fn new(
        magic_header: Option<u32>,
        packet_version: u32,
        hardware_address: MacAddr,
        flags: u16,
        payload_version: u32,
        payload: T,
    ) -> (r: Self)
        ensures
            r.magic_header == magic_of(magic_header),
            r.packet_version == packet_version,
            r.hardware_address == hardware_address,
            r.flags == flags,
            r.payload_version == payload_version,
            r.payload == payload,
    {
        OpnfiInformPacket {
            magic_header: match magic_header {
                Some(m) => m,
                None => UNIFI_MAGIC_HEADER,
            },
            packet_version,
            hardware_address,
            flags,
            payload_version,
            payload,
        }
    }

    /// The packet with the fields of this header and this payload.
    pub fn from_parts(header: &InformHeader, payload: T) -> (r: Self)
        ensures
            r.has_header(header@),
            r.payload == payload,
    {
        OpnfiInformPacket {
            magic_header: header.magic_header,
            packet_version: header.packet_version,
            hardware_address: header.hardware_address,
            flags: header.flags,
            payload_version: header.payload_version,
            payload,
        }
    }

    /// The header under which the packet is sent with this initialization vector.
    pub fn header_for(&self, iv: [u8; 16]) -> (r: InformHeader)
        ensures
            r@ == self.header(iv@),
    {
        InformHeader {
            magic_header: self.magic_header,
            packet_version: self.packet_version,
            hardware_address: self.hardware_address,
            flags: self.flags,
            initialization_vector: iv,
            payload_version: self.payload_version,
            payload_length: 0,
        }
    }

    /// What `read` has made of the payload bytes of a frame, seen from its
    /// result: the payload of the packet, or the error.
    pub open spec fn payload_result(r: Result<Self, OpnFiError>) -> Result<T, OpnFiError> {
        match r {
            Ok(p) => Ok(p.payload),
            Err(e) => Err(e),
        }
    }

    /// Reads the packet whose frame stands at the start of `data`, see
    /// `read_frame`, and has the payload type turn the payload bytes into a
    /// payload. An error of the frame is given as it is. Where the frame can be
    /// read, the result is what the payload type makes of exactly the frame's
    /// payload bytes: its error, or a packet with that payload and the fields
    /// of the frame's header.
    pub fn read(order: ByteOrder, key: Option<[u8; 16]>, header: Option<u32>, data: &[u8]) -> (r:
        Result<Self, OpnFiError>)
        ensures
            match frame_parse(order, key_of(key), magic_of(header), data@) {
                Ok((h, bytes)) => T::parses(bytes, Self::payload_result(r)) && (r matches Ok(p)
                    ==> p.has_header(h)),
                Err(e) => r matches Err(x) && x == e,
            },
    {
        let (h, bytes) = match read_frame(order, key, header, data) {
            Ok(p) => p,
            Err(e) => {
                return Err(e);
            },
        };
        match T::from_data(&bytes) {
            Ok(payload) => Ok(OpnfiInformPacket::from_parts(&h, payload)),
            Err(e) => Err(e),
        }
    }

    /// Has the payload type turn the payload into bytes and appends the frame
    /// that carries them to `out`, see `write_frame`, with `iv` as the
    /// initialization vector. Where the payload type says which bytes stand for
    /// the payload, the outcome is that of writing the frame of those bytes
    /// under the packet's header, see `frame_written`. Where it leaves that
    /// open, what was appended on success is the frame of some payload bytes
    /// under that header. On an error, of the payload type or of the frame,
    /// `out` is left as it was.
    pub fn write(&self, order: ByteOrder, key: Option<[u8; 16]>, iv: [u8; 16], out: &mut Vec<u8>)
        -> (r: Result<(), OpnFiError>)
        ensures
            self.payload.data_of() matches Some(bytes) ==> frame_written(
                order,
                self.header(iv@),
                key_of(key),
                bytes,
                old(out)@,
                final(out)@,
                r,
            ),
            r is Err ==> final(out)@ == old(out)@,
            r is Ok ==> exists|bytes: Seq<u8>| #[trigger]
                frame_written(
                    order,
                    self.header(iv@),
                    key_of(key),
                    bytes,
                    old(out)@,
                    final(out)@,
                    r,
                ),
    {
        let bytes = match self.payload.to_data() {
            Ok(v) => v,
            Err(e) => {
                return Err(e);
            },
        };
        let header = self.header_for(iv);
        let r = write_frame(order, &header, key, bytes.as_slice(), out);
        proof {
            if r is Ok {
                assert(frame_written(
                    order,
                    self.header(iv@),
                    key_of(key),
                    bytes@,
                    old(out)@,
                    out@,
                    r,
                ));
            }
        }
        r
    }
}

} // verus!
