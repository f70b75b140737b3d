//! Discovery packets: a version byte, then one outer record whose tag is the
//! command and whose value is a run of inner records, one per field.

use crate::byte_order::{
    i32_bytes, i32_value, i64_bytes, i64_value, lemma_i32_round_trip, lemma_i64_round_trip,
    read_i32, read_i64, write_i32, write_i64, ByteOrder,
};
use crate::tlv::{
    lemma_tlv_round_trip, tlv_parse, tlv_wire, write_record, Tlv, TlvError, MAX_VALUE_LEN,
};
use crate::util::{
    ip_at, ip_seq, mac_at, mac_seq, put_ip, put_mac, seq_ip, seq_mac, Ipv4Octets, MacAddr,
};
use vstd::prelude::*;
use vstd::string::{StrSliceExecFns, StringExecFns};
use vstd::utf8::{decode_utf8, encode_utf8, valid_utf8};

verus! {

// ===== Discovery Command =====
/// What a discovery packet asks for or answers.
#[derive(PartialEq, Eq, Copy, Clone, Debug, Structural)]
pub enum OpnFiDiscoveryCommand {
    Inform,
    Request,
    Response,
    Unknown(u8),
}

/// The command that a command byte stands for.
pub open spec fn command_of(cmd: u8) -> OpnFiDiscoveryCommand {
    if cmd == 0x6 {
        OpnFiDiscoveryCommand::Inform
    } else if cmd == 0x8 {
        OpnFiDiscoveryCommand::Request
    } else if cmd == 0x9 {
        OpnFiDiscoveryCommand::Response
    } else {
        OpnFiDiscoveryCommand::Unknown(cmd)
    }
}

impl OpnFiDiscoveryCommand {
    /// The byte that stands for the command.
    pub open spec fn code(self) -> u8 {
        match self {
            OpnFiDiscoveryCommand::Inform => 0x6,
            OpnFiDiscoveryCommand::Request => 0x8,
            OpnFiDiscoveryCommand::Response => 0x9,
            OpnFiDiscoveryCommand::Unknown(c) => c,
        }
    }

    /// Whether the command is the one that its own byte is read as: `Unknown` holds
    /// no byte that has a name.
    pub open spec fn canonical(self) -> bool {
        match self {
            OpnFiDiscoveryCommand::Unknown(c) => c != 0x6 && c != 0x8 && c != 0x9,
            _ => true,
        }
    }

    /// The command that `cmd` stands for.
    pub fn new(cmd: u8) -> (r: Self)
        ensures
            r == command_of(cmd),
    {
        match cmd {
            0x6 => OpnFiDiscoveryCommand::Inform,
            0x8 => OpnFiDiscoveryCommand::Request,
            0x9 => OpnFiDiscoveryCommand::Response,
            c => OpnFiDiscoveryCommand::Unknown(c),
        }
    }

    /// The byte that stands for the command.
    pub fn value(self) -> (r: u8)
        ensures
            r == self.code(),
    {
        match self {
            OpnFiDiscoveryCommand::Inform => 0x6,
            OpnFiDiscoveryCommand::Request => 0x8,
            OpnFiDiscoveryCommand::Response => 0x9,
            OpnFiDiscoveryCommand::Unknown(c) => c,
        }
    }
}

impl From<OpnFiDiscoveryCommand> for u8 {
    /// The byte that stands for the command.
    fn from(cmd: OpnFiDiscoveryCommand) -> (r: u8) {
        cmd.value()
    }
}

impl vstd::std_specs::convert::FromSpecImpl<OpnFiDiscoveryCommand> for u8 {
    open spec fn obeys_from_spec() -> bool {
        true
    }

    open spec fn from_spec(cmd: OpnFiDiscoveryCommand) -> u8 {
        cmd.code()
    }
}

impl From<u8> for OpnFiDiscoveryCommand {
    /// The command that the byte stands for.
    fn from(val: u8) -> (r: OpnFiDiscoveryCommand) {
        OpnFiDiscoveryCommand::new(val)
    }
}

impl vstd::std_specs::convert::FromSpecImpl<u8> for OpnFiDiscoveryCommand {
    open spec fn obeys_from_spec() -> bool {
        true
    }

    open spec fn from_spec(val: u8) -> OpnFiDiscoveryCommand {
        command_of(val)
    }
}

/// Every byte is the byte of the command it is read as, and every canonical
/// command is read back from its byte.
pub proof fn lemma_command_round_trip(cmd: u8, command: OpnFiDiscoveryCommand)
    ensures
        command_of(cmd).code() == cmd,
        command_of(cmd).canonical(),
        command.canonical() ==> command_of(command.code()) == command,
{
}

// ===== Discovery Value =====
/// One field of a discovery packet.
#[derive(PartialEq, Clone, Debug)]
#[allow(inconsistent_fields)]
pub enum OpnFiDiscoveryValue {
    HardwareAddress(MacAddr),
    IpInfo(Ipv4Octets, MacAddr),
    FirmwareVersion(String),
    Username(String),
    Salt(Vec<u8>),
    Challenge(Vec<u8>),
    Uptime(i64),
    Hostname(String),
    Platform(String),
    ESSID(String),
    WMode(i32),
    Sequence(i32),
    Serial(String),
    Model(String),
    MinimumControllerVersion(String),
    IsDefault(bool),
    Version(String),
    Unknown { tag: u8, value: Vec<u8> },
    String { tag: u8, value: String },
    Bool { tag: u8, value: bool },
    Number { tag: u8, value: i32 },
}

/// What an `OpnFiDiscoveryValue` holds, with text as characters and bytes as a sequence.
#[allow(inconsistent_fields)]
pub enum DiscoveryValueView {
    HardwareAddress(MacAddr),
    IpInfo(Ipv4Octets, MacAddr),
    FirmwareVersion(Seq<char>),
    Username(Seq<char>),
    Salt(Seq<u8>),
    Challenge(Seq<u8>),
    Uptime(i64),
    Hostname(Seq<char>),
    Platform(Seq<char>),
    ESSID(Seq<char>),
    WMode(i32),
    Sequence(i32),
    Serial(Seq<char>),
    Model(Seq<char>),
    MinimumControllerVersion(Seq<char>),
    IsDefault(bool),
    Version(Seq<char>),
    Unknown { tag: u8, value: Seq<u8> },
    String { tag: u8, value: Seq<char> },
    Bool { tag: u8, value: bool },
    Number { tag: u8, value: i32 },
}

impl View for OpnFiDiscoveryValue {
    type V = DiscoveryValueView;

    open spec fn view(&self) -> DiscoveryValueView {
        match self {
            OpnFiDiscoveryValue::HardwareAddress(m) => DiscoveryValueView::HardwareAddress(*m),
            OpnFiDiscoveryValue::IpInfo(i, m) => DiscoveryValueView::IpInfo(*i, *m),
            OpnFiDiscoveryValue::FirmwareVersion(s) => DiscoveryValueView::FirmwareVersion(s@),
            OpnFiDiscoveryValue::Username(s) => DiscoveryValueView::Username(s@),
            OpnFiDiscoveryValue::Salt(v) => DiscoveryValueView::Salt(v@),
            OpnFiDiscoveryValue::Challenge(v) => DiscoveryValueView::Challenge(v@),
            OpnFiDiscoveryValue::Uptime(n) => DiscoveryValueView::Uptime(*n),
            OpnFiDiscoveryValue::Hostname(s) => DiscoveryValueView::Hostname(s@),
            OpnFiDiscoveryValue::Platform(s) => DiscoveryValueView::Platform(s@),
            OpnFiDiscoveryValue::ESSID(s) => DiscoveryValueView::ESSID(s@),
            OpnFiDiscoveryValue::WMode(n) => DiscoveryValueView::WMode(*n),
            OpnFiDiscoveryValue::Sequence(n) => DiscoveryValueView::Sequence(*n),
            OpnFiDiscoveryValue::Serial(s) => DiscoveryValueView::Serial(s@),
            OpnFiDiscoveryValue::Model(s) => DiscoveryValueView::Model(s@),
            OpnFiDiscoveryValue::MinimumControllerVersion(s) => {
                DiscoveryValueView::MinimumControllerVersion(s@)
            },
            OpnFiDiscoveryValue::IsDefault(b) => DiscoveryValueView::IsDefault(*b),
            OpnFiDiscoveryValue::Version(s) => DiscoveryValueView::Version(s@),
            OpnFiDiscoveryValue::Unknown { tag, value } => DiscoveryValueView::Unknown {
                tag: *tag,
                value: value@,
            },
            OpnFiDiscoveryValue::String { tag, value } => DiscoveryValueView::String {
                tag: *tag,
                value: value@,
            },
            OpnFiDiscoveryValue::Bool { tag, value } => DiscoveryValueView::Bool {
                tag: *tag,
                value: *value,
            },
            OpnFiDiscoveryValue::Number { tag, value } => DiscoveryValueView::Number {
                tag: *tag,
                value: *value,
            },
        }
    }
}

/// The text that the bytes hold: their UTF-8 reading, or nothing where they are not UTF-8.
pub open spec fn text_of(bytes: Seq<u8>) -> Seq<char> {
    if valid_utf8(bytes) {
        decode_utf8(bytes)
    } else {
        Seq::empty()
    }
}

/// The flag that the bytes hold: whether the first byte is there and is 1.
pub open spec fn flag_of(bytes: Seq<u8>) -> bool {
    bytes.len() > 0 && bytes[0] == 1
}

/// The one byte of a flag.
pub open spec fn flag_bytes(flag: bool) -> Seq<u8> {
    seq![if flag { 1u8 } else { 0u8 }]
}

/// The 32-bit number that the bytes start with; `None` where there are fewer than four.
pub open spec fn i32_of(order: ByteOrder, bytes: Seq<u8>) -> Option<i32> {
    if bytes.len() < 4 {
        None
    } else {
        Some(i32_value(order, bytes.subrange(0, 4)))
    }
}

/// The 64-bit number that the bytes start with; `None` where there are fewer than eight.
pub open spec fn i64_of(order: ByteOrder, bytes: Seq<u8>) -> Option<i64> {
    if bytes.len() < 8 {
        None
    } else {
        Some(i64_value(order, bytes.subrange(0, 8)))
    }
}

/// Whether a generic text field may carry this tag.
pub open spec fn is_text_tag(tag: u8) -> bool {
    tag == 0x10 || tag == 0x1D
}

/// Whether a generic flag field may carry this tag.
pub open spec fn is_flag_tag(tag: u8) -> bool {
    tag == 0x18 || tag == 0x19 || tag == 0x1A
}

/// Whether a generic number field may carry this tag.
pub open spec fn is_number_tag(tag: u8) -> bool {
    tag == 0x1C
}

/// Whether the tag belongs to one of the named or generic fields.
pub open spec fn is_known_tag(tag: u8) -> bool {
    tag == 0x01 || tag == 0x02 || tag == 0x03 || tag == 0x06 || tag == 0x07 || tag == 0x08 || tag
        == 0x0A || tag == 0x0B || tag == 0x0C || tag == 0x0D || tag == 0x0E || tag == 0x12 || tag
        == 0x13 || tag == 0x15 || tag == 0x16 || tag == 0x17 || tag == 0x1B || is_text_tag(tag)
        || is_flag_tag(tag) || is_number_tag(tag)
}

/// The field that a record with this tag and these value bytes stands for. `None`
/// where a hardware address is not six bytes, an address pair is not ten, or a
/// number has fewer bytes than its width.
pub open spec fn value_of(order: ByteOrder, tag: u8, bytes: Seq<u8>) -> Option<
    DiscoveryValueView,
> {
    if tag == 0x01 {
        if bytes.len() == 6 {
            Some(DiscoveryValueView::HardwareAddress(seq_mac(bytes)))
        } else {
            None
        }
    } else if tag == 0x02 {
        if bytes.len() == 10 {
            Some(
                DiscoveryValueView::IpInfo(
                    seq_ip(bytes.subrange(6, 10)),
                    seq_mac(bytes.subrange(0, 6)),
                ),
            )
        } else {
            None
        }
    } else if tag == 0x03 {
        Some(DiscoveryValueView::FirmwareVersion(text_of(bytes)))
    } else if tag == 0x06 {
        Some(DiscoveryValueView::Username(text_of(bytes)))
    } else if tag == 0x07 {
        Some(DiscoveryValueView::Salt(bytes))
    } else if tag == 0x08 {
        Some(DiscoveryValueView::Challenge(bytes))
    } else if tag == 0x0A {
        match i64_of(order, bytes) {
            Some(n) => Some(DiscoveryValueView::Uptime(n)),
            None => None,
        }
    } else if tag == 0x0B {
        Some(DiscoveryValueView::Hostname(text_of(bytes)))
    } else if tag == 0x0C {
        Some(DiscoveryValueView::Platform(text_of(bytes)))
    } else if tag == 0x0D {
        Some(DiscoveryValueView::ESSID(text_of(bytes)))
    } else if tag == 0x0E {
        match i32_of(order, bytes) {
            Some(n) => Some(DiscoveryValueView::WMode(n)),
            None => None,
        }
    } else if tag == 0x12 {
        match i32_of(order, bytes) {
            Some(n) => Some(DiscoveryValueView::Sequence(n)),
            None => None,
        }
    } else if tag == 0x13 {
        Some(DiscoveryValueView::Serial(text_of(bytes)))
    } else if tag == 0x15 {
        Some(DiscoveryValueView::Model(text_of(bytes)))
    } else if tag == 0x16 {
        Some(DiscoveryValueView::MinimumControllerVersion(text_of(bytes)))
    } else if tag == 0x17 {
        Some(DiscoveryValueView::IsDefault(flag_of(bytes)))
    } else if tag == 0x1B {
        Some(DiscoveryValueView::Version(text_of(bytes)))
    } else if is_flag_tag(tag) {
        Some(DiscoveryValueView::Bool { tag, value: flag_of(bytes) })
    } else if is_text_tag(tag) {
        Some(DiscoveryValueView::String { tag, value: text_of(bytes) })
    } else if is_number_tag(tag) {
        match i32_of(order, bytes) {
            Some(value) => Some(DiscoveryValueView::Number { tag, value }),
            None => None,
        }
    } else {
        Some(DiscoveryValueView::Unknown { tag, value: bytes })
    }
}

impl DiscoveryValueView {
    /// The tag under which the field is written.
    pub open spec fn tag(self) -> u8 {
        match self {
            DiscoveryValueView::HardwareAddress(_) => 0x01,
            DiscoveryValueView::IpInfo(_, _) => 0x02,
            DiscoveryValueView::FirmwareVersion(_) => 0x03,
            DiscoveryValueView::Username(_) => 0x06,
            DiscoveryValueView::Salt(_) => 0x07,
            DiscoveryValueView::Challenge(_) => 0x08,
            DiscoveryValueView::Uptime(_) => 0x0A,
            DiscoveryValueView::Hostname(_) => 0x0B,
            DiscoveryValueView::Platform(_) => 0x0C,
            DiscoveryValueView::ESSID(_) => 0x0D,
            DiscoveryValueView::WMode(_) => 0x0E,
            DiscoveryValueView::Sequence(_) => 0x12,
            DiscoveryValueView::Serial(_) => 0x13,
            DiscoveryValueView::Model(_) => 0x15,
            DiscoveryValueView::MinimumControllerVersion(_) => 0x16,
            DiscoveryValueView::IsDefault(_) => 0x17,
            DiscoveryValueView::Version(_) => 0x1B,
            DiscoveryValueView::Unknown { tag, .. } => tag,
            DiscoveryValueView::String { tag, .. } => tag,
            DiscoveryValueView::Bool { tag, .. } => tag,
            DiscoveryValueView::Number { tag, .. } => tag,
        }
    }

    /// The value bytes as which the field is written: a hardware address before the
    /// network address it belongs to, text as UTF-8, a flag as one byte.
    pub open spec fn body(self, order: ByteOrder) -> Seq<u8> {
        match self {
            DiscoveryValueView::HardwareAddress(m) => mac_seq(m),
            DiscoveryValueView::IpInfo(i, m) => mac_seq(m) + ip_seq(i),
            DiscoveryValueView::FirmwareVersion(s) => encode_utf8(s),
            DiscoveryValueView::Username(s) => encode_utf8(s),
            DiscoveryValueView::Salt(v) => v,
            DiscoveryValueView::Challenge(v) => v,
            DiscoveryValueView::Uptime(n) => i64_bytes(order, n),
            DiscoveryValueView::Hostname(s) => encode_utf8(s),
            DiscoveryValueView::Platform(s) => encode_utf8(s),
            DiscoveryValueView::ESSID(s) => encode_utf8(s),
            DiscoveryValueView::WMode(n) => i32_bytes(order, n),
            DiscoveryValueView::Sequence(n) => i32_bytes(order, n),
            DiscoveryValueView::Serial(s) => encode_utf8(s),
            DiscoveryValueView::Model(s) => encode_utf8(s),
            DiscoveryValueView::MinimumControllerVersion(s) => encode_utf8(s),
            DiscoveryValueView::IsDefault(b) => flag_bytes(b),
            DiscoveryValueView::Version(s) => encode_utf8(s),
            DiscoveryValueView::Unknown { value, .. } => value,
            DiscoveryValueView::String { value, .. } => encode_utf8(value),
            DiscoveryValueView::Bool { value, .. } => flag_bytes(value),
            DiscoveryValueView::Number { value, .. } => i32_bytes(order, value),
        }
    }

    /// Whether the field is the one that its own record is read as: a generic field
    /// carries a tag of its kind, and an unknown one a tag that no kind has.
    pub open spec fn canonical(self) -> bool {
        match self {
            DiscoveryValueView::Unknown { tag, .. } => !is_known_tag(tag),
            DiscoveryValueView::String { tag, .. } => is_text_tag(tag),
            DiscoveryValueView::Bool { tag, .. } => is_flag_tag(tag),
            DiscoveryValueView::Number { tag, .. } => is_number_tag(tag),
            _ => true,
        }
    }

    /// The bytes of the field's record.
    pub open spec fn wire(self, order: ByteOrder) -> Seq<u8> {
        tlv_wire(order, self.tag(), self.body(order))
    }
}

/// The field whose record stands at the start of `data`, and the number of bytes
/// the record takes. `None` where `data` ends before the record does, or where
/// the record stands for no field.
pub open spec fn value_parse(order: ByteOrder, data: Seq<u8>) -> Option<
    (DiscoveryValueView, nat),
> {
    match tlv_parse(order, data) {
        Some((tag, bytes, used)) => match value_of(order, tag, bytes) {
            Some(v) => Some((v, used)),
            None => None,
        },
        None => None,
    }
}

/// A canonical field is the one that its own tag and value bytes stand for.
pub proof fn lemma_value_of_body(order: ByteOrder, v: DiscoveryValueView)
    requires
        v.canonical(),
    ensures
        value_of(order, v.tag(), v.body(order)) == Some(v),
{
    let bytes = v.body(order);
    match v {
        DiscoveryValueView::HardwareAddress(m) => {},
        DiscoveryValueView::IpInfo(i, m) => {
            assert(bytes.subrange(0, 6) =~= mac_seq(m));
            assert(bytes.subrange(6, 10) =~= ip_seq(i));
        },
        DiscoveryValueView::FirmwareVersion(s) => lemma_text_round_trip(s),
        DiscoveryValueView::Username(s) => lemma_text_round_trip(s),
        DiscoveryValueView::Salt(_) => {},
        DiscoveryValueView::Challenge(_) => {},
        DiscoveryValueView::Uptime(n) => {
            lemma_i64_round_trip(order, n);
            assert(bytes.subrange(0, 8) =~= bytes);
        },
        DiscoveryValueView::Hostname(s) => lemma_text_round_trip(s),
        DiscoveryValueView::Platform(s) => lemma_text_round_trip(s),
        DiscoveryValueView::ESSID(s) => lemma_text_round_trip(s),
        DiscoveryValueView::WMode(n) => {
            lemma_i32_round_trip(order, n);
            assert(bytes.subrange(0, 4) =~= bytes);
        },
        DiscoveryValueView::Sequence(n) => {
            lemma_i32_round_trip(order, n);
            assert(bytes.subrange(0, 4) =~= bytes);
        },
        DiscoveryValueView::Serial(s) => lemma_text_round_trip(s),
        DiscoveryValueView::Model(s) => lemma_text_round_trip(s),
        DiscoveryValueView::MinimumControllerVersion(s) => lemma_text_round_trip(s),
        DiscoveryValueView::IsDefault(_) => {},
        DiscoveryValueView::Version(s) => lemma_text_round_trip(s),
        DiscoveryValueView::Unknown { .. } => {},
        DiscoveryValueView::String { value, .. } => lemma_text_round_trip(value),
        DiscoveryValueView::Bool { .. } => {},
        DiscoveryValueView::Number { value, .. } => {
            lemma_i32_round_trip(order, value);
            assert(bytes.subrange(0, 4) =~= bytes);
        },
    }
}

/// Text is read back from its UTF-8 bytes.
pub proof fn lemma_text_round_trip(s: Seq<char>)
    ensures
        text_of(encode_utf8(s)) == s,
{
    vstd::utf8::encode_utf8_valid_utf8(s);
    vstd::utf8::encode_utf8_decode_utf8(s);
}

/// A canonical field whose value bytes fit a record is read back from the bytes
/// of its record, whatever follows them.
pub proof fn lemma_value_round_trip(order: ByteOrder, v: DiscoveryValueView, rest: Seq<u8>)
    requires
        v.canonical(),
        v.body(order).len() <= MAX_VALUE_LEN,
    ensures
        v.wire(order).len() == 3 + v.body(order).len(),
        value_parse(order, v.wire(order) + rest) == Some(
            (v, (3 + v.body(order).len()) as nat),
        ),
{
    lemma_tlv_round_trip(order, v.tag(), v.body(order), rest);
    lemma_value_of_body(order, v);
}

/// `String::from_utf8`: the text that the bytes encode, `None` where they are not
/// well-formed UTF-8.
#[verifier::external_body]
fn string_from_utf8(bytes: Vec<u8>) -> (r: Option<String>)
    ensures
        r.is_some() == valid_utf8(bytes@),
        r matches Some(s) ==> s@ == decode_utf8(bytes@),
{
    String::from_utf8(bytes).ok()
}

/// The text that the bytes hold, see `text_of`.
fn text_from(bytes: Vec<u8>) -> (r: String)
    ensures
        r@ == text_of(bytes@),
{
    match string_from_utf8(bytes) {
        Some(s) => s,
        None => String::new(),
    }
}

/// The flag that the bytes hold, see `flag_of`.
fn flag_from(bytes: &[u8]) -> (r: bool)
    ensures
        r == flag_of(bytes@),
{
    bytes.len() > 0 && bytes[0] == 1
}

/// The 32-bit number that the bytes start with, see `i32_of`.
fn i32_from(order: ByteOrder, bytes: &[u8]) -> (r: Result<i32, TlvError>)
    ensures
        match i32_of(order, bytes@) {
            Some(n) => r == Ok::<i32, TlvError>(n),
            None => r matches Err(TlvError::InvalidLength(_)),
        },
{
    if bytes.len() < 4 {
        Err(TlvError::InvalidLength(String::from_str("A 32-bit number takes 4 bytes.")))
    } else {
        Ok(read_i32(order, bytes, 0))
    }
}

/// The 64-bit number that the bytes start with, see `i64_of`.
fn i64_from(order: ByteOrder, bytes: &[u8]) -> (r: Result<i64, TlvError>)
    ensures
        match i64_of(order, bytes@) {
            Some(n) => r == Ok::<i64, TlvError>(n),
            None => r matches Err(TlvError::InvalidLength(_)),
        },
{
    if bytes.len() < 8 {
        Err(TlvError::InvalidLength(String::from_str("A 64-bit number takes 8 bytes.")))
    } else {
        Ok(read_i64(order, bytes, 0))
    }
}

impl OpnFiDiscoveryValue {
    /// The field that a record with this tag and these value bytes stands for.
    /// Refused with `InvalidLength` where a hardware address is not six bytes, an
    /// address pair is not ten, or a number has fewer bytes than its width.
    pub fn new(order: ByteOrder, tag: u8, value: Vec<u8>) -> (r: Result<Self, TlvError>)
        ensures
            match value_of(order, tag, value@) {
                Some(v) => r matches Ok(x) && x@ == v,
                None => r matches Err(TlvError::InvalidLength(_)),
            },
    {
        match tag {
            0x01 => {
                if value.len() != 6 {
                    return Err(
                        TlvError::InvalidLength(
                            String::from_str("A hardware address takes 6 bytes."),
                        ),
                    );
                }
                let mac = mac_at(value.as_slice(), 0);
                proof {
                    assert(value@.subrange(0, 6) =~= value@);
                }
                Ok(OpnFiDiscoveryValue::HardwareAddress(mac))
            },
            0x02 => {
                if value.len() != 10 {
                    return Err(
                        TlvError::InvalidLength(
                            String::from_str("An address pair takes 10 bytes."),
                        ),
                    );
                }
                let mac = mac_at(value.as_slice(), 0);
                let ip = ip_at(value.as_slice(), 6);
                Ok(OpnFiDiscoveryValue::IpInfo(ip, mac))
            },
            0x03 => Ok(OpnFiDiscoveryValue::FirmwareVersion(text_from(value))),
            0x06 => Ok(OpnFiDiscoveryValue::Username(text_from(value))),
            0x07 => Ok(OpnFiDiscoveryValue::Salt(value)),
            0x08 => Ok(OpnFiDiscoveryValue::Challenge(value)),
            0x0A => match i64_from(order, value.as_slice()) {
                Ok(n) => Ok(OpnFiDiscoveryValue::Uptime(n)),
                Err(e) => Err(e),
            },
            0x0B => Ok(OpnFiDiscoveryValue::Hostname(text_from(value))),
            0x0C => Ok(OpnFiDiscoveryValue::Platform(text_from(value))),
            0x0D => Ok(OpnFiDiscoveryValue::ESSID(text_from(value))),
            0x0E => match i32_from(order, value.as_slice()) {
                Ok(n) => Ok(OpnFiDiscoveryValue::WMode(n)),
                Err(e) => Err(e),
            },
            0x12 => match i32_from(order, value.as_slice()) {
                Ok(n) => Ok(OpnFiDiscoveryValue::Sequence(n)),
                Err(e) => Err(e),
            },
            0x13 => Ok(OpnFiDiscoveryValue::Serial(text_from(value))),
            0x15 => Ok(OpnFiDiscoveryValue::Model(text_from(value))),
            0x16 => Ok(OpnFiDiscoveryValue::MinimumControllerVersion(text_from(value))),
            0x17 => Ok(OpnFiDiscoveryValue::IsDefault(flag_from(value.as_slice()))),
            0x1B => Ok(OpnFiDiscoveryValue::Version(text_from(value))),
            0x18 | 0x19 | 0x1A => Ok(
                OpnFiDiscoveryValue::Bool { tag, value: flag_from(value.as_slice()) },
            ),
            0x10 | 0x1D => Ok(OpnFiDiscoveryValue::String { tag, value: text_from(value) }),
            0x1C => match i32_from(order, value.as_slice()) {
                Ok(n) => Ok(OpnFiDiscoveryValue::Number { tag, value: n }),
                Err(e) => Err(e),
            },
            _ => Ok(OpnFiDiscoveryValue::Unknown { tag, value }),
        }
    }

    /// Reads the field whose record stands at the start of `data`. Gives the field and
    /// the number of bytes its record took, or `InvalidLength` where `data` ends before
    /// the record does or the record stands for no field, see `value_of`.
    pub fn read(order: ByteOrder, data: &[u8]) -> (r: Result<(Self, usize), TlvError>)
        ensures
            match value_parse(order, data@) {
                Some((v, used)) => r matches Ok((x, n)) && x@ == v && n == used,
                None => r matches Err(TlvError::InvalidLength(_)),
            },
    {
        match Tlv::read(order, data) {
            Ok((tlv, used)) => {
                match OpnFiDiscoveryValue::new(order, tlv.tag, tlv.value) {
                    Ok(value) => Ok((value, used)),
                    Err(e) => Err(e),
                }
            },
            Err(e) => Err(e),
        }
    }

    /// Appends the bytes of the field's record to `out`. Refused with `InvalidLength`,
    /// and `out` left as it was, where the value bytes are more than 65535.
    pub fn write(&self, order: ByteOrder, out: &mut Vec<u8>) -> (r: Result<(), TlvError>)
        ensures
            self@.body(order).len() <= MAX_VALUE_LEN ==> r.is_ok() && final(out)@ == old(out)@
                + self@.wire(order),
            self@.body(order).len() > MAX_VALUE_LEN ==> (r matches Err(
                TlvError::InvalidLength(_),
            )) && final(out)@ == old(out)@,
    {
        let mut body: Vec<u8> = Vec::new();
        let tag: u8 = match self {
            OpnFiDiscoveryValue::HardwareAddress(m) => {
                put_mac(&mut body, m);
                0x01
            },
            OpnFiDiscoveryValue::IpInfo(i, m) => {
                put_mac(&mut body, m);
                put_ip(&mut body, i);
                0x02
            },
            OpnFiDiscoveryValue::FirmwareVersion(v) => {
                body = v.as_str().as_bytes_vec();
                0x03
            },
            OpnFiDiscoveryValue::Username(v) => {
                body = v.as_str().as_bytes_vec();
                0x06
            },
            OpnFiDiscoveryValue::Salt(v) => {
                return write_record(order, 0x07, v.as_slice(), out);
            },
            OpnFiDiscoveryValue::Challenge(v) => {
                return write_record(order, 0x08, v.as_slice(), out);
            },
            OpnFiDiscoveryValue::Uptime(value) => {
                write_i64(order, *value, &mut body);
                0x0A
            },
            OpnFiDiscoveryValue::Hostname(v) => {
                body = v.as_str().as_bytes_vec();
                0x0B
            },
            OpnFiDiscoveryValue::Platform(v) => {
                body = v.as_str().as_bytes_vec();
                0x0C
            },
            OpnFiDiscoveryValue::ESSID(v) => {
                body = v.as_str().as_bytes_vec();
                0x0D
            },
            OpnFiDiscoveryValue::WMode(value) => {
                write_i32(order, *value, &mut body);
                0x0E
            },
            OpnFiDiscoveryValue::Sequence(value) => {
                write_i32(order, *value, &mut body);
                0x12
            },
            OpnFiDiscoveryValue::Serial(v) => {
                body = v.as_str().as_bytes_vec();
                0x13
            },
            OpnFiDiscoveryValue::Model(v) => {
                body = v.as_str().as_bytes_vec();
                0x15
            },
            OpnFiDiscoveryValue::MinimumControllerVersion(v) => {
                body = v.as_str().as_bytes_vec();
                0x16
            },
            OpnFiDiscoveryValue::IsDefault(v) => {
                body.push(if *v { 1u8 } else { 0u8 });
                0x17
            },
            OpnFiDiscoveryValue::Version(v) => {
                body = v.as_str().as_bytes_vec();
                0x1B
            },
            OpnFiDiscoveryValue::Unknown { tag, value } => {
                return write_record(order, *tag, value.as_slice(), out);
            },
            OpnFiDiscoveryValue::String { tag, value } => {
                body = value.as_str().as_bytes_vec();
                *tag
            },
            OpnFiDiscoveryValue::Number { tag, value } => {
                write_i32(order, *value, &mut body);
                *tag
            },
            OpnFiDiscoveryValue::Bool { tag, value } => {
                body.push(if *value { 1u8 } else { 0u8 });
                *tag
            },
        };
        proof {
            assert(body@ =~= self@.body(order));
        }
        write_record(order, tag, body.as_slice(), out)
    }
}

// ===== Discovery Packet =====
/// A discovery packet: its version, its command and its fields in order.
#[derive(PartialEq, Clone, Debug)]
pub struct OpnFiDiscoveryPacket {
    pub version: u8,
    pub command: OpnFiDiscoveryCommand,
    pub values: Vec<OpnFiDiscoveryValue>,
}

/// What an `OpnFiDiscoveryPacket` holds.
pub struct DiscoveryPacketView {
    pub version: u8,
    pub command: OpnFiDiscoveryCommand,
    pub values: Seq<DiscoveryValueView>,
}

/// The fields as what they hold, in order.
pub open spec fn value_views(values: Seq<OpnFiDiscoveryValue>) -> Seq<DiscoveryValueView> {
    values.map_values(|v: OpnFiDiscoveryValue| v@)
}

impl View for OpnFiDiscoveryPacket {
    type V = DiscoveryPacketView;

    open spec fn view(&self) -> DiscoveryPacketView {
        DiscoveryPacketView {
            version: self.version,
            command: self.command,
            values: value_views(self.values@),
        }
    }
}

/// The records of the fields, one after the other.
pub open spec fn values_wire(order: ByteOrder, values: Seq<DiscoveryValueView>) -> Seq<u8>
    decreases values.len(),
{
    if values.len() == 0 {
        Seq::empty()
    } else {
        values_wire(order, values.drop_last()) + values.last().wire(order)
    }
}

/// The fields whose records stand in `data` one after the other, up to the first
/// place where no whole record of a field stands.
pub open spec fn values_of(order: ByteOrder, data: Seq<u8>) -> Seq<DiscoveryValueView>
    decreases data.len(),
{
    match value_parse(order, data) {
        Some((v, used)) => if 0 < used <= data.len() {
            seq![v] + values_of(order, data.skip(used as int))
        } else {
            Seq::empty()
        },
        None => Seq::empty(),
    }
}

impl DiscoveryPacketView {
    /// The bytes of the packet: the version, then one record whose tag is the
    /// command and whose value holds the records of the fields.
    pub open spec fn wire(self, order: ByteOrder) -> Seq<u8> {
        seq![self.version] + tlv_wire(
            order,
            self.command.code(),
            values_wire(order, self.values),
        )
    }

    /// Whether the packet is the one that its own bytes are read as: its command
    /// and its fields are canonical and the records of its fields fit one record.
    pub open spec fn canonical(self, order: ByteOrder) -> bool {
        &&& self.command.canonical()
        &&& forall|i: int| 0 <= i < self.values.len() ==> (#[trigger] self.values[i]).canonical()
        &&& values_wire(order, self.values).len() <= MAX_VALUE_LEN
    }
}

/// The packet that stands at the start of `data`; `None` where `data` ends before
/// the version byte or before the end of the outer record.
pub open spec fn packet_parse(order: ByteOrder, data: Seq<u8>) -> Option<DiscoveryPacketView> {
    if data.len() < 1 {
        None
    } else {
        match tlv_parse(order, data.skip(1)) {
            Some((tag, body, _)) => Some(
                DiscoveryPacketView {
                    version: data[0],
                    command: command_of(tag),
                    values: values_of(order, body),
                },
            ),
            None => None,
        }
    }
}

/// The records of a run of fields are the record of the first, then those of the others.
pub proof fn lemma_values_wire_front(order: ByteOrder, values: Seq<DiscoveryValueView>)
    requires
        values.len() > 0,
    ensures
        values_wire(order, values) == values[0].wire(order) + values_wire(order, values.skip(1)),
    decreases values.len(),
{
    if values.len() == 1 {
        assert(values.drop_last() =~= Seq::<DiscoveryValueView>::empty());
        assert(values.skip(1) =~= Seq::<DiscoveryValueView>::empty());
        assert(values_wire(order, values.drop_last()) =~= Seq::<u8>::empty());
        assert(values_wire(order, values) =~= values[0].wire(order) + values_wire(
            order,
            values.skip(1),
        ));
    } else {
        let front = values.drop_last();
        lemma_values_wire_front(order, front);
        assert(front.skip(1) =~= values.skip(1).drop_last());
        assert(values.skip(1).last() == values.last());
        assert(values_wire(order, values) =~= values[0].wire(order) + values_wire(
            order,
            values.skip(1),
        ));
    }
}

/// The records of a run of fields take three bytes and the value bytes for each
/// field, so no less than the records of the fields before any one place.
pub proof fn lemma_values_wire_len(order: ByteOrder, values: Seq<DiscoveryValueView>, n: int)
    requires
        0 <= n < values.len(),
    ensures
        values_wire(order, values.take(n)).len() + 3 + values[n].body(order).len()
            <= values_wire(order, values).len(),
    decreases values.len(),
{
    let last = values.last();
    crate::byte_order::lemma_be_bytes_len(last.body(order).len() as u16 as nat, 2);
    assert(last.wire(order).len() == 3 + last.body(order).len());
    if n == values.len() - 1 {
        assert(values.take(n) =~= values.drop_last());
    } else {
        lemma_values_wire_len(order, values.drop_last(), n);
        assert(values.drop_last().take(n) =~= values.take(n));
    }
}

/// Canonical fields whose records fit one record are read back from their records.
pub proof fn lemma_values_round_trip(order: ByteOrder, values: Seq<DiscoveryValueView>)
    requires
        forall|i: int| 0 <= i < values.len() ==> (#[trigger] values[i]).canonical(),
        values_wire(order, values).len() <= MAX_VALUE_LEN,
    ensures
        values_of(order, values_wire(order, values)) == values,
    decreases values.len(),
{
    if values.len() == 0 {
        assert(values_of(order, values_wire(order, values)) =~= values);
    } else {
        let first = values[0];
        let others = values.skip(1);
        let data = values_wire(order, values);
        lemma_values_wire_front(order, values);
        lemma_values_wire_len(order, values, 0);
        lemma_value_round_trip(order, first, values_wire(order, others));
        let used = 3 + first.body(order).len();
        assert(data.skip(used as int) =~= values_wire(order, others));
        assert forall|i: int| 0 <= i < others.len() implies (#[trigger] others[i]).canonical() by {
            assert(others[i] == values[i + 1]);
        }
        lemma_values_round_trip(order, others);
        assert(seq![first] + others =~= values);
    }
}

/// A canonical packet is read back from its bytes, whatever follows them.
pub proof fn lemma_packet_round_trip(order: ByteOrder, packet: DiscoveryPacketView, rest: Seq<u8>)
    requires
        packet.canonical(order),
    ensures
        packet_parse(order, packet.wire(order) + rest) == Some(packet),
{
    let body = values_wire(order, packet.values);
    let data = packet.wire(order) + rest;
    lemma_tlv_round_trip(order, packet.command.code(), body, rest);
    assert(data.skip(1) =~= tlv_wire(order, packet.command.code(), body) + rest);
    lemma_values_round_trip(order, packet.values);
    lemma_command_round_trip(0, packet.command);
}

impl OpnFiDiscoveryPacket {
    /// A packet with this version, command and fields; with no fields where none are given.
    pub fn new(
        version: u8,
        command: OpnFiDiscoveryCommand,
        values: Option<Vec<OpnFiDiscoveryValue>>,
    ) -> (r: Self)
        ensures
            r.version == version,
            r.command == command,
            r.values@ == match values {
                Some(v) => v@,
                None => Seq::empty(),
            },
    {
        OpnFiDiscoveryPacket {
            version,
            command,
            values: match values {
                Some(v) => v,
                None => Vec::new(),
            },
        }
    }

    /// A packet of version 2 with this command and these fields.
    pub fn v2(command: OpnFiDiscoveryCommand, values: Option<Vec<OpnFiDiscoveryValue>>) -> (r:
        Self)
        ensures
            r.version == 2,
            r.command == command,
            r.values@ == match values {
                Some(v) => v@,
                None => Seq::empty(),
            },
    {
        OpnFiDiscoveryPacket::new(0x02, command, values)
    }

    /// Reads the packet that stands at the start of `data`: the version, then the
    /// outer record, whose value is read as fields up to the first place where no
    /// whole record of a field stands. `InvalidLength` where `data` ends before the
    /// outer record does.
    pub fn read(order: ByteOrder, data: &[u8]) -> (r: Result<Self, TlvError>)
        ensures
            match packet_parse(order, data@) {
                Some(p) => r matches Ok(x) && x@ == p,
                None => r matches Err(TlvError::InvalidLength(_)),
            },
    {
        if data.len() < 1 {
            return Err(TlvError::InvalidLength(String::from_str("The packet is empty.")));
        }
        let version: u8 = data[0];
        let outer = vstd::slice::slice_subrange(data, 1, data.len());
        proof {
            assert(outer@ =~= data@.skip(1));
        }
        match Tlv::read(order, outer) {
            Ok((tlv, _)) => {
                let values = read_values(order, tlv.value.as_slice());
                Ok(OpnFiDiscoveryPacket { version, command: OpnFiDiscoveryCommand::new(tlv.tag), values })
            },
            Err(e) => Err(e),
        }
    }

    /// Appends the bytes of the packet to `out`. Refused with `InvalidLength`, and
    /// `out` left as it was, where the records of the fields take more than 65535 bytes.
    pub fn write(&self, order: ByteOrder, out: &mut Vec<u8>) -> (r: Result<(), TlvError>)
        ensures
            values_wire(order, self@.values).len() <= MAX_VALUE_LEN ==> r.is_ok() && final(out)@
                == old(out)@ + self@.wire(order),
            values_wire(order, self@.values).len() > MAX_VALUE_LEN ==> (r matches Err(
                TlvError::InvalidLength(_),
            )) && final(out)@ == old(out)@,
    {
        let ghost views = self@.values;
        let mut body: Vec<u8> = Vec::new();
        let n: usize = self.values.len();
        let mut i: usize = 0;
        while i < n
            invariant
                i <= n,
                n == self.values@.len(),
                views == value_views(self.values@),
                body@ == values_wire(order, views.take(i as int)),
            decreases n - i,
        {
            proof {
                lemma_values_wire_len(order, views, i as int);
                assert(views.take(i + 1).drop_last() =~= views.take(i as int));
                assert(views.take(i + 1).last() == views[i as int]);
            }
            match self.values[i].write(order, &mut body) {
                Ok(()) => {},
                Err(e) => {
                    return Err(e);
                },
            }
            i += 1;
        }
        proof {
            assert(views.take(n as int) =~= views);
        }
        let mut packet: Vec<u8> = Vec::new();
        packet.push(self.version);
        match write_record(order, self.command.value(), body.as_slice(), &mut packet) {
            Ok(()) => {},
            Err(e) => {
                return Err(e);
            },
        }
        crate::byte_order::put_bytes(out, packet.as_slice());
        proof {
            assert(packet@ =~= self@.wire(order));
        }
        Ok(())
    }
}

/// The fields whose records stand in `data` one after the other, see `values_of`.
pub fn read_values(order: ByteOrder, data: &[u8]) -> (r: Vec<OpnFiDiscoveryValue>)
    ensures
        value_views(r@) == values_of(order, data@),
{
    let mut values: Vec<OpnFiDiscoveryValue> = Vec::new();
    let total: usize = data.len();
    let mut at: usize = 0;
    let mut done: bool = false;
    proof {
        assert(data@.skip(0) =~= data@);
        assert(value_views(values@) + values_of(order, data@) =~= values_of(order, data@));
    }
    while !done
        invariant
            at <= total,
            total == data@.len(),
            values_of(order, data@) == value_views(values@) + values_of(
                order,
                data@.skip(at as int),
            ),
            done ==> values_of(order, data@.skip(at as int)).len() == 0,
        decreases
                if done {
                    0
                } else {
                    1 + total - at
                },
    {
        let rest = vstd::slice::slice_subrange(data, at, total);
        proof {
            assert(rest@ =~= data@.skip(at as int));
        }
        match OpnFiDiscoveryValue::read(order, rest) {
            Ok((value, used)) => {
                proof {
                    let tail = data@.skip(at as int);
                    assert(tail.skip(used as int) =~= data@.skip(at + used));
                    assert(value_views(values@.push(value)) =~= value_views(values@).push(
                        value@,
                    ));
                    assert(value_views(values@).push(value@) + values_of(
                        order,
                        data@.skip(at + used),
                    ) =~= value_views(values@) + (seq![value@] + values_of(
                        order,
                        data@.skip(at + used),
                    )));
                }
                values.push(value);
                at = at + used;
            },
            Err(_) => {
                done = true;
            },
        }
    }
    proof {
        assert(value_views(values@) + values_of(order, data@.skip(at as int)) =~= value_views(
            values@,
        ));
    }
    values
}

impl Default for OpnFiDiscoveryPacket {
    /// Version 0, the unknown command 0 and no fields.
    fn default() -> (r: Self)
        ensures
            r.version == 0,
            r.command == OpnFiDiscoveryCommand::Unknown(0),
            r.values@.len() == 0,
    {
        OpnFiDiscoveryPacket::new(0, OpnFiDiscoveryCommand::Unknown(0), None)
    }
}

} // verus!
