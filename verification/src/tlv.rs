//! Tag-length-value records: one tag byte, a 16-bit length, then the value.

use crate::byte_order::{
    copy_range, lemma_u16_round_trip, put_bytes, read_u16, u16_bytes, u16_value, write_u16,
    ByteOrder,
};
use vstd::prelude::*;
use vstd::string::StringExecFns;

verus! {

/// The longest value that a record can carry.
pub const MAX_VALUE_LEN: usize = 65535;

/// Why a record could not be built, read or written.
#[derive(PartialEq, Clone, Debug)]
pub enum TlvError {
    InvalidInput(String),
    InvalidLength(String),
    ParseError(String),
    Unknown(String),
}

impl TlvError {
    /// The text carried by the error.
    pub open spec fn detail(self) -> Seq<char> {
        match self {
            TlvError::InvalidInput(s) => s@,
            TlvError::InvalidLength(s) => s@,
            TlvError::ParseError(s) => s@,
            TlvError::Unknown(s) => s@,
        }
    }

    /// The label that `message` puts in front of the detail.
    pub open spec fn label(self) -> Seq<char> {
        match self {
            TlvError::InvalidInput(_) => "[TlvError::InvalidInput] "@,
            TlvError::InvalidLength(_) => "[TlvError::InvalidLength] "@,
            TlvError::ParseError(_) => "[TlvError::ParseError] "@,
            TlvError::Unknown(_) => "[TlvError::Unknown] "@,
        }
    }

    /// The error as one line of text: its label, then its detail.
    pub fn message(&self) -> (r: String)
        ensures
            r@ == self.label() + self.detail(),
    {
        match self {
            TlvError::InvalidInput(s) => String::from_str("[TlvError::InvalidInput] ").concat(
                s.as_str(),
            ),
            TlvError::InvalidLength(s) => String::from_str("[TlvError::InvalidLength] ").concat(
                s.as_str(),
            ),
            TlvError::ParseError(s) => String::from_str("[TlvError::ParseError] ").concat(
                s.as_str(),
            ),
            TlvError::Unknown(s) => String::from_str("[TlvError::Unknown] ").concat(s.as_str()),
        }
    }
}

/// One record.
#[derive(PartialEq, Clone, Debug)]
pub struct Tlv {
    pub tag: u8,
    pub value: Vec<u8>,
}

/// The bytes of the record with this tag and value.
pub open spec fn tlv_wire(order: ByteOrder, tag: u8, value: Seq<u8>) -> Seq<u8> {
    seq![tag] + u16_bytes(order, value.len() as u16) + value
}

/// The record that stands at the start of `data`, as its tag, its value and
/// the number of bytes it takes; `None` where `data` ends before the record does.
pub open spec fn tlv_parse(order: ByteOrder, data: Seq<u8>) -> Option<(u8, Seq<u8>, nat)> {
    if data.len() < 3 {
        None
    } else {
        let len = u16_value(order, data.subrange(1, 3)) as int;
        if data.len() < 3 + len {
            None
        } else {
            Some((data[0], data.subrange(3, 3 + len), (3 + len) as nat))
        }
    }
}

/// A record of at most 65535 value bytes is read back from its bytes, whatever follows them.
pub proof fn lemma_tlv_round_trip(order: ByteOrder, tag: u8, value: Seq<u8>, rest: Seq<u8>)
    requires
        value.len() <= MAX_VALUE_LEN,
    ensures
        tlv_wire(order, tag, value).len() == 3 + value.len(),
        tlv_parse(order, tlv_wire(order, tag, value) + rest) == Some(
            (tag, value, 3 + value.len()),
        ),
{
    let len = value.len() as u16;
    lemma_u16_round_trip(order, len);
    let wire = tlv_wire(order, tag, value);
    let data = wire + rest;
    assert(data.subrange(1, 3) =~= u16_bytes(order, len));
    assert(data.subrange(3, 3 + value.len() as int) =~= value);
}

impl Tlv {
    /// The record as `tlv_parse` gives one: its tag, its value, and the number of
    /// bytes that it took.
    pub open spec fn parsed(self, used: nat) -> (u8, Seq<u8>, nat) {
        (self.tag, self.value@, used)
    }

    /// A record with this tag and value; refused where the value is longer than 65535 bytes.
    pub fn new(tag: u8, value: Vec<u8>) -> (r: Result<Tlv, TlvError>)
        ensures
            value@.len() <= MAX_VALUE_LEN ==> r == Ok::<Tlv, TlvError>(Tlv { tag, value }),
            value@.len() > MAX_VALUE_LEN ==> r matches Err(TlvError::InvalidLength(_)),
    {
        if value.len() > MAX_VALUE_LEN {
            Err(TlvError::InvalidLength(String::from_str("Tlv value length is limited to 65535.")))
        } else {
            Ok(Tlv { tag, value })
        }
    }

    /// The value's length as the length field holds it: modulo 65536.
    pub fn len(&self) -> (r: u16)
        ensures
            r == self.value@.len() % 65536,
    {
        (self.value.len() % 65536) as u16
    }

    /// Reads the record that stands at the start of `data`. Gives the record and the
    /// number of bytes it took, or `InvalidLength` where `data` ends too early.
    pub fn read(order: ByteOrder, data: &[u8]) -> (r: Result<(Tlv, usize), TlvError>)
        ensures
            match tlv_parse(order, data@) {
                Some(p) => r matches Ok((tlv, used)) && tlv.parsed(used as nat) == p,
                None => r matches Err(TlvError::InvalidLength(_)),
            },
    {
        if data.len() < 3 {
            return Err(TlvError::InvalidLength(String::from_str("Tlv header is incomplete.")));
        }
        let tag: u8 = data[0];
        let len: usize = read_u16(order, data, 1) as usize;
        if data.len() - 3 < len {
            return Err(TlvError::InvalidLength(String::from_str("Tlv value is incomplete.")));
        }
        let value = copy_range(data, 3, 3 + len);
        Ok((Tlv { tag, value }, 3 + len))
    }

    /// Appends the record's bytes to `out`. Refused with `InvalidLength`, and `out` left
    /// as it was, where the value is longer than 65535 bytes.
    pub fn write(&self, order: ByteOrder, out: &mut Vec<u8>) -> (r: Result<(), TlvError>)
        ensures
            self.value@.len() <= MAX_VALUE_LEN ==> r.is_ok() && final(out)@ == old(out)@
                + tlv_wire(order, self.tag, self.value@),
            self.value@.len() > MAX_VALUE_LEN ==> (r matches Err(TlvError::InvalidLength(_)))
                && final(out)@ == old(out)@,
    {
        write_record(order, self.tag, self.value.as_slice(), out)
    }
}

/// Appends the bytes of the record with this tag and value to `out`. Refused with
/// `InvalidLength`, and `out` left as it was, where the value is longer than 65535 bytes.
pub fn write_record(order: ByteOrder, tag: u8, value: &[u8], out: &mut Vec<u8>) -> (r: Result<
    (),
    TlvError,
>)
    ensures
        value@.len() <= MAX_VALUE_LEN ==> r.is_ok() && final(out)@ == old(out)@ + tlv_wire(
            order,
            tag,
            value@,
        ),
        value@.len() > MAX_VALUE_LEN ==> (r matches Err(TlvError::InvalidLength(_)))
            && final(out)@ == old(out)@,
{
    if value.len() > MAX_VALUE_LEN {
        return Err(
            TlvError::InvalidLength(String::from_str("Tlv value length is limited to 65535.")),
        );
    }
    out.push(tag);
    write_u16(order, value.len() as u16, out);
    put_bytes(out, value);
    proof {
        assert(out@ =~= old(out)@ + tlv_wire(order, tag, value@));
    }
    Ok(())
}

impl Default for Tlv {
    /// Tag 0 and no value.
    fn default() -> (r: Tlv)
        ensures
            r.tag == 0,
            r.value@.len() == 0,
    {
        Tlv { tag: 0, value: Vec::with_capacity(MAX_VALUE_LEN) }
    }
}

} // verus!
