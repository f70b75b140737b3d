//! The one error type of the inform codec.

use vstd::prelude::*;
use vstd::string::StringExecFns;

verus! {

/// Why an inform frame could not be read or written.
#[derive(Clone, Copy, Debug, PartialEq, Eq, Structural)]
pub enum OpnFiError {
    /// A failure that has no kind of its own.
    Generic,
    /// The input ended before the frame header did, or an output could not be written.
    IOError,
    /// The payload is not the JSON that was expected.
    SerdeJsonError,
    /// The frame does not start with the expected magic number.
    InvalidHeader,
    /// A value does not fit the field that has to hold it.
    InvalidInput,
    /// The data is not what its place asks for.
    InvalidData,
    /// The input ended before the payload did.
    UnexpectedEof,
    /// The payload could not be compressed or decompressed.
    CompressionError,
    /// The payload could not be encrypted, decrypted or authenticated.
    CipherError,
}

impl OpnFiError {
    /// The name of the error's kind.
    pub open spec fn kind_name(self) -> Seq<char> {
        match self {
            OpnFiError::Generic => "Generic"@,
            OpnFiError::IOError => "IOError"@,
            OpnFiError::SerdeJsonError => "SerdeJsonError"@,
            OpnFiError::InvalidHeader => "InvalidHeader"@,
            OpnFiError::InvalidInput => "InvalidInput"@,
            OpnFiError::InvalidData => "InvalidData"@,
            OpnFiError::UnexpectedEof => "UnexpectedEof"@,
            OpnFiError::CompressionError => "CompressionError"@,
            OpnFiError::CipherError => "CipherError"@,
        }
    }

    /// The error as one line of text: a fixed label, then the name of its kind.
    pub fn message(&self) -> (r: String)
        ensures
            r@ == "[OpnFiError] "@ + self.kind_name(),
    {
        let kind: &str = match self {
            OpnFiError::Generic => "Generic",
            OpnFiError::IOError => "IOError",
            OpnFiError::SerdeJsonError => "SerdeJsonError",
            OpnFiError::InvalidHeader => "InvalidHeader",
            OpnFiError::InvalidInput => "InvalidInput",
            OpnFiError::InvalidData => "InvalidData",
            OpnFiError::UnexpectedEof => "UnexpectedEof",
            OpnFiError::CompressionError => "CompressionError",
            OpnFiError::CipherError => "CipherError",
        };
        String::from_str("[OpnFiError] ").concat(kind)
    }
}

} // verus!
