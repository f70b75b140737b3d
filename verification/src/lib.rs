//! Codec and device logic for the inform protocol spoken between a managed
//! network device and its controller, together with the TLV based discovery
//! packets that share its framing idioms.

pub mod byte_order;
pub mod config;
pub mod device;
pub mod discovery;
pub mod error;
pub mod inform;
pub mod tlv;
pub mod util;
