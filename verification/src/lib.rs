//! Decoder for the advertisement packet that a wireless temperature probe
//! broadcasts, together with the small value types its fields are read into.
//!
//! The packet has a fixed layout. [`decode_advertising_packet`] reads the
//! product type, the serial number and the mode, colour and identifier of a
//! probe out of a byte buffer, or says why the buffer is no such packet.
//!
//! [`decode_advertising_packet`]: decode_advertising_packet::decode_advertising_packet

pub mod decode_advertising_packet;
pub mod error;
pub mod hex;
pub mod types;
