//! Bluetooth Low Energy advertising-channel PDUs.
//!
//! This crate builds the broadcast packets a BLE device sends before any
//! connection exists: a 16-bit header codec plus a fixed-capacity assembler
//! that lays out a device address and advertising-data elements into a
//! bounded payload buffer.

pub mod ad_structure;
pub mod advertising;
pub mod bytes;
pub mod device_address;
pub mod error;
pub mod header;
pub mod pdu_type;

pub use ad_structure::AdStructure;
pub use advertising::{PduBuf, MAX_PAYLOAD_SIZE};
pub use bytes::ByteWriter;
pub use device_address::DeviceAddress;
pub use error::Error;
pub use header::Header;
pub use pdu_type::PduType;
