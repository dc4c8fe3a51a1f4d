//! KNXnet/IP protocol implementation for embedded systems.
//!
//! Addressing, the common datapoint types, KNXnet/IP frames and services,
//! cEMI frames, a typestate tunneling client, gateway discovery and the
//! value codec of a high-level client, each with its behaviour stated and
//! proved.

pub mod addressing;
pub mod codec;
pub mod configuration;
pub mod dpt;
pub mod error;
pub mod knx_client;
pub mod knx_discovery;
pub mod net;
pub mod protocol;
pub mod text;
pub mod utility;

pub use addressing::group::ga;
pub use addressing::{GroupAddress, IndividualAddress};
pub use dpt::{Dpt1, Dpt5, Dpt9, DptDecode, DptEncode};
pub use error::{KnxError, KnxResult};
pub use knx_client::{DptType, KnxValue};
pub use net::Ipv4Addr;
