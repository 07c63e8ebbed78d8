//! A library for querying and configuring wireless hardware on Linux
//! through the kernel's generic-netlink `nl80211` protocol family.
//!
//! The crate holds the protocol engine: the attribute registries, the
//! Type-Length-Value walker with typed payload extraction, the request
//! builders for each supported operation, the reply classification and
//! dump folding of the message exchange, and the entity decoders that
//! turn attribute sequences into wireless interfaces, stations, physical
//! devices and regulatory domains.  A transport feeds it raw reply
//! messages and sends the requests it builds.

pub mod attributes;
pub mod bytes;
pub mod commands;
pub mod error;
pub mod exchange;
pub mod interface;
pub mod netlink;
pub mod reg_domain;
pub mod station;
pub mod time_span;
pub mod wiphy;

pub use attributes::MonitorFlags;
pub use bytes::TlvAttr;
pub use error::NlError;
pub use netlink::ChannelConfig;
