//! The nl80211 command codes this client issues, and the protocol version
//! written into each generic-netlink header.

use vstd::prelude::*;

verus! {

/// nl80211 protocol version byte.
pub const NL80211_VERSION: u8 = 1;

/// Request information about a physical wireless device, or dump all of
/// them.
pub const CMD_GET_WIPHY: u8 = 1;

/// Request an interface's configuration, or dump all interfaces.
pub const CMD_GET_INTERFACE: u8 = 5;

/// Set the type of a virtual interface.
pub const CMD_SET_INTERFACE: u8 = 6;

/// Request station information, or dump all stations of an interface.
pub const CMD_GET_STATION: u8 = 17;

/// Ask the wireless core for the currently set regulatory domain.
pub const CMD_GET_REG: u8 = 31;

/// Trigger a new scan.
pub const CMD_TRIGGER_SCAN: u8 = 33;

/// Stop an ongoing scan.
pub const CMD_ABORT_SCAN: u8 = 114;

/// Set the channel an interface operates on.
pub const CMD_SET_CHANNEL: u8 = 65;

} // verus!
