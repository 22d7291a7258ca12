//! LoRaWAN multicast group key management.
//!
//! An end-device joins remote multicast sessions by deriving per-group session
//! keys from a network-provisioned key hierarchy, decoding the network
//! server's group-setup command, and keeping a bounded pool of active
//! sessions so that downlink frames addressed to a group can be matched to
//! their keys.
//!
//! - [`keys`] holds the key types and the AES-128 based derivation chain
//!   `McRootKey -> McKEKey -> McKey -> {McAppSKey, McNetSKey}`.
//! - [`parser`] holds the 4-byte multicast group address.
//! - [`group_setup`] decodes the fixed-layout group-setup request and builds a
//!   [`group_setup::Session`].
//! - [`multicast`] owns the fixed-capacity pool of active sessions.
//! - [`default_crypto`] provides a crypto factory backed by the `aes` crate.

pub mod default_crypto;
pub mod group_setup;
pub mod keys;
pub mod multicast;
pub mod parser;
