//! A verified IPv4 packet transcoding engine.
//!
//! The engine disguises TCP and UDP datagrams as ICMP (`wrap`) and reverses
//! the disguise (`unwrap`), so that filters which pass only ICMP traffic let
//! the tunneled flows through. It classifies raw packets, rewrites the
//! protocol field reversibly (remembering the original transport in a hidden
//! header flag bit), optionally redirects broadcast destinations, and repairs
//! the IPv4 header checksum.

pub mod checksum;
pub mod classify;
pub mod summary;
pub mod transcode;
