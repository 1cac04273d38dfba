//! Validator reward data of the Flare network, classified, ranked and cached.
//!
//! Records of the explorer are turned into validators ([`normalize`]), split
//! into those that meet every reward criterion and those that do not
//! ([`partition`]), the first ranked by their combined reward rate
//! ([`ranking`]), and the whole stamped and counted ([`snapshot`],
//! [`aggregator`]). One snapshot at a time is kept for five minutes
//! ([`cache`]), behind a lock where requests run side by side ([`shared`]).
//!
//! The library does not fetch and does not read a clock: its caller hands it
//! the records and the time. Rates are doubles held by their bit patterns
//! ([`rate`]); the library orders them and leaves their addition to the
//! caller.

pub mod aggregator;
pub mod cache;
pub mod domain;
pub mod error;
pub mod normalize;
pub mod partition;
pub mod ranking;
pub mod rate;
pub mod raw;
pub mod shared;
pub mod snapshot;
pub mod timestamp;
