//! Value-oriented command set for protocol 4.

pub mod helpers;
pub mod protocol4;
