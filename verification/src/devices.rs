//! Data sets of the watches that the library serves.

pub mod timex_datalink_150;
