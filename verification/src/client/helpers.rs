//! Text encoders and framers shared by the protocol 4 commands.

pub mod char_encoders;
pub mod crc_packets_wrapper;
pub mod decimal;
pub mod length_packet_wrapper;
