//! The command that loads a wrist app.

use vstd::prelude::*;
use crate::PacketGenerator;
use crate::helpers::zap_file::{code_of_container, extract_code, hex_value, ZapError};
use crate::protocol_4::wrist_app::{app_packets, wrist_app_packets};

verus! {

/// Which section of a protocol 3 container holds the app's code.
pub const WRIST_APP_CODE_INDEX: usize = 8;

/// A small program for the watch.
pub struct WristApp {
    /// The app's code.
    pub wrist_app_data: Vec<u8>,
}

impl WristApp {
    /// An app with the code `wrist_app_data`.
    pub fn new(wrist_app_data: Vec<u8>) -> (app: Self)
        ensures
            app.wrist_app_data == wrist_app_data,
    {
        Self { wrist_app_data }
    }

    /// Takes the app's code out of the bytes of a container file.
    pub fn parse_zap_file(zap_data: &[u8]) -> (code: Result<Vec<u8>, ZapError>)
        ensures
            match code {
                Ok(bytes) => code_of_container(zap_data@, WRIST_APP_CODE_INDEX as nat) == Ok::<
                    Seq<u8>,
                    ZapError,
                >(bytes@),
                Err(e) => code_of_container(zap_data@, WRIST_APP_CODE_INDEX as nat) == Err::<
                    Seq<u8>,
                    ZapError,
                >(e),
            },
    {
        extract_code(zap_data, WRIST_APP_CODE_INDEX)
    }

    /// The value of a hexadecimal digit.
    pub fn hex_digit_to_value(digit: u8) -> (value: Option<u8>)
        ensures
            value == hex_value(digit),
    {
        crate::helpers::zap_file::hex_digit_to_value(digit)
    }
}

impl PacketGenerator for WristApp {
    open spec fn sendable(&self) -> bool {
        true
    }

    open spec fn packets_view(&self) -> Seq<Seq<u8>> {
        app_packets(self.wrist_app_data@)
    }

    fn packets(&self) -> (packets: Vec<Vec<u8>>) {
        wrist_app_packets(self.wrist_app_data.as_slice())
    }
}

} // verus!
