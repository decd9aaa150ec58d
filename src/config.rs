use vstd::prelude::*;

verus! {

/// Identifier of the GATT service that carries the remote's commands.
pub const SERVICE_UUID: u128 = 0x4fafc201_1fb5_459e_8fcc_c5c9c331914b;

/// Identifier of the characteristic whose notifications carry command codes.
pub const CHARACTERISTIC_UUID: u128 = 0xbeb5483e_36e1_4688_b7f5_ea07361b26a8;

/// Advertised local name of the remote.
pub const ESP32_NAME: &'static str = "ESP32_Remote";

/// Seconds to let a scan collect advertisements before peripherals are listed.
pub const SCAN_SETTLE_SECS: u64 = 5;

/// Seconds without a notification after which the link is checked.
pub const CONNECTION_CHECK_INTERVAL_SECS: u64 = 10;

/// Seconds to wait after a session ends before a new one is started.
pub const RETRY_DELAY_SECS: u64 = 5;

} // verus!
