//! The settings the bridge runs with. Reading them from a file is left to the
//! program around the library.
use vstd::prelude::*;

verus! {

/// Settings of one bridge process.
pub struct Config {
    /// Device identifier: the root of every topic.
    pub uid: String,
    /// Path of the serial device the board is on.
    pub serial_port: String,
    /// Path of the process-id file.
    pub pid_file: String,
    /// Seconds between two status reports.
    pub post_seconds: u64,
    /// Broker connection.
    pub mqtt: Mqtt,
}

/// Broker connection settings.
pub struct Mqtt {
    pub url: String,
    pub user: String,
    pub pass: String,
    /// Keep-alive interval, in seconds.
    pub keep_alive: u64,
    pub port: u16,
    /// Connect over TLS.
    pub tls: bool,
}

} // verus!
