//! A serial-port library: enumeration of the ports that the host can see, and
//! an owned port handle with configuration, byte transfer and control lines.
//! Failures never abort: each one becomes a plain value plus a diagnostic.

pub mod port_info;
pub mod serial;

mod device;
