//! Snapshot enumeration of serial ports from a sysfs-like device tree.
//!
//! The library decides; its caller touches the file system. An enumeration is
//! a [`ListPorts`] value that names, one at a time, the lookup it needs next
//! and is told what the lookup found. A [`Probe`] does the same for one
//! device node.

pub mod path;
pub mod port;
pub mod ports;
pub mod probe;
pub mod text;
pub mod tree;
pub mod usb;

pub use port::{ListPortInfo, ListPortType};
pub use ports::ListPorts;
pub use probe::Probe;
pub use tree::{Reply, Request};
pub use usb::{read_hex_int, read_option_string, UsbAttributes, UsbPortInfo};
