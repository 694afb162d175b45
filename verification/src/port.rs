//! The record that an enumeration gives for each port.

use vstd::prelude::*;
use crate::text::opt_text;
use crate::usb::{attribute_text, read_option_string, UsbIdentity, UsbPortInfo};

verus! {

/// The bus that a port hangs on.
#[derive(Clone, Debug, PartialEq, Eq)]
pub enum ListPortType {
    /// A USB device, with what it says of itself.
    UsbPort(UsbPortInfo),
    /// A legacy port known to plug and play.
    PnpPort,
    /// A UART on the chip's AMBA bus.
    AmbaPort,
    /// Nothing is known of the hardware.
    Unknown,
}

/// The mathematical content of [`ListPortType`].
pub enum PortType {
    UsbPort(UsbIdentity),
    PnpPort,
    AmbaPort,
    Unknown,
}

impl View for ListPortType {
    type V = PortType;

    open spec fn view(&self) -> PortType {
        match self {
            ListPortType::UsbPort(info) => PortType::UsbPort(info@),
            ListPortType::PnpPort => PortType::PnpPort,
            ListPortType::AmbaPort => PortType::AmbaPort,
            ListPortType::Unknown => PortType::Unknown,
        }
    }
}

/// One serial port.
#[derive(Clone, Debug, PartialEq, Eq)]
pub struct ListPortInfo {
    /// The device node, as it was handed in.
    pub device: String,
    /// The node's file name.
    pub name: String,
    /// A line for a reader.
    pub description: String,
    /// The compact identity string that tools match on.
    pub hwid: String,
    pub port_type: ListPortType,
}

/// The mathematical content of [`ListPortInfo`].
pub struct PortInfo {
    pub device: Seq<char>,
    pub name: Seq<char>,
    pub description: Seq<char>,
    pub hwid: Seq<char>,
    pub port_type: PortType,
}

impl View for ListPortInfo {
    type V = PortInfo;

    open spec fn view(&self) -> PortInfo {
        PortInfo {
            device: self.device@,
            name: self.name@,
            description: self.description@,
            hwid: self.hwid@,
            port_type: self.port_type@,
        }
    }
}

/// The content of an optional record.
pub open spec fn opt_port(info: Option<ListPortInfo>) -> Option<PortInfo> {
    match info {
        Some(i) => Some(i@),
        None => None,
    }
}

/// The content of each of a list of records.
pub open spec fn ports_view(ports: Seq<ListPortInfo>) -> Seq<PortInfo> {
    Seq::new(ports.len(), |i: int| ports[i]@)
}

impl PortInfo {
    /// A port on a USB device: described and identified by the device.
    pub open spec fn usb(device: Seq<char>, name: Seq<char>, identity: UsbIdentity) -> PortInfo {
        PortInfo {
            device,
            name,
            description: identity.description(name),
            hwid: identity.hwid(),
            port_type: PortType::UsbPort(identity),
        }
    }

    /// A plug-and-play port: described by its name, identified by the text
    /// of its `id` file, or by nothing where that file cannot be read.
    pub open spec fn pnp(device: Seq<char>, name: Seq<char>, id_line: Option<Seq<char>>) -> PortInfo {
        PortInfo {
            device,
            name,
            description: name,
            hwid: match attribute_text(id_line) {
                Some(t) => t,
                None => Seq::empty(),
            },
            port_type: PortType::PnpPort,
        }
    }

    /// A port on the AMBA bus: described by its name, identified by the name
    /// of its hardware node's directory.
    pub open spec fn amba(device: Seq<char>, name: Seq<char>, dir_name: Seq<char>) -> PortInfo {
        PortInfo { device, name, description: name, hwid: dir_name, port_type: PortType::AmbaPort }
    }

    /// A port of which nothing is known: no description, no identity.
    pub open spec fn unknown(device: Seq<char>, name: Seq<char>) -> PortInfo {
        PortInfo {
            device,
            name,
            description: Seq::empty(),
            hwid: Seq::empty(),
            port_type: PortType::Unknown,
        }
    }
}

impl ListPortInfo {
    /// The record of a port on the USB device `info`.
    pub fn usb(device: String, name: String, info: UsbPortInfo) -> (port: ListPortInfo)
        ensures
            port@ == PortInfo::usb(device@, name@, info@),
    {
        let description = info.description(name.as_str());
        let hwid = info.hwid();
        ListPortInfo { device, name, description, hwid, port_type: ListPortType::UsbPort(info) }
    }

    /// The record of a plug-and-play port. `id_line` is what was read from
    /// the start of its `id` file, `None` where the file could not be opened.
    pub fn pnp(device: String, name: String, id_line: &Option<String>) -> (port: ListPortInfo)
        ensures
            port@ == PortInfo::pnp(device@, name@, opt_text(*id_line)),
    {
        let description = name.clone();
        let hwid = match read_option_string(id_line) {
            Some(text) => text,
            None => String::new(),
        };
        ListPortInfo { device, name, description, hwid, port_type: ListPortType::PnpPort }
    }

    /// The record of a port on the AMBA bus, whose hardware node's directory
    /// is called `dir_name`.
    pub fn amba(device: String, name: String, dir_name: String) -> (port: ListPortInfo)
        ensures
            port@ == PortInfo::amba(device@, name@, dir_name@),
    {
        let description = name.clone();
        ListPortInfo { device, name, description, hwid: dir_name, port_type: ListPortType::AmbaPort }
    }

    /// The record of a port of which nothing is known.
    pub fn unknown(device: String, name: String) -> (port: ListPortInfo)
        ensures
            port@ == PortInfo::unknown(device@, name@),
    {
        ListPortInfo {
            device,
            name,
            description: String::new(),
            hwid: String::new(),
            port_type: ListPortType::Unknown,
        }
    }
}

} // verus!
