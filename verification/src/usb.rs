//! What a USB device node says of itself.

use vstd::prelude::*;
use crate::path::{file_name, path_file_name};
use crate::text::{
    first_line, first_line_of, hex16_of, hex4, hex_digit_value, lemma_hex16_needs_digits, opt_text,
    parse_hex16, push_hex4, trim, trimmed,
};

verus! {

/// The text of an attribute file: the first line of what was read,
/// trimmed; nothing where the file could not be opened.
pub open spec fn attribute_text(line: Option<Seq<char>>) -> Option<Seq<char>> {
    match line {
        Some(l) => Some(trimmed(first_line(l))),
        None => None,
    }
}

/// The number in an attribute file: its text read as hexadecimal, and zero
/// where there is no text or the text is no such number.
pub open spec fn attribute_hex(line: Option<Seq<char>>) -> u16 {
    match attribute_text(line) {
        Some(t) => match hex16_of(t) {
            Some(v) => v,
            None => 0,
        },
        None => 0,
    }
}

/// Turns what was read from the start of an attribute file into the
/// attribute's text: its first line, trimmed. `None` stands for a file
/// that could not be opened.
pub fn read_option_string(line: &Option<String>) -> (text: Option<String>)
    ensures
        opt_text(text) == attribute_text(opt_text(*line)),
{
    match line {
        Some(l) => Some(trim(first_line_of(l.as_str()))),
        None => None,
    }
}

/// Turns what was read from the start of an attribute file into the
/// 16-bit number that its first line holds in hexadecimal. Zero stands for
/// a missing file as well as for text that is no number.
pub fn read_hex_int(line: &Option<String>) -> (value: u16)
    ensures
        value == attribute_hex(opt_text(*line)),
{
    match read_option_string(line) {
        Some(t) => match parse_hex16(t.as_str()) {
            Some(v) => v,
            None => 0,
        },
        None => 0,
    }
}

/// What was read from the start of each attribute file of a USB device
/// node, through its first line at least; `None` for a file that could
/// not be opened.
#[derive(Clone, Debug, PartialEq, Eq)]
pub struct UsbAttributes {
    /// `idVendor`
    pub id_vendor: Option<String>,
    /// `idProduct`
    pub id_product: Option<String>,
    /// `serial`
    pub serial: Option<String>,
    /// `manufacturer`
    pub manufacturer: Option<String>,
    /// `product`
    pub product: Option<String>,
    /// `interface`
    pub interface: Option<String>,
}

/// The mathematical content of [`UsbAttributes`].
pub struct UsbLines {
    pub id_vendor: Option<Seq<char>>,
    pub id_product: Option<Seq<char>>,
    pub serial: Option<Seq<char>>,
    pub manufacturer: Option<Seq<char>>,
    pub product: Option<Seq<char>>,
    pub interface: Option<Seq<char>>,
}

impl View for UsbAttributes {
    type V = UsbLines;

    open spec fn view(&self) -> UsbLines {
        UsbLines {
            id_vendor: opt_text(self.id_vendor),
            id_product: opt_text(self.id_product),
            serial: opt_text(self.serial),
            manufacturer: opt_text(self.manufacturer),
            product: opt_text(self.product),
            interface: opt_text(self.interface),
        }
    }
}

impl UsbAttributes {
    /// The attributes of a node none of whose files can be read.
    pub fn missing() -> (attributes: UsbAttributes)
        ensures
            attributes@ == UsbLines::missing(),
    {
        UsbAttributes {
            id_vendor: None,
            id_product: None,
            serial: None,
            manufacturer: None,
            product: None,
            interface: None,
        }
    }
}

impl UsbLines {
    /// No file could be read.
    pub open spec fn missing() -> UsbLines {
        UsbLines {
            id_vendor: None,
            id_product: None,
            serial: None,
            manufacturer: None,
            product: None,
            interface: None,
        }
    }
}

/// The identity of a USB device.
#[derive(Clone, Debug, PartialEq, Eq)]
pub struct UsbPortInfo {
    /// Vendor id; zero where it is not known.
    pub vid: u16,
    /// Product id; zero where it is not known.
    pub pid: u16,
    pub serial_number: Option<String>,
    /// The device's address on the bus: the name of its directory.
    pub location: Option<String>,
    pub manufacturer: Option<String>,
    pub product: Option<String>,
    pub interface: Option<String>,
}

/// The mathematical content of [`UsbPortInfo`].
pub struct UsbIdentity {
    pub vid: u16,
    pub pid: u16,
    pub serial_number: Option<Seq<char>>,
    pub location: Option<Seq<char>>,
    pub manufacturer: Option<Seq<char>>,
    pub product: Option<Seq<char>>,
    pub interface: Option<Seq<char>>,
}

impl View for UsbPortInfo {
    type V = UsbIdentity;

    open spec fn view(&self) -> UsbIdentity {
        UsbIdentity {
            vid: self.vid,
            pid: self.pid,
            serial_number: opt_text(self.serial_number),
            location: opt_text(self.location),
            manufacturer: opt_text(self.manufacturer),
            product: opt_text(self.product),
            interface: opt_text(self.interface),
        }
    }
}

impl UsbIdentity {
    /// The identity of a device of which nothing is known.
    pub open spec fn unknown() -> UsbIdentity {
        UsbIdentity {
            vid: 0,
            pid: 0,
            serial_number: None,
            location: None,
            manufacturer: None,
            product: None,
            interface: None,
        }
    }

    /// The identity that the attribute files of the device directory `dir`
    /// give. Without a directory nothing was read, and nothing is known.
    pub open spec fn of(dir: Option<Seq<char>>, lines: UsbLines) -> UsbIdentity {
        match dir {
            None => UsbIdentity::unknown(),
            Some(d) => UsbIdentity {
                vid: attribute_hex(lines.id_vendor),
                pid: attribute_hex(lines.id_product),
                serial_number: attribute_text(lines.serial),
                location: path_file_name(d),
                manufacturer: attribute_text(lines.manufacturer),
                product: attribute_text(lines.product),
                interface: attribute_text(lines.interface),
            },
        }
    }

    /// What the port is called for a reader: the product, else the
    /// manufacturer, else the port's own name.
    pub open spec fn label(self, name: Seq<char>) -> Seq<char> {
        match self.product {
            Some(p) => p,
            None => match self.manufacturer {
                Some(m) => m,
                None => name,
            },
        }
    }

    /// The label, followed by a space and the location where there is one.
    pub open spec fn description(self, name: Seq<char>) -> Seq<char> {
        match self.location {
            Some(l) => self.label(name) + " "@ + l,
            None => self.label(name),
        }
    }

    /// `USB VID:PID=` and the two ids in four hexadecimal digits each, then
    /// ` SER=` and the serial number where there is one.
    pub open spec fn hwid(self) -> Seq<char> {
        let ids = "USB VID:PID="@ + hex4(self.vid) + ":"@ + hex4(self.pid);
        match self.serial_number {
            Some(s) => ids + " SER="@ + s,
            None => ids,
        }
    }
}

/// The vendor id and the product id are zero where their file could not
/// be read, where its text is no hexadecimal number, and where there is no
/// device directory to read in.
pub proof fn lemma_ids_default_to_zero(dir: Option<Seq<char>>, lines: UsbLines)
    ensures
        dir is None || lines.id_vendor is None || hex16_of(attribute_text(lines.id_vendor)->0) is None
            ==> UsbIdentity::of(dir, lines).vid == 0,
        dir is None || lines.id_product is None || hex16_of(attribute_text(lines.id_product)->0) is None
            ==> UsbIdentity::of(dir, lines).pid == 0,
{
}

/// The number in an attribute file is zero where the file's text holds a
/// character that is no hexadecimal digit, other than a `+` in front of more.
pub proof fn lemma_other_text_is_zero(line: Seq<char>, i: int)
    requires
        0 <= i < attribute_text(Some(line))->0.len(),
        hex_digit_value(attribute_text(Some(line))->0[i]) is None,
        i > 0 || attribute_text(Some(line))->0[0] != '+' || attribute_text(Some(line))->0.len() == 1,
    ensures
        attribute_hex(Some(line)) == 0,
{
    lemma_hex16_needs_digits(attribute_text(Some(line))->0, i);
}

/// Without a device directory nothing is known of the device, whatever the
/// lines say.
pub proof fn lemma_no_directory_no_identity(lines: UsbLines)
    ensures
        UsbIdentity::of(None, lines) == UsbIdentity::unknown(),
{
}

impl UsbPortInfo {
    /// The identity of the USB device whose directory is `usb_device_path`,
    /// from the lines read there. Without a directory every field is at its
    /// default, whatever the lines say.
    pub fn new(usb_device_path: Option<&str>, attributes: &UsbAttributes) -> (info: UsbPortInfo)
        ensures
            info@ == UsbIdentity::of(
                match usb_device_path {
                    Some(d) => Some(d@),
                    None => None,
                },
                attributes@,
            ),
    {
        match usb_device_path {
            None => UsbPortInfo {
                vid: 0,
                pid: 0,
                serial_number: None,
                location: None,
                manufacturer: None,
                product: None,
                interface: None,
            },
            Some(dir) => UsbPortInfo {
                vid: read_hex_int(&attributes.id_vendor),
                pid: read_hex_int(&attributes.id_product),
                serial_number: read_option_string(&attributes.serial),
                location: file_name(dir),
                manufacturer: read_option_string(&attributes.manufacturer),
                product: read_option_string(&attributes.product),
                interface: read_option_string(&attributes.interface),
            },
        }
    }

    /// A line for a reader: what the device is and where it is plugged in.
    /// `name` is the port's own name, used where the device names neither
    /// product nor manufacturer.
    pub fn description(&self, name: &str) -> (text: String)
        ensures
            text@ == self@.description(name@),
    {
        let label: &str = match &self.product {
            Some(p) => p.as_str(),
            None => match &self.manufacturer {
                Some(m) => m.as_str(),
                None => name,
            },
        };
        let mut text = label.to_owned();
        match &self.location {
            Some(l) => {
                text.append(" ");
                text.append(l.as_str());
            },
            None => {},
        }
        text
    }

    /// The compact identity string that tools match on.
    pub fn hwid(&self) -> (text: String)
        ensures
            text@ == self@.hwid(),
    {
        let mut text = "USB VID:PID=".to_owned();
        push_hex4(&mut text, self.vid);
        text.append(":");
        push_hex4(&mut text, self.pid);
        match &self.serial_number {
            Some(s) => {
                text.append(" SER=");
                text.append(s.as_str());
            },
            None => {},
        }
        text
    }
}

} // verus!
