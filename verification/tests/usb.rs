use serial_enumerator::{ListPortInfo, ListPortType, UsbAttributes, UsbPortInfo};

fn line(text: &str) -> Option<String> {
    Some(format!("{}\n", text))
}

fn ftdi() -> UsbAttributes {
    UsbAttributes {
        id_vendor: line("0403"),
        id_product: line("6001"),
        serial: None,
        manufacturer: line("FTDI"),
        product: line("FT232R USB UART"),
        interface: None,
    }
}

fn bare(vid: u16, pid: u16) -> UsbPortInfo {
    UsbPortInfo {
        vid,
        pid,
        serial_number: None,
        location: None,
        manufacturer: None,
        product: None,
        interface: None,
    }
}

#[test]
fn usb_identity_is_read_from_the_attributes() {
    let info = UsbPortInfo::new(Some("/sys/devices/pci0000:00/usb1/1-1"), &ftdi());
    assert_eq!(info.vid, 0x0403);
    assert_eq!(info.pid, 0x6001);
    assert_eq!(info.serial_number, None);
    assert_eq!(info.location, Some("1-1".to_string()));
    assert_eq!(info.manufacturer, Some("FTDI".to_string()));
    assert_eq!(info.product, Some("FT232R USB UART".to_string()));
    assert_eq!(info.interface, None);
}

#[test]
fn usb_identity_keeps_every_text_field() {
    let attributes = UsbAttributes {
        id_vendor: line("1a86"),
        id_product: line("7523"),
        serial: line("A1B2C3"),
        manufacturer: line("QinHeng"),
        product: line("USB Serial"),
        interface: line("CDC"),
    };
    let info = UsbPortInfo::new(Some("/sys/devices/usb2/2-1/2-1.4"), &attributes);
    assert_eq!(
        info,
        UsbPortInfo {
            vid: 0x1a86,
            pid: 0x7523,
            serial_number: Some("A1B2C3".to_string()),
            location: Some("2-1.4".to_string()),
            manufacturer: Some("QinHeng".to_string()),
            product: Some("USB Serial".to_string()),
            interface: Some("CDC".to_string()),
        }
    );
}

#[test]
fn usb_identity_without_a_directory_is_all_default() {
    let info = UsbPortInfo::new(None, &ftdi());
    assert_eq!(info, bare(0, 0));
    assert_eq!(UsbPortInfo::new(None, &UsbAttributes::missing()), bare(0, 0));
}

#[test]
fn missing_id_vendor_gives_zero() {
    let mut attributes = ftdi();
    attributes.id_vendor = None;
    let info = UsbPortInfo::new(Some("/sys/devices/usb1/1-1"), &attributes);
    assert_eq!(info.vid, 0);
    assert_eq!(info.pid, 0x6001);
}

#[test]
fn missing_id_product_gives_zero() {
    let mut attributes = ftdi();
    attributes.id_product = None;
    let info = UsbPortInfo::new(Some("/sys/devices/usb1/1-1"), &attributes);
    assert_eq!(info.vid, 0x0403);
    assert_eq!(info.pid, 0);
}

#[test]
fn ids_that_are_no_hex_give_zero() {
    let mut attributes = ftdi();
    attributes.id_vendor = line("zzzz");
    attributes.id_product = line("");
    let info = UsbPortInfo::new(Some("/sys/devices/usb1/1-1"), &attributes);
    assert_eq!(info.vid, 0);
    assert_eq!(info.pid, 0);
}

#[test]
fn usb_location_of_a_directory_without_name_is_absent() {
    let info = UsbPortInfo::new(Some("/"), &ftdi());
    assert_eq!(info.location, None);
    assert_eq!(info.vid, 0x0403);
}

#[test]
fn description_prefers_the_product() {
    let info = UsbPortInfo::new(Some("/sys/devices/usb1/1-1"), &ftdi());
    assert_eq!(info.description("ttyUSB0"), "FT232R USB UART 1-1");
}

#[test]
fn description_falls_back_to_the_manufacturer() {
    let mut attributes = ftdi();
    attributes.product = None;
    let info = UsbPortInfo::new(Some("/sys/devices/usb1/1-1"), &attributes);
    assert_eq!(info.description("ttyUSB0"), "FTDI 1-1");
}

#[test]
fn description_falls_back_to_the_port_name() {
    let info = UsbPortInfo::new(Some("/sys/devices/usb1/1-1.2"), &UsbAttributes::missing());
    assert_eq!(info.description("ttyACM3"), "ttyACM3 1-1.2");
}

#[test]
fn description_leaves_out_a_missing_location() {
    let mut info = bare(1, 2);
    assert_eq!(info.description("ttyUSB0"), "ttyUSB0");
    info.manufacturer = Some("FTDI".to_string());
    assert_eq!(info.description("ttyUSB0"), "FTDI");
    info.product = Some("FT232R USB UART".to_string());
    assert_eq!(info.description("ttyUSB0"), "FT232R USB UART");
}

#[test]
fn hwid_holds_both_ids_in_four_digits() {
    let info = UsbPortInfo::new(Some("/sys/devices/usb1/1-1"), &ftdi());
    assert_eq!(info.hwid(), "USB VID:PID=0403:6001");
    assert_eq!(bare(0, 0).hwid(), "USB VID:PID=0000:0000");
    assert_eq!(bare(0x1a86, 0x7523).hwid(), "USB VID:PID=1A86:7523");
    assert_eq!(bare(0xffff, 0x000f).hwid(), "USB VID:PID=FFFF:000F");
}

#[test]
fn hwid_ends_with_the_serial_number() {
    let mut info = bare(0x0403, 0x6001);
    info.serial_number = Some("A6008isP".to_string());
    assert_eq!(info.hwid(), "USB VID:PID=0403:6001 SER=A6008isP");
    info.serial_number = Some(String::new());
    assert_eq!(info.hwid(), "USB VID:PID=0403:6001 SER=");
}

#[test]
fn usb_record_is_described_by_the_device() {
    let info = UsbPortInfo::new(Some("/sys/devices/usb1/1-1"), &ftdi());
    let port = ListPortInfo::usb("/dev/ttyUSB0".to_string(), "ttyUSB0".to_string(), info.clone());
    assert_eq!(port.device, "/dev/ttyUSB0");
    assert_eq!(port.name, "ttyUSB0");
    assert_eq!(port.description, "FT232R USB UART 1-1");
    assert_eq!(port.hwid, "USB VID:PID=0403:6001");
    assert_eq!(port.port_type, ListPortType::UsbPort(info));
}

#[test]
fn pnp_record_is_identified_by_its_id_file() {
    let port = ListPortInfo::pnp("/dev/ttyS0".to_string(), "ttyS0".to_string(), &line("PNP0501"));
    assert_eq!(port.description, "ttyS0");
    assert_eq!(port.hwid, "PNP0501");
    assert_eq!(port.port_type, ListPortType::PnpPort);
    let bare = ListPortInfo::pnp("/dev/ttyS1".to_string(), "ttyS1".to_string(), &None);
    assert_eq!(bare.description, "ttyS1");
    assert_eq!(bare.hwid, "");
}

#[test]
fn amba_record_is_identified_by_its_directory() {
    let port = ListPortInfo::amba(
        "/dev/ttyAMA0".to_string(),
        "ttyAMA0".to_string(),
        "3f201000.serial".to_string(),
    );
    assert_eq!(port.device, "/dev/ttyAMA0");
    assert_eq!(port.name, "ttyAMA0");
    assert_eq!(port.description, "ttyAMA0");
    assert_eq!(port.hwid, "3f201000.serial");
    assert_eq!(port.port_type, ListPortType::AmbaPort);
}

#[test]
fn unknown_record_is_empty() {
    let port = ListPortInfo::unknown("/dev/rfcomm0".to_string(), "rfcomm0".to_string());
    assert_eq!(port.device, "/dev/rfcomm0");
    assert_eq!(port.name, "rfcomm0");
    assert_eq!(port.description, "");
    assert_eq!(port.hwid, "");
    assert_eq!(port.port_type, ListPortType::Unknown);
}
