use serial_enumerator::{ListPortInfo, ListPortType, ListPorts, Reply, Request, UsbPortInfo};
use std::collections::HashMap;

struct Tree {
    matches: HashMap<String, Vec<Option<String>>>,
    links: HashMap<String, String>,
    lines: HashMap<String, String>,
}

impl Tree {
    fn new() -> Tree {
        Tree { matches: HashMap::new(), links: HashMap::new(), lines: HashMap::new() }
    }

    fn link(mut self, from: &str, to: &str) -> Tree {
        self.links.insert(from.to_string(), to.to_string());
        self
    }

    fn file(mut self, path: &str, first_line: &str) -> Tree {
        self.lines.insert(path.to_string(), first_line.to_string());
        self
    }

    fn node(self, name: &str, device_dir: &str, bus: &str) -> Tree {
        self.link(&format!("/sys/class/tty/{}/device", name), device_dir)
            .link(&format!("{}/subsystem", device_dir), &format!("/sys/bus/{}", bus))
    }

    fn answer(&self, request: &Request) -> Reply {
        match request {
            Request::Match(pattern) => Reply::Matched(self.matches.get(pattern).cloned().unwrap_or_default()),
            Request::Resolve(path) => Reply::Resolved(self.links.get(path).cloned()),
            Request::ReadLine(path) => Reply::Line(self.lines.get(path).cloned()),
            Request::Nothing => Reply::Line(None),
        }
    }
}

impl Tree {
    fn matched(mut self, pattern: &str, paths: &[Option<&str>]) -> Tree {
        self.matches.insert(pattern.to_string(), paths.iter().map(|p| p.map(str::to_string)).collect());
        self
    }
}

fn enumerate_with_lookups(tree: &Tree) -> (Vec<ListPortInfo>, Vec<Request>) {
    let mut list = ListPorts::new();
    let mut asked = Vec::new();
    while !list.is_finished() {
        assert!(asked.len() < 1000, "too many lookups");
        let request = list.request();
        let reply = tree.answer(&request);
        asked.push(request);
        list = list.checked_step(reply).expect("the reply is accepted");
    }
    assert_eq!(list.request(), Request::Nothing);
    (list.into_ports(), asked)
}

fn enumerate(tree: &Tree) -> Vec<ListPortInfo> {
    enumerate_with_lookups(tree).0
}

fn machine() -> Tree {
    Tree::new()
        .matched("/dev/ttyS*", &[Some("/dev/ttyS0"), Some("/dev/ttyS1"), Some("/dev/ttyS2")])
        .matched("/dev/ttyUSB*", &[Some("/dev/ttyUSB0")])
        .matched("/dev/ttyACM*", &[None, Some("/dev/ttyACM0"), None])
        .matched("/dev/ttyAMA*", &[Some("/dev/ttyAMA0")])
        .matched("/dev/rfcomm*", &[Some("/dev/rfcomm0")])
        .node("ttyS0", "/sys/devices/pnp0/00:05", "pnp")
        .file("/sys/devices/pnp0/00:05/id", "PNP0501\n")
        .node("ttyS1", "/sys/devices/platform/serial8250", "platform")
        .node("ttyS2", "/sys/devices/platform/serial8250", "platform")
        .node("ttyUSB0", "/sys/devices/pci0000:00/usb1/1-1/1-1:1.0/ttyUSB0", "usb-serial")
        .file("/sys/devices/pci0000:00/usb1/1-1/idVendor", "0403\n")
        .file("/sys/devices/pci0000:00/usb1/1-1/idProduct", "6001\n")
        .file("/sys/devices/pci0000:00/usb1/1-1/manufacturer", "FTDI\n")
        .file("/sys/devices/pci0000:00/usb1/1-1/product", "FT232R USB UART\n")
        .node("ttyACM0", "/sys/devices/pci0000:00/usb1/1-2/1-2:1.0", "usb")
        .file("/sys/devices/pci0000:00/usb1/1-2/idVendor", "2341\n")
        .file("/sys/devices/pci0000:00/usb1/1-2/idProduct", "0043\n")
        .file("/sys/devices/pci0000:00/usb1/1-2/serial", "7583\n")
        .node("ttyAMA0", "/sys/devices/platform/soc/3f201000.serial", "amba")
}

fn patterns() -> Vec<Request> {
    ["/dev/ttyS*", "/dev/ttyUSB*", "/dev/ttyACM*", "/dev/ttyAMA*", "/dev/rfcomm*"]
        .iter()
        .map(|p| Request::Match(p.to_string()))
        .collect()
}

#[test]
fn enumeration_begins_with_the_first_pattern() {
    let list = ListPorts::new();
    assert!(!list.is_finished());
    assert!(list.ports().is_empty());
    assert_eq!(list.request(), Request::Match("/dev/ttyS*".to_string()));
}

#[test]
fn empty_tree_has_no_ports() {
    let (ports, asked) = enumerate_with_lookups(&Tree::new());
    assert!(ports.is_empty());
    assert_eq!(asked, patterns());
}

#[test]
fn patterns_are_tried_in_their_order() {
    let (_, asked) = enumerate_with_lookups(&machine());
    let tried: Vec<Request> = asked.into_iter().filter(|r| matches!(r, Request::Match(_))).collect();
    assert_eq!(tried, patterns());
}

#[test]
fn ports_come_in_the_order_of_patterns_and_matches() {
    let ports = enumerate(&machine());
    let devices: Vec<&str> = ports.iter().map(|p| p.device.as_str()).collect();
    assert_eq!(devices, vec!["/dev/ttyS0", "/dev/ttyUSB0", "/dev/ttyACM0", "/dev/ttyAMA0", "/dev/rfcomm0"]);
}

#[test]
fn every_port_is_classified() {
    let ports = enumerate(&machine());
    assert_eq!(ports.len(), 5);
    assert_eq!(
        ports[0],
        ListPortInfo {
            device: "/dev/ttyS0".to_string(),
            name: "ttyS0".to_string(),
            description: "ttyS0".to_string(),
            hwid: "PNP0501".to_string(),
            port_type: ListPortType::PnpPort,
        }
    );
    assert_eq!(
        ports[1],
        ListPortInfo {
            device: "/dev/ttyUSB0".to_string(),
            name: "ttyUSB0".to_string(),
            description: "FT232R USB UART 1-1".to_string(),
            hwid: "USB VID:PID=0403:6001".to_string(),
            port_type: ListPortType::UsbPort(UsbPortInfo {
                vid: 0x0403,
                pid: 0x6001,
                serial_number: None,
                location: Some("1-1".to_string()),
                manufacturer: Some("FTDI".to_string()),
                product: Some("FT232R USB UART".to_string()),
                interface: None,
            }),
        }
    );
    assert_eq!(
        ports[2],
        ListPortInfo {
            device: "/dev/ttyACM0".to_string(),
            name: "ttyACM0".to_string(),
            description: "ttyACM0 1-2".to_string(),
            hwid: "USB VID:PID=2341:0043 SER=7583".to_string(),
            port_type: ListPortType::UsbPort(UsbPortInfo {
                vid: 0x2341,
                pid: 0x0043,
                serial_number: Some("7583".to_string()),
                location: Some("1-2".to_string()),
                manufacturer: None,
                product: None,
                interface: None,
            }),
        }
    );
    assert_eq!(
        ports[3],
        ListPortInfo {
            device: "/dev/ttyAMA0".to_string(),
            name: "ttyAMA0".to_string(),
            description: "ttyAMA0".to_string(),
            hwid: "3f201000.serial".to_string(),
            port_type: ListPortType::AmbaPort,
        }
    );
    assert_eq!(
        ports[4],
        ListPortInfo {
            device: "/dev/rfcomm0".to_string(),
            name: "rfcomm0".to_string(),
            description: String::new(),
            hwid: String::new(),
            port_type: ListPortType::Unknown,
        }
    );
}

#[test]
fn platform_ports_are_not_listed() {
    let ports = enumerate(&machine());
    assert!(ports.iter().all(|p| p.name != "ttyS1" && p.name != "ttyS2"));
    let only_platform = Tree::new()
        .matched("/dev/ttyS*", &[Some("/dev/ttyS1")])
        .matched("/dev/ttyAMA*", &[Some("/dev/ttyAMA1")])
        .node("ttyS1", "/sys/devices/platform/serial8250", "platform")
        .node("ttyAMA1", "/sys/devices/platform/soc/uart1", "platform");
    assert!(enumerate(&only_platform).is_empty());
}

#[test]
fn matches_that_could_not_be_read_are_skipped() {
    let tree = Tree::new().matched("/dev/ttyUSB*", &[None, None, Some("/dev/ttyUSB1"), None]);
    let ports = enumerate(&tree);
    assert_eq!(ports.len(), 1);
    assert_eq!(ports[0].name, "ttyUSB1");
    let none = Tree::new().matched("/dev/rfcomm*", &[None]);
    assert!(enumerate(&none).is_empty());
}

#[test]
fn matches_without_final_component_are_skipped() {
    let tree = Tree::new()
        .matched("/dev/ttyS*", &[Some("/"), Some("/dev/ttyS4"), Some("")])
        .matched("/dev/rfcomm*", &[Some(".."), Some("/dev/rfcomm1")]);
    let (ports, asked) = enumerate_with_lookups(&tree);
    let names: Vec<&str> = ports.iter().map(|p| p.name.as_str()).collect();
    assert_eq!(names, vec!["ttyS4", "rfcomm1"]);
    assert_eq!(asked.len(), 7);
}

#[test]
fn enumeration_is_repeatable() {
    let tree = machine();
    let first = enumerate_with_lookups(&tree);
    let second = enumerate_with_lookups(&tree);
    assert_eq!(first, second);
}

#[test]
fn lookups_stay_within_eight_for_each_match() {
    let tree = machine();
    let (_, asked) = enumerate_with_lookups(&tree);
    assert!(asked.len() <= 5 + 8 * 7);
    assert_eq!(asked.len(), 5 + 3 + 2 + 2 + 8 + 8 + 2 + 1);
}

#[test]
fn ports_are_listed_as_soon_as_they_are_classified() {
    let tree = machine();
    let mut list = ListPorts::new();
    let mut seen = 0;
    while !list.is_finished() {
        let reply = tree.answer(&list.request());
        list = list.step(reply);
        assert!(list.ports().len() >= seen);
        assert!(list.ports().len() <= seen + 1);
        seen = list.ports().len();
    }
    assert_eq!(seen, 5);
}

#[test]
fn enumeration_ignores_a_reply_of_another_kind() {
    let list = ListPorts::new();
    let list = list.step(Reply::Resolved(Some("/sys/devices/pnp0/00:05".to_string())));
    assert_eq!(list.request(), Request::Match("/dev/ttyS*".to_string()));
    let list = list.step(Reply::Line(None));
    assert_eq!(list.request(), Request::Match("/dev/ttyS*".to_string()));
    let list = list.step(Reply::Matched(vec![Some("/dev/ttyS0".to_string())]));
    assert_eq!(list.request(), Request::Resolve("/sys/class/tty/ttyS0/device".to_string()));
    let list = list.step(Reply::Matched(vec![Some("/dev/ttyS9".to_string())]));
    assert_eq!(list.request(), Request::Resolve("/sys/class/tty/ttyS0/device".to_string()));
    assert!(list.ports().is_empty());
}

#[test]
fn finished_enumeration_stays_finished() {
    let tree = machine();
    let mut list = ListPorts::new();
    while !list.is_finished() {
        let reply = tree.answer(&list.request());
        list = list.step(reply);
    }
    let list = list.step(Reply::Matched(vec![Some("/dev/ttyS0".to_string())]));
    assert!(list.is_finished());
    assert_eq!(list.request(), Request::Nothing);
    assert_eq!(list.into_ports().len(), 5);
}

#[test]
fn enumeration_does_not_accept_an_amba_port_without_directory_name() {
    let tree = Tree::new()
        .matched("/dev/ttyAMA*", &[Some("/dev/ttyAMA7")])
        .link("/sys/class/tty/ttyAMA7/device", "/")
        .link("/subsystem", "/sys/bus/amba");
    let mut list = ListPorts::new();
    loop {
        let reply = tree.answer(&list.request());
        if !list.accepts(&reply) {
            assert_eq!(reply, Reply::Resolved(Some("/sys/bus/amba".to_string())));
            assert!(list.checked_step(reply).is_none());
            break;
        }
        list = list.step(reply);
        assert!(!list.is_finished());
    }
}
