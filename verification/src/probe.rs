//! Classifying one device node: which bus backs it, and what the bus says of it.

use vstd::prelude::*;
use crate::path::{device_link, file_name, join, joined, parent, path_file_name, path_parent, tty_device_link};
use crate::port::{opt_port, ListPortInfo, PortInfo, PortType};
use crate::text::{opt_text, opt_texts, same_text};
use crate::tree::{DeviceTree, Finding, Lookup, Reply, Request};
use crate::usb::{UsbAttributes, UsbIdentity, UsbLines, UsbPortInfo};

verus! {

/// The attribute files of a USB device node, in the order they are read.
pub open spec fn usb_attribute_file(i: int) -> Seq<char> {
    if i == 0 {
        "idVendor"@
    } else if i == 1 {
        "idProduct"@
    } else if i == 2 {
        "serial"@
    } else if i == 3 {
        "manufacturer"@
    } else if i == 4 {
        "product"@
    } else {
        "interface"@
    }
}

/// The lines of the attribute files, each under its own name.
pub open spec fn usb_lines_of(lines: Seq<Option<Seq<char>>>) -> UsbLines {
    UsbLines {
        id_vendor: lines[0],
        id_product: lines[1],
        serial: lines[2],
        manufacturer: lines[3],
        product: lines[4],
        interface: lines[5],
    }
}

/// The directory of the USB device behind the hardware node `device_dir`:
/// two levels up where the node belongs to `usb-serial` (above it is the
/// interface, above that the device), one level up where it belongs to
/// `usb` (the node is the interface). Other buses have none.
pub open spec fn usb_device_dir(device_dir: Seq<char>, subsystem: Option<Seq<char>>) -> Option<Seq<char>> {
    if subsystem == Some("usb-serial"@) {
        match path_parent(device_dir) {
            Some(interface_dir) => path_parent(interface_dir),
            None => None,
        }
    } else if subsystem == Some("usb"@) {
        path_parent(device_dir)
    } else {
        None
    }
}

/// The record of the device node `device` in `tree`, or `None` where the
/// node gets none: its path has no final component, or it sits on the
/// platform bus.
pub open spec fn classify(tree: DeviceTree, device: Seq<char>) -> Option<PortInfo> {
    match path_file_name(device) {
        None => None,
        Some(name) => {
            let device_dir = (tree.canonical)(tty_device_link(name));
            let subsystem = tree.subsystem(device_dir);
            if subsystem == Some("platform"@) {
                None
            } else if subsystem == Some("usb"@) || subsystem == Some("usb-serial"@) {
                let usb_dir = match device_dir {
                    Some(dir) => usb_device_dir(dir, subsystem),
                    None => None,
                };
                Some(PortInfo::usb(device, name, UsbIdentity::of(usb_dir, tree.usb_lines(usb_dir))))
            } else if subsystem == Some("pnp"@) {
                let id_line = match device_dir {
                    Some(dir) => (tree.first_line)(joined(dir, "id"@)),
                    None => None,
                };
                Some(PortInfo::pnp(device, name, id_line))
            } else if subsystem == Some("amba"@) {
                Some(PortInfo::amba(device, name, path_file_name(device_dir->0)->0))
            } else {
                Some(PortInfo::unknown(device, name))
            }
        },
    }
}

/// How far the classification of a node has come.
pub enum ProbeStage {
    /// The hardware node behind the device node is being resolved.
    Device,
    /// The bus that owns the hardware node is being resolved.
    Subsystem { device_dir: Seq<char> },
    /// The attribute files of the USB device are being read; `lines` holds
    /// what was read so far.
    Usb { usb_dir: Seq<char>, lines: Seq<Option<Seq<char>>> },
    /// The `id` file of a plug-and-play node is being read.
    Pnp { device_dir: Seq<char> },
    /// The classification is over.
    Done { info: Option<PortInfo> },
}

/// The mathematical content of [`Probe`].
pub struct ProbeState {
    pub device: Seq<char>,
    pub name: Seq<char>,
    pub stage: ProbeStage,
}

impl ProbeState {
    /// The same node at another stage.
    pub open spec fn at(self, stage: ProbeStage) -> ProbeState {
        ProbeState { device: self.device, name: self.name, stage }
    }

    /// The state in which the classification of `device` begins. A node
    /// whose path has no final component is done at once, with no record.
    pub open spec fn start(device: Seq<char>) -> ProbeState {
        match path_file_name(device) {
            Some(name) => ProbeState { device, name, stage: ProbeStage::Device },
            None => ProbeState {
                device,
                name: Seq::empty(),
                stage: ProbeStage::Done { info: None },
            },
        }
    }

    /// The attribute files are six: fewer have been read while reading goes on.
    pub open spec fn wf(self) -> bool {
        match self.stage {
            ProbeStage::Usb { usb_dir, lines } => lines.len() < 6,
            _ => true,
        }
    }

    pub open spec fn is_done(self) -> bool {
        self.stage is Done
    }

    /// The lookup that the classification needs next.
    pub open spec fn lookup(self) -> Lookup {
        match self.stage {
            ProbeStage::Device => Lookup::Resolve(tty_device_link(self.name)),
            ProbeStage::Subsystem { device_dir } => Lookup::Resolve(joined(device_dir, "subsystem"@)),
            ProbeStage::Usb { usb_dir, lines } => Lookup::ReadLine(
                joined(usb_dir, usb_attribute_file(lines.len() as int)),
            ),
            ProbeStage::Pnp { device_dir } => Lookup::ReadLine(joined(device_dir, "id"@)),
            ProbeStage::Done { info } => Lookup::Nothing,
        }
    }

    /// The stage that follows once the bus of the hardware node is known.
    pub open spec fn settled(self, device_dir: Seq<char>, subsystem: Option<Seq<char>>) -> ProbeStage {
        if subsystem == Some("platform"@) {
            ProbeStage::Done { info: None }
        } else if subsystem == Some("usb"@) || subsystem == Some("usb-serial"@) {
            match usb_device_dir(device_dir, subsystem) {
                Some(usb_dir) => ProbeStage::Usb { usb_dir, lines: Seq::empty() },
                None => ProbeStage::Done {
                    info: Some(PortInfo::usb(self.device, self.name, UsbIdentity::unknown())),
                },
            }
        } else if subsystem == Some("pnp"@) {
            ProbeStage::Pnp { device_dir }
        } else if subsystem == Some("amba"@) {
            ProbeStage::Done {
                info: Some(PortInfo::amba(self.device, self.name, path_file_name(device_dir)->0)),
            }
        } else {
            ProbeStage::Done { info: Some(PortInfo::unknown(self.device, self.name)) }
        }
    }

    /// Whether the classification can go on with this finding. It cannot
    /// where the finding puts the node on the AMBA bus and the directory of
    /// its hardware node has no name to identify it by.
    pub open spec fn accepts(self, found: Finding) -> bool {
        match (self.stage, found) {
            (ProbeStage::Subsystem { device_dir }, Finding::Resolved(Some(bus))) => {
                path_file_name(bus) == Some("amba"@) ==> path_file_name(device_dir) is Some
            },
            _ => true,
        }
    }

    /// The state after a finding. A finding of a kind that was not asked
    /// for changes nothing.
    pub open spec fn step(self, found: Finding) -> ProbeState {
        match (self.stage, found) {
            (ProbeStage::Device, Finding::Resolved(None)) => self.at(
                ProbeStage::Done { info: Some(PortInfo::unknown(self.device, self.name)) },
            ),
            (ProbeStage::Device, Finding::Resolved(Some(device_dir))) => self.at(
                ProbeStage::Subsystem { device_dir },
            ),
            (ProbeStage::Subsystem { device_dir }, Finding::Resolved(bus)) => self.at(
                self.settled(
                    device_dir,
                    match bus {
                        Some(b) => path_file_name(b),
                        None => None,
                    },
                ),
            ),
            (ProbeStage::Usb { usb_dir, lines }, Finding::Line(line)) => {
                let all = lines.push(line);
                if all.len() >= 6 {
                    self.at(
                        ProbeStage::Done {
                            info: Some(
                                PortInfo::usb(
                                    self.device,
                                    self.name,
                                    UsbIdentity::of(Some(usb_dir), usb_lines_of(all)),
                                ),
                            ),
                        },
                    )
                } else {
                    self.at(ProbeStage::Usb { usb_dir, lines: all })
                }
            },
            (ProbeStage::Pnp { device_dir }, Finding::Line(line)) => self.at(
                ProbeStage::Done { info: Some(PortInfo::pnp(self.device, self.name, line)) },
            ),
            _ => self,
        }
    }
}

enum Stage {
    Device,
    Subsystem { device_dir: String },
    Usb { usb_dir: String, lines: Vec<Option<String>> },
    Pnp { device_dir: String },
    Done { info: Option<ListPortInfo> },
}

impl View for Stage {
    type V = ProbeStage;

    closed spec fn view(&self) -> ProbeStage {
        match self {
            Stage::Device => ProbeStage::Device,
            Stage::Subsystem { device_dir } => ProbeStage::Subsystem { device_dir: device_dir@ },
            Stage::Usb { usb_dir, lines } => ProbeStage::Usb {
                usb_dir: usb_dir@,
                lines: opt_texts(lines@),
            },
            Stage::Pnp { device_dir } => ProbeStage::Pnp { device_dir: device_dir@ },
            Stage::Done { info } => ProbeStage::Done { info: opt_port(*info) },
        }
    }
}

/// The classification of one device node, as far as it has come. It names
/// the lookup it needs next and goes on when told what the lookup found.
pub struct Probe {
    device: String,
    name: String,
    stage: Stage,
}

impl View for Probe {
    type V = ProbeState;

    closed spec fn view(&self) -> ProbeState {
        ProbeState { device: self.device@, name: self.name@, stage: self.stage@ }
    }
}

fn attribute_file(i: usize) -> (name: &'static str)
    ensures
        name@ == usb_attribute_file(i as int),
{
    match i {
        0 => "idVendor",
        1 => "idProduct",
        2 => "serial",
        3 => "manufacturer",
        4 => "product",
        _ => "interface",
    }
}

fn line_at(lines: &Vec<Option<String>>, i: usize) -> (line: Option<String>)
    requires
        i < lines.len(),
    ensures
        opt_text(line) == opt_texts(lines@)[i as int],
{
    match &lines[i] {
        Some(l) => Some(l.clone()),
        None => None,
    }
}

fn usb_device_path(device_dir: &str, subsystem: &str) -> (dir: Option<String>)
    ensures
        opt_text(dir) == usb_device_dir(device_dir@, Some(subsystem@)),
{
    if same_text(subsystem, "usb-serial") {
        match parent(device_dir) {
            Some(interface_dir) => parent(interface_dir.as_str()),
            None => None,
        }
    } else if same_text(subsystem, "usb") {
        parent(device_dir)
    } else {
        None
    }
}

impl Probe {
    #[verifier::type_invariant]
    spec fn inv(self) -> bool {
        self@.wf()
    }

    /// Begins the classification of the device node `device`.
    pub fn new(device: String) -> (probe: Probe)
        ensures
            probe@ == ProbeState::start(device@),
            probe@.wf(),
    {
        match file_name(device.as_str()) {
            Some(name) => Probe { device, name, stage: Stage::Device },
            None => Probe { device, name: String::new(), stage: Stage::Done { info: None } },
        }
    }

    /// The lookup to perform next.
    pub fn request(&self) -> (request: Request)
        ensures
            request@ == self@.lookup(),
    {
        match &self.stage {
            Stage::Device => Request::Resolve(device_link(self.name.as_str())),
            Stage::Subsystem { device_dir } => Request::Resolve(join(device_dir.as_str(), "subsystem")),
            Stage::Usb { usb_dir, lines } => Request::ReadLine(
                join(usb_dir.as_str(), attribute_file(lines.len())),
            ),
            Stage::Pnp { device_dir } => Request::ReadLine(join(device_dir.as_str(), "id")),
            Stage::Done { info } => Request::Nothing,
        }
    }

    /// Whether the classification is over.
    pub fn is_done(&self) -> (done: bool)
        ensures
            done == self@.is_done(),
    {
        match &self.stage {
            Stage::Done { info } => true,
            _ => false,
        }
    }

    /// Whether the classification can go on with this reply.
    pub fn accepts(&self, reply: &Reply) -> (ok: bool)
        ensures
            ok == self@.accepts(reply@),
    {
        match (&self.stage, reply) {
            (Stage::Subsystem { device_dir }, Reply::Resolved(Some(bus))) => {
                match file_name(bus.as_str()) {
                    Some(subsystem) => {
                        if same_text(subsystem.as_str(), "amba") {
                            file_name(device_dir.as_str()).is_some()
                        } else {
                            true
                        }
                    },
                    None => true,
                }
            },
            _ => true,
        }
    }

    /// The stage that follows once the bus of the hardware node is known.
    fn settle(device: &String, name: &String, device_dir: String, subsystem: Option<String>) -> (stage: Stage)
        requires
            opt_text(subsystem) == Some("amba"@) ==> path_file_name(device_dir@) is Some,
        ensures
            stage@ == (ProbeState { device: device@, name: name@, stage: ProbeStage::Device }).settled(
                device_dir@,
                opt_text(subsystem),
            ),
    {
        match subsystem {
            None => Stage::Done { info: Some(ListPortInfo::unknown(device.clone(), name.clone())) },
            Some(bus) => {
                let bus = bus.as_str();
                if same_text(bus, "platform") {
                    Stage::Done { info: None }
                } else if same_text(bus, "usb") || same_text(bus, "usb-serial") {
                    match usb_device_path(device_dir.as_str(), bus) {
                        Some(usb_dir) => {
                            let lines: Vec<Option<String>> = Vec::new();
                            assert(opt_texts(lines@) =~= Seq::empty());
                            Stage::Usb { usb_dir, lines }
                        },
                        None => {
                            let info = UsbPortInfo::new(None, &UsbAttributes::missing());
                            Stage::Done {
                                info: Some(ListPortInfo::usb(device.clone(), name.clone(), info)),
                            }
                        },
                    }
                } else if same_text(bus, "pnp") {
                    Stage::Pnp { device_dir }
                } else if same_text(bus, "amba") {
                    match file_name(device_dir.as_str()) {
                        Some(dir_name) => Stage::Done {
                            info: Some(ListPortInfo::amba(device.clone(), name.clone(), dir_name)),
                        },
                        None => unreached(),
                    }
                } else {
                    Stage::Done { info: Some(ListPortInfo::unknown(device.clone(), name.clone())) }
                }
            },
        }
    }

    /// Goes on with what the lookup found. A reply of a kind that was not
    /// asked for changes nothing.
    pub fn step(self, reply: Reply) -> (next: Probe)
        requires
            self@.accepts(reply@),
        ensures
            next@ == self@.step(reply@),
            next@.wf(),
    {
        proof {
            use_type_invariant(&self);
        }
        let Probe { device, name, stage } = self;
        match (stage, reply) {
            (Stage::Device, Reply::Resolved(found)) => match found {
                None => {
                    let info = ListPortInfo::unknown(device.clone(), name.clone());
                    Probe { device, name, stage: Stage::Done { info: Some(info) } }
                },
                Some(device_dir) => Probe { device, name, stage: Stage::Subsystem { device_dir } },
            },
            (Stage::Subsystem { device_dir }, Reply::Resolved(found)) => {
                let subsystem = match found {
                    Some(bus) => file_name(bus.as_str()),
                    None => None,
                };
                let stage = Probe::settle(&device, &name, device_dir, subsystem);
                Probe { device, name, stage }
            },
            (Stage::Usb { usb_dir, lines }, Reply::Line(line)) => {
                let mut lines = lines;
                let ghost before = opt_texts(lines@);
                lines.push(line);
                assert(opt_texts(lines@) =~= before.push(opt_text(line)));
                if lines.len() >= 6 {
                    let attributes = UsbAttributes {
                        id_vendor: line_at(&lines, 0),
                        id_product: line_at(&lines, 1),
                        serial: line_at(&lines, 2),
                        manufacturer: line_at(&lines, 3),
                        product: line_at(&lines, 4),
                        interface: line_at(&lines, 5),
                    };
                    let usb = UsbPortInfo::new(Some(usb_dir.as_str()), &attributes);
                    let info = ListPortInfo::usb(device.clone(), name.clone(), usb);
                    Probe { device, name, stage: Stage::Done { info: Some(info) } }
                } else {
                    Probe { device, name, stage: Stage::Usb { usb_dir, lines } }
                }
            },
            (Stage::Pnp { device_dir }, Reply::Line(line)) => {
                let info = ListPortInfo::pnp(device.clone(), name.clone(), &line);
                Probe { device, name, stage: Stage::Done { info: Some(info) } }
            },
            (stage, _) => Probe { device, name, stage },
        }
    }

    /// Goes on with what the lookup found, where the classification can go
    /// on with it; otherwise there is no next state.
    pub fn checked_step(self, reply: Reply) -> (next: Option<Probe>)
        ensures
            next is Some == self@.accepts(reply@),
            next is Some ==> next->0@ == self@.step(reply@) && next->0@.wf(),
    {
        if self.accepts(&reply) {
            Some(self.step(reply))
        } else {
            None
        }
    }

    /// The record that the classification ended with: `None` where it gave
    /// none, and also where it is not over.
    pub fn into_info(self) -> (info: Option<ListPortInfo>)
        ensures
            opt_port(info) == match self@.stage {
                ProbeStage::Done { info } => info,
                _ => None,
            },
    {
        match self.stage {
            Stage::Done { info } => info,
            _ => None,
        }
    }
}

impl ProbeState {
    /// The lines of the six attribute files: those read so far, then those
    /// that `tree` holds.
    pub open spec fn completed(
        tree: DeviceTree,
        usb_dir: Seq<char>,
        lines: Seq<Option<Seq<char>>>,
    ) -> Seq<Option<Seq<char>>> {
        Seq::new(
            6,
            |i: int|
                if i < lines.len() {
                    lines[i]
                } else {
                    (tree.first_line)(joined(usb_dir, usb_attribute_file(i)))
                },
        )
    }

    /// What a classification whose bus is known ends with, if every lookup
    /// from here on finds what `tree` holds.
    pub open spec fn late_outcome(self, tree: DeviceTree) -> Option<PortInfo> {
        match self.stage {
            ProbeStage::Usb { usb_dir, lines } => Some(
                PortInfo::usb(
                    self.device,
                    self.name,
                    UsbIdentity::of(
                        Some(usb_dir),
                        usb_lines_of(ProbeState::completed(tree, usb_dir, lines)),
                    ),
                ),
            ),
            ProbeStage::Pnp { device_dir } => Some(
                PortInfo::pnp(self.device, self.name, (tree.first_line)(joined(device_dir, "id"@))),
            ),
            ProbeStage::Done { info } => info,
            _ => None,
        }
    }

    /// What the classification ends with, if every lookup from here on
    /// finds what `tree` holds.
    pub open spec fn outcome(self, tree: DeviceTree) -> Option<PortInfo> {
        match self.stage {
            ProbeStage::Device => match (tree.canonical)(tty_device_link(self.name)) {
                Some(device_dir) => self.at(
                    self.settled(device_dir, tree.subsystem(Some(device_dir))),
                ).late_outcome(tree),
                None => Some(PortInfo::unknown(self.device, self.name)),
            },
            ProbeStage::Subsystem { device_dir } => self.at(
                self.settled(device_dir, tree.subsystem(Some(device_dir))),
            ).late_outcome(tree),
            _ => self.late_outcome(tree),
        }
    }

    /// The number of lookups that the classification can still need.
    pub open spec fn remaining(self) -> nat {
        match self.stage {
            ProbeStage::Device => 8,
            ProbeStage::Subsystem { device_dir } => 7,
            ProbeStage::Usb { usb_dir, lines } => (6 - lines.len()) as nat,
            ProbeStage::Pnp { device_dir } => 1,
            ProbeStage::Done { info } => 0,
        }
    }

    /// The state after `steps` lookups, each of which found what `tree` holds.
    pub open spec fn run(self, tree: DeviceTree, steps: nat) -> ProbeState
        decreases steps,
    {
        if steps == 0 {
            self
        } else {
            self.step(tree.answer(self.lookup())).run(tree, (steps - 1) as nat)
        }
    }
}

/// One lookup in a tree brings a classification nearer to its end and
/// leaves what it will end with as it was.
pub proof fn lemma_probe_step(state: ProbeState, tree: DeviceTree)
    requires
        state.wf(),
        tree.well_named(),
    ensures
        state.accepts(tree.answer(state.lookup())),
        state.step(tree.answer(state.lookup())).wf(),
        state.step(tree.answer(state.lookup())).outcome(tree) == state.outcome(tree),
        state.is_done() ==> state.step(tree.answer(state.lookup())) == state,
        !state.is_done() ==> state.step(tree.answer(state.lookup())).remaining() < state.remaining(),
{
    let next = state.step(tree.answer(state.lookup()));
    match state.stage {
        ProbeStage::Device => {},
        ProbeStage::Subsystem { device_dir } => {
            assert(tree.subsystem(Some(device_dir)) == Some("amba"@) ==> path_file_name(device_dir) is Some);
        },
        ProbeStage::Usb { usb_dir, lines } => {
            let line = (tree.first_line)(joined(usb_dir, usb_attribute_file(lines.len() as int)));
            let all = lines.push(line);
            let full = ProbeState::completed(tree, usb_dir, lines);
            assert(ProbeState::completed(tree, usb_dir, all) =~= full);
            if all.len() >= 6 {
                assert(usb_lines_of(all) == usb_lines_of(full));
            }
        },
        ProbeStage::Pnp { device_dir } => {},
        ProbeStage::Done { info } => {},
    }
}

/// A classification that is over ends with what it holds.
pub proof fn lemma_probe_done(state: ProbeState, tree: DeviceTree)
    requires
        state.is_done(),
    ensures
        state.stage == (ProbeStage::Done { info: state.outcome(tree) }),
{
}

/// A classification begins with the prospect of ending in the record that
/// the tree gives the node.
pub proof fn lemma_probe_start(tree: DeviceTree, device: Seq<char>)
    ensures
        ProbeState::start(device).wf(),
        ProbeState::start(device).outcome(tree) == classify(tree, device),
{
    match path_file_name(device) {
        None => {},
        Some(name) => {
            match (tree.canonical)(tty_device_link(name)) {
                None => {},
                Some(device_dir) => {
                    let subsystem = tree.subsystem(Some(device_dir));
                    match usb_device_dir(device_dir, subsystem) {
                        Some(usb_dir) => {
                            let full = ProbeState::completed(tree, usb_dir, Seq::empty());
                            assert(usb_lines_of(full) == tree.usb_lines(Some(usb_dir)));
                        },
                        None => {},
                    }
                },
            }
        },
    }
}

/// Lookups that find what a tree holds keep a classification well formed
/// and leave what it will end with as it was; once there were as many as
/// it could need, it is over.
pub proof fn lemma_probe_run(state: ProbeState, tree: DeviceTree, steps: nat)
    requires
        state.wf(),
        tree.well_named(),
    ensures
        state.run(tree, steps).wf(),
        state.run(tree, steps).outcome(tree) == state.outcome(tree),
        steps >= state.remaining() ==> state.run(tree, steps).is_done(),
    decreases steps,
{
    if steps > 0 {
        lemma_probe_step(state, tree);
        lemma_probe_run(state.step(tree.answer(state.lookup())), tree, (steps - 1) as nat);
    }
}

/// Classifying a device node by lookups in a tree takes eight of them at
/// most, and ends with the record that the tree gives the node.
pub proof fn lemma_probe_classifies(tree: DeviceTree, device: Seq<char>)
    requires
        tree.well_named(),
    ensures
        ProbeState::start(device).run(tree, 8).stage == (ProbeStage::Done {
            info: classify(tree, device),
        }),
{
    let start = ProbeState::start(device);
    lemma_probe_start(tree, device);
    lemma_probe_run(start, tree, 8);
    lemma_probe_done(start.run(tree, 8), tree);
}

/// A node on the platform bus gets no record.
pub proof fn lemma_platform_is_excluded(tree: DeviceTree, device: Seq<char>)
    requires
        path_file_name(device) is Some,
        tree.subsystem((tree.canonical)(tty_device_link(path_file_name(device)->0))) == Some(
            "platform"@,
        ),
    ensures
        classify(tree, device) is None,
{
}

/// A node whose path has a final component and whose hardware node cannot
/// be resolved still gets a record: of unknown type, with an empty
/// description and an empty hardware id.
pub proof fn lemma_unresolved_is_unknown(tree: DeviceTree, device: Seq<char>)
    requires
        path_file_name(device) is Some,
        (tree.canonical)(tty_device_link(path_file_name(device)->0)) is None,
    ensures
        classify(tree, device) == Some(PortInfo::unknown(device, path_file_name(device)->0)),
        classify(tree, device)->0.port_type == PortType::Unknown,
        classify(tree, device)->0.description.len() == 0,
        classify(tree, device)->0.hwid.len() == 0,
{
}

/// A node whose path has no final component gets no record.
pub proof fn lemma_nameless_is_skipped(tree: DeviceTree, device: Seq<char>)
    requires
        path_file_name(device) is None,
    ensures
        classify(tree, device) is None,
        ProbeState::start(device).stage == (ProbeStage::Done { info: None }),
{
}

} // verus!
