//! What an enumeration asks of the device tree, and what it is told.

use vstd::prelude::*;
use crate::path::{joined, path_file_name};
use crate::text::{opt_text, opt_texts};
use crate::usb::UsbLines;

verus! {

/// A lookup for the caller to perform.
#[derive(Clone, Debug, PartialEq, Eq)]
pub enum Request {
    /// List the device nodes that match this glob pattern.
    Match(String),
    /// Give the canonical form of this path: links followed, nothing relative left.
    Resolve(String),
    /// Open this file and read its first line, line feed and all.
    ReadLine(String),
    /// There is nothing left to look up.
    Nothing,
}

/// The mathematical content of [`Request`].
pub enum Lookup {
    Match(Seq<char>),
    Resolve(Seq<char>),
    ReadLine(Seq<char>),
    Nothing,
}

impl View for Request {
    type V = Lookup;

    open spec fn view(&self) -> Lookup {
        match self {
            Request::Match(pattern) => Lookup::Match(pattern@),
            Request::Resolve(path) => Lookup::Resolve(path@),
            Request::ReadLine(path) => Lookup::ReadLine(path@),
            Request::Nothing => Lookup::Nothing,
        }
    }
}

/// What a lookup found.
#[derive(Clone, Debug, PartialEq, Eq)]
pub enum Reply {
    /// The matches of a pattern, in the order they came. `None` stands for
    /// a match that could not be read.
    Matched(Vec<Option<String>>),
    /// The canonical form of a path, `None` where it has none.
    Resolved(Option<String>),
    /// What a file holds from its start, through its first line at least;
    /// `None` where the file could not be opened.
    Line(Option<String>),
}

/// The mathematical content of [`Reply`].
pub enum Finding {
    Matched(Seq<Option<Seq<char>>>),
    Resolved(Option<Seq<char>>),
    Line(Option<Seq<char>>),
}

impl View for Reply {
    type V = Finding;

    open spec fn view(&self) -> Finding {
        match self {
            Reply::Matched(paths) => Finding::Matched(opt_texts(paths@)),
            Reply::Resolved(path) => Finding::Resolved(opt_text(*path)),
            Reply::Line(line) => Finding::Line(opt_text(*line)),
        }
    }
}

/// A device tree at one moment: what each lookup would find in it.
pub struct DeviceTree {
    /// The matches of each pattern.
    pub matches: spec_fn(Seq<char>) -> Seq<Option<Seq<char>>>,
    /// The canonical form of each path that has one.
    pub canonical: spec_fn(Seq<char>) -> Option<Seq<char>>,
    /// What each file that can be opened holds, through its first line at least.
    pub first_line: spec_fn(Seq<char>) -> Option<Seq<char>>,
}

impl DeviceTree {
    /// What a lookup finds in this tree.
    pub open spec fn answer(self, lookup: Lookup) -> Finding {
        match lookup {
            Lookup::Match(pattern) => Finding::Matched((self.matches)(pattern)),
            Lookup::Resolve(path) => Finding::Resolved((self.canonical)(path)),
            Lookup::ReadLine(path) => Finding::Line((self.first_line)(path)),
            Lookup::Nothing => Finding::Line(None),
        }
    }

    /// The name of the bus that owns the hardware node `device_dir`: the
    /// final component of what its `subsystem` link resolves to.
    pub open spec fn subsystem(self, device_dir: Option<Seq<char>>) -> Option<Seq<char>> {
        match device_dir {
            Some(dir) => match (self.canonical)(joined(dir, "subsystem"@)) {
                Some(bus) => path_file_name(bus),
                None => None,
            },
            None => None,
        }
    }

    /// Whether every hardware node that sits on the AMBA bus has a directory
    /// with a name. A port on that bus is identified by this name, so only
    /// in such a tree does every node have a classification.
    pub open spec fn well_named(self) -> bool {
        forall|dir: Seq<char>| #[trigger]
            self.subsystem(Some(dir)) == Some("amba"@) ==> path_file_name(dir) is Some
    }

    /// The first lines of the attribute files of the USB device node `dir`.
    pub open spec fn usb_lines(self, dir: Option<Seq<char>>) -> UsbLines {
        match dir {
            Some(d) => UsbLines {
                id_vendor: (self.first_line)(joined(d, "idVendor"@)),
                id_product: (self.first_line)(joined(d, "idProduct"@)),
                serial: (self.first_line)(joined(d, "serial"@)),
                manufacturer: (self.first_line)(joined(d, "manufacturer"@)),
                product: (self.first_line)(joined(d, "product"@)),
                interface: (self.first_line)(joined(d, "interface"@)),
            },
            None => UsbLines::missing(),
        }
    }
}

} // verus!
