//! Enumerating the serial ports: every device node that one of five
//! patterns matches is classified, and those that get a record are listed.

use vstd::prelude::*;
use crate::path::{path_file_name, tty_device_link};
use crate::port::{ports_view, ListPortInfo, PortInfo};
use crate::probe::{classify, lemma_probe_start, lemma_probe_step, Probe, ProbeStage, ProbeState};
use crate::text::opt_texts;
use crate::tree::{DeviceTree, Finding, Lookup, Reply, Request};

verus! {

/// The number of patterns.
pub const PATTERNS: usize = 5;

/// The patterns of the device nodes, in the order they are tried: serial
/// lines, USB adapters, USB modems, on-chip UARTs, Bluetooth channels.
pub open spec fn pattern_text(i: int) -> Seq<char> {
    if i == 0 {
        "/dev/ttyS*"@
    } else if i == 1 {
        "/dev/ttyUSB*"@
    } else if i == 2 {
        "/dev/ttyACM*"@
    } else if i == 3 {
        "/dev/ttyAMA*"@
    } else {
        "/dev/rfcomm*"@
    }
}

fn pattern_at(i: usize) -> (pattern: &'static str)
    ensures
        pattern@ == pattern_text(i as int),
{
    match i {
        0 => "/dev/ttyS*",
        1 => "/dev/ttyUSB*",
        2 => "/dev/ttyACM*",
        3 => "/dev/ttyAMA*",
        _ => "/dev/rfcomm*",
    }
}

/// The list that holds a record where there is one.
pub open spec fn opt_seq(info: Option<PortInfo>) -> Seq<PortInfo> {
    match info {
        Some(i) => seq![i],
        None => Seq::empty(),
    }
}

/// The records of the matches of one pattern, in their order. A match
/// that could not be read gives none, like a node that gets none.
pub open spec fn classify_all(tree: DeviceTree, candidates: Seq<Option<Seq<char>>>) -> Seq<PortInfo>
    decreases candidates.len(),
{
    if candidates.len() == 0 {
        Seq::empty()
    } else {
        let first = match candidates[0] {
            Some(device) => opt_seq(classify(tree, device)),
            None => Seq::empty(),
        };
        first + classify_all(tree, candidates.skip(1))
    }
}

/// The records of the matches of the patterns from number `pattern` on.
pub open spec fn enumerate_from(tree: DeviceTree, pattern: int) -> Seq<PortInfo>
    decreases PATTERNS - pattern,
{
    if 0 <= pattern < PATTERNS {
        classify_all(tree, (tree.matches)(pattern_text(pattern))) + enumerate_from(tree, pattern + 1)
    } else {
        Seq::empty()
    }
}

/// The serial ports of a device tree: pattern by pattern, and for each
/// pattern match by match, the record of each node that gets one.
pub open spec fn enumerate(tree: DeviceTree) -> Seq<PortInfo> {
    enumerate_from(tree, 0)
}

/// How far an enumeration has come.
pub enum ScanStage {
    /// The matches of pattern number `pattern` are being listed.
    Matching { pattern: int },
    /// A match of pattern number `pattern` is being classified; `rest`
    /// holds the matches after it.
    Classifying { pattern: int, rest: Seq<Option<Seq<char>>>, probe: ProbeState },
    /// The enumeration is over.
    Finished,
}

/// The mathematical content of [`ListPorts`].
pub struct ListPortsState {
    pub ports: Seq<PortInfo>,
    pub stage: ScanStage,
}

impl ListPortsState {
    /// The state in which an enumeration begins.
    pub open spec fn start() -> ListPortsState {
        ListPortsState { ports: Seq::empty(), stage: ScanStage::Matching { pattern: 0 } }
    }

    /// The pattern is one of the five, and a classification under way is
    /// well formed and not over.
    pub open spec fn wf(self) -> bool {
        match self.stage {
            ScanStage::Matching { pattern } => 0 <= pattern < PATTERNS,
            ScanStage::Classifying { pattern, rest, probe } => {
                &&& 0 <= pattern < PATTERNS
                &&& probe.wf()
                &&& !probe.is_done()
            },
            ScanStage::Finished => true,
        }
    }

    pub open spec fn is_finished(self) -> bool {
        self.stage is Finished
    }

    /// The state once every match of pattern number `pattern` is dealt with.
    pub open spec fn after(ports: Seq<PortInfo>, pattern: int) -> ListPortsState {
        if pattern + 1 < PATTERNS {
            ListPortsState { ports, stage: ScanStage::Matching { pattern: pattern + 1 } }
        } else {
            ListPortsState { ports, stage: ScanStage::Finished }
        }
    }

    /// The state in which the next lookup is due, with `candidates` the
    /// matches of pattern number `pattern` that are not dealt with yet.
    /// Matches that need no lookup are dealt with on the way.
    pub open spec fn advance(
        ports: Seq<PortInfo>,
        pattern: int,
        candidates: Seq<Option<Seq<char>>>,
    ) -> ListPortsState
        decreases candidates.len(),
    {
        if candidates.len() == 0 {
            ListPortsState::after(ports, pattern)
        } else {
            match candidates[0] {
                None => ListPortsState::advance(ports, pattern, candidates.skip(1)),
                Some(device) => {
                    let probe = ProbeState::start(device);
                    match probe.stage {
                        ProbeStage::Done { info } => ListPortsState::advance(
                            ports + opt_seq(info),
                            pattern,
                            candidates.skip(1),
                        ),
                        _ => ListPortsState {
                            ports,
                            stage: ScanStage::Classifying { pattern, rest: candidates.skip(1), probe },
                        },
                    }
                },
            }
        }
    }

    /// The lookup that the enumeration needs next.
    pub open spec fn lookup(self) -> Lookup {
        match self.stage {
            ScanStage::Matching { pattern } => Lookup::Match(pattern_text(pattern)),
            ScanStage::Classifying { pattern, rest, probe } => probe.lookup(),
            ScanStage::Finished => Lookup::Nothing,
        }
    }

    /// Whether the enumeration can go on with this finding: whether the
    /// classification under way can.
    pub open spec fn accepts(self, found: Finding) -> bool {
        match self.stage {
            ScanStage::Classifying { pattern, rest, probe } => probe.accepts(found),
            _ => true,
        }
    }

    /// The state after a finding. A finding of a kind that was not asked
    /// for changes nothing.
    pub open spec fn step(self, found: Finding) -> ListPortsState {
        match self.stage {
            ScanStage::Matching { pattern } => match found {
                Finding::Matched(candidates) => ListPortsState::advance(self.ports, pattern, candidates),
                _ => self,
            },
            ScanStage::Classifying { pattern, rest, probe } => {
                let probe = probe.step(found);
                match probe.stage {
                    ProbeStage::Done { info } => ListPortsState::advance(
                        self.ports + opt_seq(info),
                        pattern,
                        rest,
                    ),
                    _ => ListPortsState {
                        ports: self.ports,
                        stage: ScanStage::Classifying { pattern, rest, probe },
                    },
                }
            },
            ScanStage::Finished => self,
        }
    }
}

enum Scan {
    Matching { pattern: usize },
    Classifying { pattern: usize, candidates: Vec<Option<String>>, next: usize, probe: Probe },
    Finished,
}

impl View for Scan {
    type V = ScanStage;

    closed spec fn view(&self) -> ScanStage {
        match self {
            Scan::Matching { pattern } => ScanStage::Matching { pattern: *pattern as int },
            Scan::Classifying { pattern, candidates, next, probe } => ScanStage::Classifying {
                pattern: *pattern as int,
                rest: opt_texts(candidates@).skip(*next + 1),
                probe: probe@,
            },
            Scan::Finished => ScanStage::Finished,
        }
    }
}

/// An enumeration of the serial ports, as far as it has come. It names the
/// lookup it needs next and goes on when told what the lookup found; once
/// it is finished it holds the ports.
pub struct ListPorts {
    ports: Vec<ListPortInfo>,
    stage: Scan,
}

impl View for ListPorts {
    type V = ListPortsState;

    closed spec fn view(&self) -> ListPortsState {
        ListPortsState { ports: ports_view(self.ports@), stage: self.stage@ }
    }
}

impl ListPorts {
    #[verifier::type_invariant]
    spec fn inv(self) -> bool {
        &&& self@.wf()
        &&& match self.stage {
            Scan::Classifying { pattern, candidates, next, probe } => next < candidates.len(),
            _ => true,
        }
    }

    /// Begins an enumeration: no port is listed yet, and the matches of the
    /// first pattern are asked for.
    pub fn new() -> (list: ListPorts)
        ensures
            list@ == ListPortsState::start(),
            list@.wf(),
    {
        let ports: Vec<ListPortInfo> = Vec::new();
        assert(ports_view(ports@) =~= Seq::empty());
        ListPorts { ports, stage: Scan::Matching { pattern: 0 } }
    }

    /// The lookup to perform next.
    pub fn request(&self) -> (request: Request)
        ensures
            request@ == self@.lookup(),
    {
        match &self.stage {
            Scan::Matching { pattern } => Request::Match(pattern_at(*pattern).to_owned()),
            Scan::Classifying { pattern, candidates, next, probe } => probe.request(),
            Scan::Finished => Request::Nothing,
        }
    }

    /// Whether the enumeration is over.
    pub fn is_finished(&self) -> (finished: bool)
        ensures
            finished == self@.is_finished(),
    {
        match &self.stage {
            Scan::Finished => true,
            _ => false,
        }
    }

    /// The ports listed so far.
    pub fn ports(&self) -> (ports: &Vec<ListPortInfo>)
        ensures
            ports_view(ports@) == self@.ports,
    {
        &self.ports
    }

    /// The ports listed so far, handed over.
    pub fn into_ports(self) -> (ports: Vec<ListPortInfo>)
        ensures
            ports_view(ports@) == self@.ports,
    {
        self.ports
    }

    /// Whether the enumeration can go on with this reply.
    pub fn accepts(&self, reply: &Reply) -> (ok: bool)
        ensures
            ok == self@.accepts(reply@),
    {
        match &self.stage {
            Scan::Classifying { pattern, candidates, next, probe } => probe.accepts(reply),
            _ => true,
        }
    }

    /// Deals with the matches of pattern number `pattern` from number
    /// `from` on, up to the first that needs a lookup.
    fn advance(
        listed: Vec<ListPortInfo>,
        pattern: usize,
        candidates: Vec<Option<String>>,
        from: usize,
    ) -> (list: ListPorts)
        requires
            pattern < PATTERNS,
            from <= candidates.len(),
        ensures
            list@ == ListPortsState::advance(
                ports_view(listed@),
                pattern as int,
                opt_texts(candidates@).skip(from as int),
            ),
            list@.wf(),
    {
        let ghost all = opt_texts(candidates@);
        let ghost target = ListPortsState::advance(
            ports_view(listed@),
            pattern as int,
            all.skip(from as int),
        );
        let mut ports = listed;
        let mut i: usize = from;
        while i < candidates.len()
            invariant
                pattern < PATTERNS,
                from <= i <= candidates.len(),
                all == opt_texts(candidates@),
                target == ListPortsState::advance(
                    ports_view(listed@),
                    pattern as int,
                    all.skip(from as int),
                ),
                target == ListPortsState::advance(ports_view(ports@), pattern as int, all.skip(i as int)),
            decreases candidates.len() - i,
        {
            proof {
                assert(all.skip(i as int)[0] == all[i as int]);
                assert(all.skip(i as int).skip(1) =~= all.skip(i + 1));
            }
            match &candidates[i] {
                None => {},
                Some(device) => {
                    let probe = Probe::new(device.clone());
                    if probe.is_done() {
                        let ghost before = ports_view(ports@);
                        let ghost done = probe@;
                        match probe.into_info() {
                            Some(info) => {
                                ports.push(info);
                                assert(ports_view(ports@) =~= before + seq![info@]);
                            },
                            None => {
                                assert(ports_view(ports@) =~= before + Seq::<PortInfo>::empty());
                            },
                        }
                    } else {
                        return ListPorts {
                            ports,
                            stage: Scan::Classifying { pattern, candidates, next: i, probe },
                        };
                    }
                },
            }
            i += 1;
        }
        if pattern + 1 < PATTERNS {
            ListPorts { ports, stage: Scan::Matching { pattern: pattern + 1 } }
        } else {
            ListPorts { ports, stage: Scan::Finished }
        }
    }

    /// Goes on with what the lookup found. A reply of a kind that was not
    /// asked for changes nothing.
    pub fn step(self, reply: Reply) -> (next: ListPorts)
        requires
            self@.accepts(reply@),
        ensures
            next@ == self@.step(reply@),
            next@.wf(),
    {
        proof {
            use_type_invariant(&self);
        }
        let ListPorts { ports, stage } = self;
        match stage {
            Scan::Matching { pattern } => match reply {
                Reply::Matched(candidates) => {
                    assert(opt_texts(candidates@).skip(0) =~= opt_texts(candidates@));
                    ListPorts::advance(ports, pattern, candidates, 0)
                },
                _ => ListPorts { ports, stage: Scan::Matching { pattern } },
            },
            Scan::Classifying { pattern, candidates, next, probe } => {
                let probe = probe.step(reply);
                if probe.is_done() {
                    let mut ports = ports;
                    let ghost before = ports_view(ports@);
                    match probe.into_info() {
                        Some(info) => {
                            ports.push(info);
                            assert(ports_view(ports@) =~= before + seq![info@]);
                        },
                        None => {
                            assert(ports_view(ports@) =~= before + Seq::<PortInfo>::empty());
                        },
                    }
                    ListPorts::advance(ports, pattern, candidates, next + 1)
                } else {
                    ListPorts { ports, stage: Scan::Classifying { pattern, candidates, next, probe } }
                }
            },
            Scan::Finished => ListPorts { ports, stage: Scan::Finished },
        }
    }

    /// Goes on with what the lookup found, where the enumeration can go on
    /// with it; otherwise there is no next state.
    pub fn checked_step(self, reply: Reply) -> (next: Option<ListPorts>)
        ensures
            next is Some == self@.accepts(reply@),
            next is Some ==> next->0@ == self@.step(reply@) && next->0@.wf(),
    {
        if self.accepts(&reply) {
            Some(self.step(reply))
        } else {
            None
        }
    }
}

/// The number of lookups that the matches of one pattern can need: eight
/// for each that could be read.
pub open spec fn cost_all(candidates: Seq<Option<Seq<char>>>) -> nat
    decreases candidates.len(),
{
    if candidates.len() == 0 {
        0
    } else {
        let first: nat = if candidates[0] is Some {
            8
        } else {
            0
        };
        first + cost_all(candidates.skip(1))
    }
}

/// The number of lookups that the patterns from number `pattern` on can
/// need in `tree`: one for each pattern, and those of its matches.
pub open spec fn cost_from(tree: DeviceTree, pattern: int) -> nat
    decreases PATTERNS - pattern,
{
    if 0 <= pattern < PATTERNS {
        1 + cost_all((tree.matches)(pattern_text(pattern))) + cost_from(tree, pattern + 1)
    } else {
        0
    }
}

impl ListPortsState {
    /// The ports that the enumeration ends with, if every lookup from here
    /// on finds what `tree` holds.
    pub open spec fn outcome(self, tree: DeviceTree) -> Seq<PortInfo> {
        match self.stage {
            ScanStage::Matching { pattern } => self.ports + enumerate_from(tree, pattern),
            ScanStage::Classifying { pattern, rest, probe } => self.ports + opt_seq(probe.outcome(tree))
                + classify_all(tree, rest) + enumerate_from(tree, pattern + 1),
            ScanStage::Finished => self.ports,
        }
    }

    /// The number of lookups that the enumeration can still need in `tree`.
    pub open spec fn remaining(self, tree: DeviceTree) -> nat {
        match self.stage {
            ScanStage::Matching { pattern } => cost_from(tree, pattern),
            ScanStage::Classifying { pattern, rest, probe } => probe.remaining() + cost_all(rest)
                + cost_from(tree, pattern + 1),
            ScanStage::Finished => 0,
        }
    }

    /// The state after `steps` lookups, each of which found what `tree` holds.
    pub open spec fn run(self, tree: DeviceTree, steps: nat) -> ListPortsState
        decreases steps,
    {
        if steps == 0 {
            self
        } else {
            self.step(tree.answer(self.lookup())).run(tree, (steps - 1) as nat)
        }
    }
}

/// Dealing with the matches of a pattern leaves a well-formed state, which
/// will end with the records of these matches and of the later patterns
/// after the ports listed before, within the lookups that they can need.
pub proof fn lemma_advance(
    tree: DeviceTree,
    ports: Seq<PortInfo>,
    pattern: int,
    candidates: Seq<Option<Seq<char>>>,
)
    requires
        0 <= pattern < PATTERNS,
    ensures
        ListPortsState::advance(ports, pattern, candidates).wf(),
        ListPortsState::advance(ports, pattern, candidates).outcome(tree) == ports + classify_all(
            tree,
            candidates,
        ) + enumerate_from(tree, pattern + 1),
        ListPortsState::advance(ports, pattern, candidates).remaining(tree) <= cost_all(candidates)
            + cost_from(tree, pattern + 1),
    decreases candidates.len(),
{
    let later = enumerate_from(tree, pattern + 1);
    if candidates.len() == 0 {
        assert(ports + classify_all(tree, candidates) =~= ports);
        assert(ports + later =~= ports + enumerate_from(tree, pattern + 1));
        if pattern + 1 >= PATTERNS {
            assert(ports + later =~= ports);
        }
    } else {
        let rest = candidates.skip(1);
        match candidates[0] {
            None => {
                lemma_advance(tree, ports, pattern, rest);
                assert(classify_all(tree, candidates) =~= classify_all(tree, rest));
            },
            Some(device) => {
                let probe = ProbeState::start(device);
                lemma_probe_start(tree, device);
                let first = opt_seq(classify(tree, device));
                assert(classify_all(tree, candidates) == first + classify_all(tree, rest));
                assert(ports + (first + classify_all(tree, rest)) + later =~= ports + first
                    + classify_all(tree, rest) + later);
                match probe.stage {
                    ProbeStage::Done { info } => {
                        lemma_advance(tree, ports + opt_seq(info), pattern, rest);
                    },
                    _ => {},
                }
            },
        }
    }
}

/// One lookup in a tree brings an enumeration nearer to its end and leaves
/// what it will end with as it was.
pub proof fn lemma_list_step(state: ListPortsState, tree: DeviceTree)
    requires
        state.wf(),
        tree.well_named(),
    ensures
        state.accepts(tree.answer(state.lookup())),
        state.step(tree.answer(state.lookup())).wf(),
        state.step(tree.answer(state.lookup())).outcome(tree) == state.outcome(tree),
        state.is_finished() ==> state.step(tree.answer(state.lookup())) == state,
        !state.is_finished() ==> state.step(tree.answer(state.lookup())).remaining(tree)
            < state.remaining(tree),
{
    match state.stage {
        ScanStage::Matching { pattern } => {
            let candidates = (tree.matches)(pattern_text(pattern));
            lemma_advance(tree, state.ports, pattern, candidates);
            assert(state.ports + (classify_all(tree, candidates) + enumerate_from(tree, pattern + 1))
                =~= state.ports + classify_all(tree, candidates) + enumerate_from(tree, pattern + 1));
        },
        ScanStage::Classifying { pattern, rest, probe } => {
            lemma_probe_step(probe, tree);
            let next = probe.step(tree.answer(probe.lookup()));
            match next.stage {
                ProbeStage::Done { info } => {
                    lemma_advance(tree, state.ports + opt_seq(info), pattern, rest);
                },
                _ => {},
            }
        },
        ScanStage::Finished => {},
    }
}

/// Lookups that find what a tree holds keep an enumeration well formed and
/// leave what it will end with as it was; once there were as many as it
/// could need, it is finished.
pub proof fn lemma_list_run(state: ListPortsState, tree: DeviceTree, steps: nat)
    requires
        state.wf(),
        tree.well_named(),
    ensures
        state.run(tree, steps).wf(),
        state.run(tree, steps).outcome(tree) == state.outcome(tree),
        steps >= state.remaining(tree) ==> state.run(tree, steps).is_finished(),
    decreases steps,
{
    if steps > 0 {
        lemma_list_step(state, tree);
        lemma_list_run(state.step(tree.answer(state.lookup())), tree, (steps - 1) as nat);
    }
}

/// An enumeration by lookups in a tree is finished once there were as many
/// lookups as the tree's patterns and matches can need, and then lists the
/// serial ports of the tree.
pub proof fn lemma_enumeration(tree: DeviceTree, steps: nat)
    requires
        tree.well_named(),
        steps >= cost_from(tree, 0),
    ensures
        ListPortsState::start().run(tree, steps) == (ListPortsState {
            ports: enumerate(tree),
            stage: ScanStage::Finished,
        }),
{
    let start = ListPortsState::start();
    lemma_list_run(start, tree, steps);
    assert(start.ports + enumerate_from(tree, 0) =~= enumerate(tree));
}

/// Two enumerations of one tree list the same ports in the same order,
/// however many lookups each was given beyond its last.
pub proof fn lemma_enumeration_is_repeatable(tree: DeviceTree, first: nat, second: nat)
    requires
        tree.well_named(),
        ListPortsState::start().run(tree, first).is_finished(),
        ListPortsState::start().run(tree, second).is_finished(),
    ensures
        ListPortsState::start().run(tree, first).ports == ListPortsState::start().run(tree, second).ports,
        ListPortsState::start().run(tree, first).ports == enumerate(tree),
{
    let start = ListPortsState::start();
    lemma_list_run(start, tree, first);
    lemma_list_run(start, tree, second);
    assert(start.ports + enumerate_from(tree, 0) =~= enumerate(tree));
}

/// Whether `device` sits on the platform bus of `tree`.
pub open spec fn on_platform_bus(tree: DeviceTree, device: Seq<char>) -> bool {
    path_file_name(device) is Some && tree.subsystem(
        (tree.canonical)(tty_device_link(path_file_name(device)->0)),
    ) == Some("platform"@)
}

/// Every record among the matches of a pattern is the record of its own
/// device node, and that node is not on the platform bus.
pub proof fn lemma_classified(tree: DeviceTree, candidates: Seq<Option<Seq<char>>>, i: int)
    requires
        0 <= i < classify_all(tree, candidates).len(),
    ensures
        classify(tree, classify_all(tree, candidates)[i].device) == Some(
            classify_all(tree, candidates)[i],
        ),
        !on_platform_bus(tree, classify_all(tree, candidates)[i].device),
    decreases candidates.len(),
{
    let first = match candidates[0] {
        Some(device) => opt_seq(classify(tree, device)),
        None => Seq::empty(),
    };
    if i >= first.len() {
        lemma_classified(tree, candidates.skip(1), i - first.len());
    }
}

/// Every port from pattern number `pattern` on is the record of its own
/// device node, and that node is not on the platform bus.
pub proof fn lemma_listed_from(tree: DeviceTree, pattern: int, i: int)
    requires
        0 <= i < enumerate_from(tree, pattern).len(),
    ensures
        classify(tree, enumerate_from(tree, pattern)[i].device) == Some(
            enumerate_from(tree, pattern)[i],
        ),
        !on_platform_bus(tree, enumerate_from(tree, pattern)[i].device),
    decreases PATTERNS - pattern,
{
    let here = classify_all(tree, (tree.matches)(pattern_text(pattern)));
    if i < here.len() {
        lemma_classified(tree, (tree.matches)(pattern_text(pattern)), i);
    } else {
        lemma_listed_from(tree, pattern + 1, i - here.len());
    }
}

/// No serial port of a tree sits on the platform bus: each is the record
/// that the tree gives its own device node, and such a node gets none.
pub proof fn lemma_no_platform_port(tree: DeviceTree, i: int)
    requires
        0 <= i < enumerate(tree).len(),
    ensures
        classify(tree, enumerate(tree)[i].device) == Some(enumerate(tree)[i]),
        !on_platform_bus(tree, enumerate(tree)[i].device),
{
    lemma_listed_from(tree, 0, i);
}

} // verus!
