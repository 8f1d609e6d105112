//! The launch descriptor: the processes, labels, slices and bill of
//! materials that a build hands to the container runtime.
use vstd::prelude::*;

use crate::identifier::ProcessType;

verus! {

/// A runnable process of the built application.
#[derive(Debug, Clone, PartialEq, Eq)]
pub struct Process {
    pub process_type: ProcessType,
    pub command: String,
    pub args: Option<Vec<String>>,
    pub direct: Option<bool>,
    pub default: Option<bool>,
}

/// The mathematical content of a `Process`.
pub struct ProcessView {
    pub process_type: Seq<char>,
    pub command: Seq<char>,
    pub args: Option<Seq<Seq<char>>>,
    pub direct: Option<bool>,
    pub default: Option<bool>,
}

pub open spec fn strings_view(v: Seq<String>) -> Seq<Seq<char>> {
    v.map_values(|s: String| s@)
}

impl View for Process {
    type V = ProcessView;

    open spec fn view(&self) -> ProcessView {
        ProcessView {
            process_type: self.process_type@,
            command: self.command@,
            args: match self.args {
                Some(a) => Some(strings_view(a@)),
                None => None,
            },
            direct: self.direct,
            default: self.default,
        }
    }
}

impl Process {
    pub fn new(
        process_type: ProcessType,
        command: String,
        args: Option<Vec<String>>,
        direct: Option<bool>,
        default: Option<bool>,
    ) -> (r: Process)
        ensures
            r.process_type@ == process_type@,
            r.command@ == command@,
            r.args == args,
            r.direct == direct,
            r.default == default,
    {
        Process { process_type, command, args, direct, default }
    }
}

/// A key and value attached to the application image.
#[derive(Debug, Clone, PartialEq, Eq)]
pub struct Label {
    pub key: String,
    pub value: String,
}

/// A group of application paths that forms its own image layer.
#[derive(Debug, Clone, PartialEq, Eq)]
pub struct Slice {
    pub paths: Vec<String>,
}

/// One entry of the bill of materials; its metadata in serialized form.
#[derive(Debug, Clone, PartialEq, Eq)]
pub struct BomEntry {
    pub name: String,
    pub metadata: String,
}

/// The launch descriptor.
#[derive(Debug, Clone, PartialEq, Eq)]
pub struct Launch {
    pub bom: Vec<BomEntry>,
    pub labels: Vec<Label>,
    pub processes: Vec<Process>,
    pub slices: Vec<Slice>,
}

/// The process types of `ps`, in order.
pub open spec fn process_types(ps: Seq<Process>) -> Seq<Seq<char>> {
    ps.map_values(|p: Process| p.process_type@)
}

/// No two processes share a type.
pub open spec fn types_unique(ps: Seq<Process>) -> bool {
    forall|i: int, j: int|
        0 <= i < ps.len() && 0 <= j < ps.len() && (#[trigger] ps[i]).process_type@
            == (#[trigger] ps[j]).process_type@ ==> i == j
}

/// The processes after adding `p`: in place of the one of the same type
/// where there is one, at the end otherwise.
pub open spec fn with_process(ps: Seq<Process>, p: Process) -> Seq<Process> {
    if exists|i: int| 0 <= i < ps.len() && (#[trigger] ps[i]).process_type@ == p.process_type@ {
        ps.update(
            choose|i: int| 0 <= i < ps.len() && (#[trigger] ps[i]).process_type@ == p.process_type@,
            p,
        )
    } else {
        ps.push(p)
    }
}

impl Launch {
    /// Well-formed: process types are unique.
    pub open spec fn wf(&self) -> bool {
        types_unique(self.processes@)
    }

    /// An empty descriptor.
    pub fn new() -> (r: Launch)
        ensures
            r.wf(),
            r.bom@.len() == 0,
            r.labels@.len() == 0,
            r.processes@.len() == 0,
            r.slices@.len() == 0,
    {
        Launch { bom: Vec::new(), labels: Vec::new(), processes: Vec::new(), slices: Vec::new() }
    }

    /// This descriptor with `process` added; a process of the same type is
    /// replaced, so that types stay unique.
    pub fn process(self, process: Process) -> (r: Launch)
        requires
            self.wf(),
        ensures
            r.wf(),
            r.processes@ == with_process(self.processes@, process),
            r.bom == self.bom,
            r.labels == self.labels,
            r.slices == self.slices,
    {
        let Launch { bom, labels, processes: mut ps_exec, slices } = self;
        let ghost old_ps = ps_exec@;
        let mut i: usize = 0;
        while i < ps_exec.len()
            invariant
                0 <= i <= ps_exec.len(),
                ps_exec@ == old_ps,
                old_ps == self.processes@,
                bom == self.bom,
                labels == self.labels,
                slices == self.slices,
                types_unique(old_ps),
                forall|j: int|
                    0 <= j < i ==> (#[trigger] old_ps[j]).process_type@ != process.process_type@,
            decreases ps_exec.len() - i,
        {
            let same = ps_exec[i].process_type == process.process_type;
            if same {
                proof {
                    assert(old_ps[i as int].process_type@ == process.process_type@);
                    let k = choose|k: int|
                        0 <= k < old_ps.len() && (#[trigger] old_ps[k]).process_type@
                            == process.process_type@;
                    assert(old_ps[k].process_type@ == old_ps[i as int].process_type@);
                    assert(with_process(old_ps, process) == old_ps.update(i as int, process));
                }
                ps_exec.set(i, process);
                proof {
                    let ps = ps_exec@;
                    assert forall|a: int, b: int|
                        0 <= a < ps.len() && 0 <= b < ps.len() && (#[trigger] ps[a]).process_type@
                            == (#[trigger] ps[b]).process_type@ implies a == b by {
                        assert(old_ps[a].process_type@ == ps[a].process_type@);
                        assert(old_ps[b].process_type@ == ps[b].process_type@);
                    }
                }
                return Launch { bom, labels, processes: ps_exec, slices };
            }
            i = i + 1;
        }
        ps_exec.push(process);
        proof {
            let ps = ps_exec@;
            assert forall|a: int, b: int|
                0 <= a < ps.len() && 0 <= b < ps.len() && (#[trigger] ps[a]).process_type@
                    == (#[trigger] ps[b]).process_type@ implies a == b by {
                if a < old_ps.len() {
                    assert(old_ps[a] == ps[a]);
                }
                if b < old_ps.len() {
                    assert(old_ps[b] == ps[b]);
                }
            }
        }
        Launch { bom, labels, processes: ps_exec, slices }
    }
}

impl Launch {
    /// Whether a process of type `process_type` is declared.
    pub fn has_process_type(&self, process_type: &ProcessType) -> (r: bool)
        ensures
            r == process_types(self.processes@).contains(process_type@),
    {
        let mut i: usize = 0;
        while i < self.processes.len()
            invariant
                0 <= i <= self.processes.len(),
                forall|j: int| 0 <= j < i ==> (#[trigger] self.processes@[j]).process_type@ != process_type@,
            decreases self.processes.len() - i,
        {
            if self.processes[i].process_type == *process_type {
                proof {
                    assert(process_types(self.processes@)[i as int] == process_type@);
                }
                return true;
            }
            i = i + 1;
        }
        proof {
            if process_types(self.processes@).contains(process_type@) {
                let j = choose|j: int|
                    0 <= j < process_types(self.processes@).len() && process_types(self.processes@)[j]
                        == process_type@;
                assert(self.processes@[j].process_type@ == process_type@);
            }
        }
        false
    }
}

impl Default for Launch {
    fn default() -> (r: Launch)
        ensures
            r.wf(),
            r.bom@.len() == 0,
            r.labels@.len() == 0,
            r.processes@.len() == 0,
            r.slices@.len() == 0,
    {
        Launch::new()
    }
}

} // verus!
