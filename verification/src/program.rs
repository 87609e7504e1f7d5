//! Linked programs: what the driver's link report makes of a program, and
//! the locations of its uniforms.

use vstd::prelude::*;
use vstd::string::*;
use crate::diagnostic::{
    log_text, log_text_of, status_succeeded, succeeded, text_view, BuildFailure, BuildUnit,
};
use crate::inquiry::BuildReport;
use crate::shader::{stage_of_report, ShaderStage, StageKind, StageView};

verus! {

/// The name under which the vertex stage takes the combined transform.
pub const TRANSFORM_UNIFORM: &'static str = "mvp";

/// The location the driver gives for a uniform that the program lacks.
pub const UNRESOLVED_LOCATION: i32 = -1;

/// Where a uniform of a linked program lives, or the mark that it does not
/// exist.
#[derive(Clone, Copy, Debug, PartialEq, Eq, Structural)]
pub struct UniformHandle {
    /// The location as the driver reported it.
    pub location: i32,
}

impl UniformHandle {
    /// Whether the handle names a uniform that exists. The driver numbers
    /// uniforms from zero and answers with a negative location for a name
    /// that the program does not have.
    pub open spec fn resolves(self) -> bool {
        self.location >= 0
    }

    /// Wraps a location as the driver reported it.
    pub fn from_location(location: i32) -> (handle: Self)
        ensures
            handle.location == location,
    {
        UniformHandle { location }
    }

    /// The handle of a uniform that does not exist.
    pub fn unresolved() -> (handle: Self)
        ensures
            handle.location == UNRESOLVED_LOCATION,
            !handle.resolves(),
    {
        UniformHandle { location: UNRESOLVED_LOCATION }
    }

    /// Whether a value may be written through this handle.
    pub fn is_valid(&self) -> (valid: bool)
        ensures
            valid == self.resolves(),
    {
        self.location >= 0
    }
}

/// One uniform whose location the driver was asked for.
#[derive(Debug)]
struct UniformEntry {
    name: String,
    location: i32,
}

/// What the link made of two compiled stages.
#[derive(Debug)]
struct Linkage {
    handle: u32,
    vertex: ShaderStage,
    fragment: ShaderStage,
    linked: bool,
    log: Option<String>,
}

impl Linkage {
    #[verifier::type_invariant]
    spec fn built_from_compiled_stages(self) -> bool {
        &&& self.vertex@.compiled
        &&& self.fragment@.compiled
        &&& self.linked ==> self.log is None
    }
}

/// A program after the driver has linked its two stages.
#[derive(Debug)]
pub struct Program {
    linkage: Linkage,
    uniforms: Vec<UniformEntry>,
}

/// What a program is, as plain values.
pub struct ProgramView {
    /// The driver's name for the program.
    pub handle: u32,
    /// The vertex stage it was linked from.
    pub vertex: StageView,
    /// The fragment stage it was linked from.
    pub fragment: StageView,
    /// Whether the driver linked the stages.
    pub linked: bool,
    /// The driver's log. Only a program that did not link has one.
    pub log: Option<Seq<char>>,
    /// The uniform locations resolved so far, by name.
    pub uniforms: Map<Seq<char>, i32>,
}

impl ProgramView {
    /// Whether the program may be drawn with: both stages compiled and the
    /// driver linked them.
    pub open spec fn usable(self) -> bool {
        self.vertex.compiled && self.fragment.compiled && self.linked
    }

    /// What a lookup of `name` among the resolved uniforms gives.
    pub open spec fn cached(self, name: Seq<char>) -> Option<UniformHandle> {
        if self.uniforms.dom().contains(name) {
            Some(UniformHandle { location: self.uniforms[name] })
        } else {
            None
        }
    }

    /// The program after the location of `name` was reported as `location`:
    /// a name resolved before keeps the location it has.
    pub open spec fn remembering(self, name: Seq<char>, location: i32) -> ProgramView {
        if self.uniforms.dom().contains(name) {
            self
        } else {
            ProgramView { uniforms: self.uniforms.insert(name, location), ..self }
        }
    }
}

/// The entries as a map from name to location; of two entries with one
/// name the later one counts.
spec fn entries_map(entries: Seq<UniformEntry>) -> Map<Seq<char>, i32>
    decreases entries.len(),
{
    if entries.len() == 0 {
        Map::empty()
    } else {
        entries_map(entries.drop_last()).insert(entries.last().name@, entries.last().location)
    }
}

/// A name that no entry has is not in the map.
proof fn lemma_absent_name(entries: Seq<UniformEntry>, name: Seq<char>)
    requires
        forall|j: int| 0 <= j < entries.len() ==> entries[j].name@ != name,
    ensures
        !entries_map(entries).dom().contains(name),
    decreases entries.len(),
{
    if entries.len() > 0 {
        lemma_absent_name(entries.drop_last(), name);
    }
}

/// The last entry with a name is the one the map gives for it.
proof fn lemma_last_match(entries: Seq<UniformEntry>, name: Seq<char>, i: int)
    requires
        0 <= i < entries.len(),
        entries[i].name@ == name,
        forall|j: int| i < j < entries.len() ==> entries[j].name@ != name,
    ensures
        entries_map(entries).dom().contains(name),
        entries_map(entries)[name] == entries[i].location,
    decreases entries.len(),
{
    if i < entries.len() - 1 {
        lemma_last_match(entries.drop_last(), name, i);
    }
}

impl View for Program {
    type V = ProgramView;

    closed spec fn view(&self) -> ProgramView {
        ProgramView {
            handle: self.linkage.handle,
            vertex: self.linkage.vertex@,
            fragment: self.linkage.fragment@,
            linked: self.linkage.linked,
            log: text_view(self.linkage.log),
            uniforms: entries_map(self.uniforms@),
        }
    }
}

/// The program that a link report describes: it linked exactly when the
/// status says so, carries the log's text only when it did not, and has no
/// uniform resolved yet.
pub open spec fn program_of_report(
    handle: u32,
    vertex: StageView,
    fragment: StageView,
    status: i32,
    raw_log: Seq<u8>,
) -> ProgramView {
    ProgramView {
        handle,
        vertex,
        fragment,
        linked: status_succeeded(status),
        log: if status_succeeded(status) {
            None
        } else {
            log_text_of(raw_log)
        },
        uniforms: Map::empty(),
    }
}

impl Program {
    /// Records the outcome of linking two stages into a program, from what
    /// the driver reported of it.
    ///
    /// Both stages must have compiled; that is the caller's to see to. The
    /// program keeps the stages, so that neither can go into another one.
    /// The log buffer is looked at only when the status reports a failure.
    pub fn from_report(
        handle: u32,
        vertex: ShaderStage,
        fragment: ShaderStage,
        report: BuildReport,
    ) -> (program: Self)
        requires
            vertex@.compiled,
            fragment@.compiled,
        ensures
            program@ == program_of_report(
                handle,
                vertex@,
                fragment@,
                report.status,
                report.raw_log@,
            ),
    {
        let linked = succeeded(report.status);
        let log = if linked {
            None
        } else {
            log_text(report.raw_log)
        };
        Program {
            linkage: Linkage { handle, vertex, fragment, linked, log },
            uniforms: Vec::new(),
        }
    }

    /// The driver's name for the program.
    pub fn handle(&self) -> (handle: u32)
        ensures
            handle == self@.handle,
    {
        self.linkage.handle
    }

    /// Whether the driver linked the stages. A program that linked has no
    /// log.
    pub fn is_linked(&self) -> (linked: bool)
        ensures
            linked == self@.linked,
            linked ==> self@.log is None,
    {
        proof {
            use_type_invariant(&self.linkage);
        }
        self.linkage.linked
    }

    /// Whether the program may be drawn with. Its stages compiled, or it
    /// would not exist; so this is whether it linked.
    pub fn is_usable(&self) -> (usable: bool)
        ensures
            usable == self@.usable(),
            usable == self@.linked,
    {
        proof {
            use_type_invariant(&self.linkage);
        }
        self.linkage.linked
    }

    /// The driver's log, if the program has one.
    pub fn log(&self) -> (log: Option<String>)
        ensures
            text_view(log) == self@.log,
    {
        self.linkage.log.clone()
    }

    /// A program that did not link is never handed on: it becomes the
    /// failure that ends the build. A linked program passes unchanged.
    pub fn checked(self) -> (out: Result<Program, BuildFailure>)
        ensures
            match out {
                Ok(program) => self@.usable() && program == self,
                Err(failure) => {
                    &&& !self@.linked
                    &&& failure.unit == BuildUnit::Program
                    &&& text_view(failure.log) == self@.log
                },
            },
    {
        proof {
            use_type_invariant(&self.linkage);
        }
        if self.linkage.linked {
            Ok(self)
        } else {
            Err(BuildFailure { unit: BuildUnit::Program, log: self.linkage.log })
        }
    }

    /// Looks a uniform up among those resolved so far.
    pub fn cached_uniform(&self, name: &str) -> (found: Option<UniformHandle>)
        ensures
            found == self@.cached(name@),
    {
        let wanted = name.to_owned();
        let mut i: usize = self.uniforms.len();
        while i > 0
            invariant
                i <= self.uniforms@.len(),
                wanted@ == name@,
                forall|j: int| i <= j < self.uniforms@.len() ==> self.uniforms@[j].name@ != name@,
            decreases i,
        {
            i -= 1;
            if self.uniforms[i].name == wanted {
                proof {
                    lemma_last_match(self.uniforms@, name@, i as int);
                }
                return Some(UniformHandle { location: self.uniforms[i].location });
            }
        }
        proof {
            lemma_absent_name(self.uniforms@, name@);
        }
        None
    }

    /// Takes note of the location that the driver reported for `name`, and
    /// returns the handle under which the uniform is known from now on.
    ///
    /// The first report for a name stands: a later one for the same name
    /// changes nothing and gets the earlier handle back. Nothing else about
    /// the program changes.
    pub fn remember_uniform(&mut self, name: &str, location: i32) -> (handle: UniformHandle)
        ensures
            final(self)@ == old(self)@.remembering(name@, location),
            Some(handle) == final(self)@.cached(name@),
    {
        match self.cached_uniform(name) {
            Some(known) => known,
            None => {
                self.uniforms.push(UniformEntry { name: name.to_owned(), location });
                assert(self.uniforms@.drop_last() == old(self).uniforms@);
                UniformHandle { location }
            },
        }
    }
}

/// A build ends in a usable program exactly when the driver reported
/// success for both stages and for the link. Whatever the driver refuses
/// never comes out as something to draw with.
pub proof fn lemma_usable_iff_driver_accepted(
    vertex: (u32, i32, Seq<u8>),
    fragment: (u32, i32, Seq<u8>),
    program: (u32, i32, Seq<u8>),
)
    ensures
        program_of_report(
            program.0,
            stage_of_report(vertex.0, StageKind::Vertex, vertex.1, vertex.2),
            stage_of_report(fragment.0, StageKind::Fragment, fragment.1, fragment.2),
            program.1,
            program.2,
        ).usable() <==> status_succeeded(vertex.1) && status_succeeded(fragment.1)
            && status_succeeded(program.1),
{
}

} // verus!
