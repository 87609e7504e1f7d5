//! Shader stages: what the driver's compile report makes of a stage.

use vstd::prelude::*;
use crate::diagnostic::{
    log_text, log_text_of, status_succeeded, succeeded, text_view, BuildFailure, BuildUnit,
};
use crate::inquiry::BuildReport;

verus! {

/// The pipeline stage a shader is compiled for.
#[derive(Clone, Copy, Debug, PartialEq, Eq, Structural)]
pub enum StageKind {
    /// Runs once per vertex.
    Vertex,
    /// Runs once per covered pixel.
    Fragment,
}

/// A shader stage after the driver has compiled its source.
#[derive(Debug, PartialEq, Eq)]
pub struct ShaderStage {
    handle: u32,
    kind: StageKind,
    compiled: bool,
    log: Option<String>,
}

/// What a shader stage is, as plain values.
pub struct StageView {
    /// The driver's name for the stage.
    pub handle: u32,
    /// The stage the source was compiled for.
    pub kind: StageKind,
    /// Whether the driver accepted the source.
    pub compiled: bool,
    /// The driver's log. Only a stage that did not compile has one.
    pub log: Option<Seq<char>>,
}

impl View for ShaderStage {
    type V = StageView;

    closed spec fn view(&self) -> StageView {
        StageView {
            handle: self.handle,
            kind: self.kind,
            compiled: self.compiled,
            log: text_view(self.log),
        }
    }
}

/// The stage that a compile report describes: it compiled exactly when the
/// status says so, and carries the log's text only when it did not.
pub open spec fn stage_of_report(
    handle: u32,
    kind: StageKind,
    status: i32,
    raw_log: Seq<u8>,
) -> StageView {
    StageView {
        handle,
        kind,
        compiled: status_succeeded(status),
        log: if status_succeeded(status) {
            None
        } else {
            log_text_of(raw_log)
        },
    }
}

impl ShaderStage {
    #[verifier::type_invariant]
    spec fn log_only_on_failure(self) -> bool {
        self.compiled ==> self.log is None
    }

    /// Records the outcome of compiling a stage, from what the driver
    /// reported of it. The log buffer is looked at only when the status
    /// reports a failure.
    pub fn from_report(handle: u32, kind: StageKind, report: BuildReport) -> (stage: Self)
        ensures
            stage@ == stage_of_report(handle, kind, report.status, report.raw_log@),
    {
        if succeeded(report.status) {
            ShaderStage { handle, kind, compiled: true, log: None }
        } else {
            ShaderStage { handle, kind, compiled: false, log: log_text(report.raw_log) }
        }
    }

    /// The driver's name for the stage.
    pub fn handle(&self) -> (handle: u32)
        ensures
            handle == self@.handle,
    {
        self.handle
    }

    /// The stage the source was compiled for.
    pub fn kind(&self) -> (kind: StageKind)
        ensures
            kind == self@.kind,
    {
        self.kind
    }

    /// Whether the driver accepted the source. A stage that compiled has no
    /// log.
    pub fn is_compiled(&self) -> (compiled: bool)
        ensures
            compiled == self@.compiled,
            compiled ==> self@.log is None,
    {
        proof {
            use_type_invariant(self);
        }
        self.compiled
    }

    /// The driver's log, if the stage has one.
    pub fn log(&self) -> (log: Option<String>)
        ensures
            text_view(log) == self@.log,
    {
        self.log.clone()
    }

    /// A stage that did not compile is never handed on: it becomes the
    /// failure that ends the build. A compiled stage passes unchanged.
    pub fn checked(self) -> (out: Result<ShaderStage, BuildFailure>)
        ensures
            match out {
                Ok(stage) => self@.compiled && stage == self,
                Err(failure) => {
                    &&& !self@.compiled
                    &&& failure.unit == BuildUnit::Shader
                    &&& text_view(failure.log) == self@.log
                },
            },
    {
        if self.compiled {
            Ok(self)
        } else {
            Err(BuildFailure { unit: BuildUnit::Shader, log: self.log })
        }
    }
}

} // verus!
