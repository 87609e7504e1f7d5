//! Reading the report a graphics driver gives after compiling a shader stage
//! or linking a program: the status word, the length of the information log,
//! and the log's bytes.

use vstd::prelude::*;
use vstd::utf8::*;

verus! {

/// The status word with which a driver reports a successful build.
pub const STATUS_SUCCESS: i32 = 1;

/// Which kind of object a build report is about.
#[derive(Clone, Copy, Debug, PartialEq, Eq, Structural)]
pub enum BuildUnit {
    /// A single shader stage that was compiled.
    Shader,
    /// A program that was linked.
    Program,
}

/// A build that the driver refused, with what it said about it.
#[derive(Debug, PartialEq, Eq)]
pub struct BuildFailure {
    /// What was being built.
    pub unit: BuildUnit,
    /// The driver's log, where it could be read as text.
    pub log: Option<String>,
}

/// The characters of a text that may be missing.
pub open spec fn text_view(text: Option<String>) -> Option<Seq<char>> {
    match text {
        Some(s) => Some(s@),
        None => None,
    }
}

/// What is shown in place of a log that is not valid UTF-8.
pub open spec fn unreadable_log_message(unit: BuildUnit) -> Seq<char> {
    match unit {
        BuildUnit::Shader => "ShaderInfoLog not valid utf8"@,
        BuildUnit::Program => "Error had invalid utf8"@,
    }
}

/// The message that a failure with the given log shows to the operator: the
/// log itself, word for word, or the note that it could not be read.
pub open spec fn failure_message(unit: BuildUnit, log: Option<Seq<char>>) -> Seq<char> {
    match log {
        Some(text) => text,
        None => unreadable_log_message(unit),
    }
}

impl BuildFailure {
    /// The text to put before the operator when the build is given up.
    pub fn message(&self) -> (text: String)
        ensures
            text@ == failure_message(self.unit, text_view(self.log)),
    {
        match &self.log {
            Some(log) => log.clone(),
            None => match self.unit {
                BuildUnit::Shader => "ShaderInfoLog not valid utf8".to_owned(),
                BuildUnit::Program => "Error had invalid utf8".to_owned(),
            },
        }
    }
}

/// Whether a status word reports success.
pub open spec fn status_succeeded(status: i32) -> bool {
    status == STATUS_SUCCESS
}

/// The number of bytes a buffer must hold to receive a log whose length the
/// driver reported as `reported`. The reported length counts the terminator;
/// a length of zero or below means there is no log at all.
pub open spec fn log_capacity_of(reported: i32) -> nat {
    if reported > 0 {
        reported as nat
    } else {
        0
    }
}

/// The bytes of a log buffer without its terminator: the last byte of a
/// non-empty buffer is dropped, an empty buffer stays empty.
pub open spec fn without_terminator(raw: Seq<u8>) -> Seq<u8> {
    if raw.len() == 0 {
        raw
    } else {
        raw.drop_last()
    }
}

/// The text of a log buffer, where its bytes without the terminator are
/// valid UTF-8.
pub open spec fn log_text_of(raw: Seq<u8>) -> Option<Seq<char>> {
    if valid_utf8(without_terminator(raw)) {
        Some(decode_utf8(without_terminator(raw)))
    } else {
        None
    }
}

/// Tells whether the driver reported a successful build.
pub fn succeeded(status: i32) -> (ok: bool)
    ensures
        ok == status_succeeded(status),
{
    status == STATUS_SUCCESS
}

/// Size of the buffer to hand to the driver when fetching a log of the
/// reported length.
pub fn log_capacity(reported: i32) -> (capacity: usize)
    ensures
        capacity == log_capacity_of(reported),
{
    if reported > 0 {
        reported as usize
    } else {
        0
    }
}

/// Removes the terminator that the driver wrote behind the log's text.
///
/// Exactly one trailing byte is removed. A buffer that is already empty, as
/// it is when a build failed without any log, is returned as it came.
pub fn strip_terminator(raw: Vec<u8>) -> (text: Vec<u8>)
    ensures
        text@ == without_terminator(raw@),
{
    let mut text = raw;
    if text.len() > 0 {
        text.pop();
    }
    text
}

/// Decodes bytes as UTF-8 text with `String::from_utf8`.
///
/// Trusted: the result is present exactly when the bytes are well-formed
/// UTF-8, and is then the text that the bytes decode to.
#[verifier::external_body]
fn text_from_utf8(bytes: Vec<u8>) -> (text: Option<String>)
    ensures
        text.is_some() == valid_utf8(bytes@),
        text matches Some(s) ==> s@ == decode_utf8(bytes@),
{
    String::from_utf8(bytes).ok()
}

/// Reads the text out of a log buffer as the driver filled it: the buffer
/// without its terminator, if that is valid UTF-8.
pub fn log_text(raw: Vec<u8>) -> (text: Option<String>)
    ensures
        text_view(text) == log_text_of(raw@),
{
    text_from_utf8(strip_terminator(raw))
}

} // verus!
