//! Asking the driver how a build went, one question at a time.
//!
//! After a compile or a link the host asks for the status. Only a failed
//! build is asked for the length of its log, and only a log that has any
//! bytes is fetched. An [`Inquiry`] keeps track of which question is due;
//! the host puts the question to the driver and hands the answer back.

use vstd::prelude::*;
use crate::diagnostic::{log_capacity, log_capacity_of, status_succeeded, succeeded};

verus! {

/// Where an inquiry stands: the question that is due, if any.
#[derive(Clone, Copy, Debug, PartialEq, Eq, Structural)]
pub enum Phase {
    /// The build's status is to be asked for.
    AwaitingStatus,
    /// The length of the log is to be asked for.
    AwaitingLogLength,
    /// The log is to be fetched into a buffer of `capacity` bytes.
    AwaitingLog { capacity: usize },
    /// Nothing is left to ask.
    Done,
}

/// What the driver said to one question.
#[derive(Debug, PartialEq, Eq)]
pub enum Answer {
    /// The status word of the build.
    Status(i32),
    /// The length of the log, terminator included.
    LogLength(i32),
    /// The buffer with the log in it.
    Log(Vec<u8>),
}

/// An answer, as plain values.
pub enum AnswerView {
    /// The status word of the build.
    Status(i32),
    /// The length of the log, terminator included.
    LogLength(i32),
    /// The bytes of the buffer with the log in it.
    Log(Seq<u8>),
}

impl View for Answer {
    type V = AnswerView;

    open spec fn view(&self) -> AnswerView {
        match self {
            Answer::Status(status) => AnswerView::Status(*status),
            Answer::LogLength(reported) => AnswerView::LogLength(*reported),
            Answer::Log(bytes) => AnswerView::Log(bytes@),
        }
    }
}

/// What the driver had to say about one build.
#[derive(Debug, PartialEq, Eq)]
pub struct BuildReport {
    /// The status word.
    pub status: i32,
    /// The log buffer as the driver filled it, terminator included; empty
    /// where no log was fetched.
    pub raw_log: Vec<u8>,
}

/// The questions put to the driver about one build, and its answers so far.
#[derive(Debug, PartialEq, Eq)]
pub struct Inquiry {
    phase: Phase,
    status: i32,
    raw_log: Vec<u8>,
}

/// What an inquiry is, as plain values.
pub struct InquiryView {
    /// The question that is due.
    pub phase: Phase,
    /// The status word, once it was given.
    pub status: i32,
    /// The log buffer, once it was given.
    pub raw_log: Seq<u8>,
}

impl InquiryView {
    /// The inquiry before the first question.
    pub open spec fn start() -> InquiryView {
        InquiryView { phase: Phase::AwaitingStatus, status: 0, raw_log: Seq::empty() }
    }

    /// What holds of every inquiry: the log is asked about only after a
    /// status that reports failure, a buffer to fetch into has room for at
    /// least one byte, and there are log bytes only once all is answered,
    /// and then only for a failed build.
    pub open spec fn well_formed(self) -> bool {
        match self.phase {
            Phase::AwaitingStatus => self.raw_log.len() == 0,
            Phase::AwaitingLogLength => !status_succeeded(self.status) && self.raw_log.len() == 0,
            Phase::AwaitingLog { capacity } => {
                &&& !status_succeeded(self.status)
                &&& self.raw_log.len() == 0
                &&& capacity > 0
            },
            Phase::Done => status_succeeded(self.status) ==> self.raw_log.len() == 0,
        }
    }

    /// How many more answers the inquiry can take at most.
    pub open spec fn questions_left(self) -> nat {
        match self.phase {
            Phase::AwaitingStatus => 3,
            Phase::AwaitingLogLength => 2,
            Phase::AwaitingLog { .. } => 1,
            Phase::Done => 0,
        }
    }

    /// The inquiry after an answer. An answer to the question that is due
    /// moves the inquiry on; any other answer leaves it as it is.
    pub open spec fn advance(self, answer: AnswerView) -> InquiryView {
        match (self.phase, answer) {
            (Phase::AwaitingStatus, AnswerView::Status(status)) => InquiryView {
                phase: if status_succeeded(status) {
                    Phase::Done
                } else {
                    Phase::AwaitingLogLength
                },
                status,
                raw_log: self.raw_log,
            },
            (Phase::AwaitingLogLength, AnswerView::LogLength(reported)) => InquiryView {
                phase: if log_capacity_of(reported) == 0 {
                    Phase::Done
                } else {
                    Phase::AwaitingLog { capacity: log_capacity_of(reported) as usize }
                },
                status: self.status,
                raw_log: self.raw_log,
            },
            (Phase::AwaitingLog { .. }, AnswerView::Log(bytes)) => InquiryView {
                phase: Phase::Done,
                status: self.status,
                raw_log: bytes,
            },
            _ => self,
        }
    }

    /// Whether `answer` is an answer to the question that is due.
    pub open spec fn expects(self, answer: AnswerView) -> bool {
        match (self.phase, answer) {
            (Phase::AwaitingStatus, AnswerView::Status(_)) => true,
            (Phase::AwaitingLogLength, AnswerView::LogLength(_)) => true,
            (Phase::AwaitingLog { .. }, AnswerView::Log(_)) => true,
            _ => false,
        }
    }
}

impl View for Inquiry {
    type V = InquiryView;

    closed spec fn view(&self) -> InquiryView {
        InquiryView { phase: self.phase, status: self.status, raw_log: self.raw_log@ }
    }
}

impl Inquiry {
    #[verifier::type_invariant]
    spec fn in_order(self) -> bool {
        self@.well_formed()
    }

    /// Begins an inquiry: the status is the first thing to ask for.
    pub fn start() -> (inquiry: Self)
        ensures
            inquiry@ == InquiryView::start(),
            inquiry@.well_formed(),
    {
        Inquiry { phase: Phase::AwaitingStatus, status: 0, raw_log: Vec::new() }
    }

    /// The question that is due.
    pub fn phase(&self) -> (phase: Phase)
        ensures
            phase == self@.phase,
            self@.well_formed(),
    {
        proof {
            use_type_invariant(self);
        }
        self.phase
    }

    /// Takes in the driver's answer.
    pub fn advance(self, answer: Answer) -> (next: Self)
        ensures
            next@ == self@.advance(answer@),
            next@.well_formed(),
    {
        proof {
            use_type_invariant(&self);
        }
        match (self.phase, answer) {
            (Phase::AwaitingStatus, Answer::Status(status)) => {
                let phase = if succeeded(status) {
                    Phase::Done
                } else {
                    Phase::AwaitingLogLength
                };
                Inquiry { phase, status, raw_log: self.raw_log }
            },
            (Phase::AwaitingLogLength, Answer::LogLength(reported)) => {
                let capacity = log_capacity(reported);
                let phase = if capacity == 0 {
                    Phase::Done
                } else {
                    Phase::AwaitingLog { capacity }
                };
                Inquiry { phase, status: self.status, raw_log: self.raw_log }
            },
            (Phase::AwaitingLog { .. }, Answer::Log(bytes)) => {
                Inquiry { phase: Phase::Done, status: self.status, raw_log: bytes }
            },
            _ => self,
        }
    }

    /// The driver's report, once nothing is left to ask.
    pub fn finish(self) -> (report: Option<BuildReport>)
        ensures
            match report {
                Some(r) => {
                    &&& self@.phase == Phase::Done
                    &&& r.status == self@.status
                    &&& r.raw_log@ == self@.raw_log
                },
                None => self@.phase != Phase::Done,
            },
    {
        match self.phase {
            Phase::Done => Some(BuildReport { status: self.status, raw_log: self.raw_log }),
            _ => None,
        }
    }
}

/// Every answer leaves an inquiry in order.
pub proof fn lemma_advance_keeps_order(inquiry: InquiryView, answer: AnswerView)
    requires
        inquiry.well_formed(),
    ensures
        inquiry.advance(answer).well_formed(),
{
}

/// An answer to the question that is due brings the end nearer, and any
/// other answer changes nothing: three answers at most end an inquiry.
pub proof fn lemma_answers_run_out(inquiry: InquiryView, answer: AnswerView)
    ensures
        inquiry.expects(answer) ==> inquiry.advance(answer).questions_left()
            < inquiry.questions_left(),
        !inquiry.expects(answer) ==> inquiry.advance(answer) == inquiry,
        inquiry.phase == Phase::Done <==> inquiry.questions_left() == 0,
{
}

/// A build that the driver accepted is asked nothing about its log.
pub proof fn lemma_accepted_build_needs_no_log(status: i32)
    requires
        status_succeeded(status),
    ensures
        InquiryView::start().advance(AnswerView::Status(status)).phase == Phase::Done,
{
}

/// A failed build without a log is never asked to fill a buffer: the
/// inquiry ends with the log's length, and the log stays empty.
pub proof fn lemma_empty_log_is_not_fetched(status: i32, reported: i32)
    requires
        !status_succeeded(status),
        reported <= 0,
    ensures
        ({
            let end = InquiryView::start().advance(AnswerView::Status(status)).advance(
                AnswerView::LogLength(reported),
            );
            end.phase == Phase::Done && end.status == status && end.raw_log.len() == 0
        }),
{
}

} // verus!
