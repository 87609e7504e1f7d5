use cube_renderer::inquiry::{Answer, BuildReport, Inquiry, Phase};

#[test]
fn inquiry_starts_with_the_status() {
    let inquiry = Inquiry::start();
    assert_eq!(inquiry.phase(), Phase::AwaitingStatus);
    assert_eq!(inquiry.finish(), None);
}

#[test]
fn accepted_build_is_done_after_the_status() {
    let inquiry = Inquiry::start().advance(Answer::Status(1));
    assert_eq!(inquiry.phase(), Phase::Done);
    assert_eq!(inquiry.finish(), Some(BuildReport { status: 1, raw_log: Vec::new() }));
}

#[test]
fn refused_build_is_asked_for_its_log() {
    let inquiry = Inquiry::start().advance(Answer::Status(0));
    assert_eq!(inquiry.phase(), Phase::AwaitingLogLength);
    let inquiry = inquiry.advance(Answer::LogLength(6));
    assert_eq!(inquiry.phase(), Phase::AwaitingLog { capacity: 6 });
    let inquiry = inquiry.advance(Answer::Log(b"error\0".to_vec()));
    assert_eq!(inquiry.phase(), Phase::Done);
    assert_eq!(
        inquiry.finish(),
        Some(BuildReport { status: 0, raw_log: b"error\0".to_vec() })
    );
}

#[test]
fn refused_build_without_a_log_fetches_nothing() {
    let inquiry = Inquiry::start().advance(Answer::Status(0)).advance(Answer::LogLength(0));
    assert_eq!(inquiry.phase(), Phase::Done);
    assert_eq!(inquiry.finish(), Some(BuildReport { status: 0, raw_log: Vec::new() }));
    let inquiry = Inquiry::start().advance(Answer::Status(-7)).advance(Answer::LogLength(-1));
    assert_eq!(inquiry.finish(), Some(BuildReport { status: -7, raw_log: Vec::new() }));
}

#[test]
fn answer_to_another_question_changes_nothing() {
    let inquiry = Inquiry::start().advance(Answer::LogLength(5));
    assert_eq!(inquiry, Inquiry::start());
    let inquiry = Inquiry::start().advance(Answer::Log(vec![1, 2, 3]));
    assert_eq!(inquiry, Inquiry::start());
    let waiting = Inquiry::start().advance(Answer::Status(0));
    let still = Inquiry::start().advance(Answer::Status(0)).advance(Answer::Status(1));
    assert_eq!(still, waiting);
    let still = Inquiry::start().advance(Answer::Status(0)).advance(Answer::Log(vec![7]));
    assert_eq!(still, waiting);
}

#[test]
fn finished_inquiry_takes_no_more_answers() {
    let done = Inquiry::start().advance(Answer::Status(1));
    let after = done.advance(Answer::Status(0));
    assert_eq!(after.phase(), Phase::Done);
    assert_eq!(after.finish(), Some(BuildReport { status: 1, raw_log: Vec::new() }));
    let done = Inquiry::start()
        .advance(Answer::Status(0))
        .advance(Answer::LogLength(2))
        .advance(Answer::Log(vec![b'x', 0]))
        .advance(Answer::Log(vec![b'y', 0]));
    assert_eq!(done.finish(), Some(BuildReport { status: 0, raw_log: vec![b'x', 0] }));
}

#[test]
fn unfinished_inquiry_has_no_report() {
    assert_eq!(Inquiry::start().advance(Answer::Status(0)).finish(), None);
    assert_eq!(
        Inquiry::start().advance(Answer::Status(0)).advance(Answer::LogLength(3)).finish(),
        None
    );
}
