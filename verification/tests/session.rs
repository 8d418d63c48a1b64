use risc0_zkvm::prove::{BackendFailure, RetryDecision, RetryPolicy};
use risc0_zkvm::receipt_claim::{
    Assumptions, Digestible, ExitCode, Journal, MaybePruned, Output, SystemState,
};
use risc0_zkvm::session::{
    CycleLimitError, Segment, SegmentAction, SegmentRangeError, SegmentRef, Segmenter, Session,
    SessionError,
};
use risc0_zkvm::sha::Digest;

fn state(pc: u32, root: u8) -> SystemState {
    SystemState { pc, merkle_root: Digest::new([root; 32]) }
}

fn segment(index: u32, exit_code: ExitCode) -> Segment {
    Segment {
        index,
        pre_state: state(index * 10, index as u8),
        post_state: state(index * 10 + 10, index as u8 + 1),
        exit_code,
        cycles: 100 + index as u64,
    }
}

fn session(n: u32) -> Session {
    let mut segments = Vec::new();
    for index in 0..n {
        let exit_code = if index + 1 == n { ExitCode::Halted(0) } else { ExitCode::SystemSplit };
        segments.push(segment(index, exit_code));
    }
    Session { segments, journal: Some(Journal { bytes: vec![4, 2] }), exit_code: ExitCode::Halted(0) }
}

#[test]
fn sound_sessions_pass_the_check() {
    for n in 1..5 {
        assert_eq!(session(n).check(1000), Ok(()));
    }
    assert_eq!(session(3).check(102), Ok(()));
}

#[test]
fn session_without_segments_is_refused() {
    assert_eq!(session(0).check(1000), Err(SessionError::Empty));
}

#[test]
fn session_with_a_gap_between_segments_is_refused() {
    let mut s = session(3);
    s.segments[2].pre_state.pc += 4;
    assert_eq!(s.check(1000), Err(SessionError::StateMismatch { position: 1 }));
    let mut s = session(3);
    s.segments[1].pre_state.merkle_root = Digest::new([77; 32]);
    assert_eq!(s.check(1000), Err(SessionError::StateMismatch { position: 0 }));
}

#[test]
fn session_with_a_wrong_index_is_refused() {
    let mut s = session(3);
    s.segments[1].index = 2;
    assert_eq!(s.check(1000), Err(SessionError::IndexMismatch { position: 1 }));
}

#[test]
fn session_with_a_long_segment_is_refused() {
    assert_eq!(session(3).check(101), Err(SessionError::SegmentTooLong { position: 2 }));
    assert_eq!(session(3).check(99), Err(SessionError::SegmentTooLong { position: 0 }));
}

#[test]
fn session_that_goes_on_after_a_halt_is_refused() {
    let mut s = session(3);
    s.segments[0].exit_code = ExitCode::Halted(0);
    assert_eq!(s.check(1000), Err(SessionError::UnexpectedExit { position: 0 }));
}

#[test]
fn session_that_ends_otherwise_than_its_last_segment_is_refused() {
    let mut s = session(3);
    s.exit_code = ExitCode::Paused(0);
    assert_eq!(s.check(1000), Err(SessionError::ExitCodeMismatch));
    let mut s = session(1);
    s.segments[0].exit_code = ExitCode::SystemSplit;
    assert_eq!(s.check(1000), Err(SessionError::ExitCodeMismatch));
}

#[test]
fn session_check_reports_the_first_error() {
    let mut s = session(3);
    s.segments[0].cycles = 5000;
    s.segments[1].index = 9;
    s.exit_code = ExitCode::Fault;
    assert_eq!(s.check(1000), Err(SessionError::SegmentTooLong { position: 0 }));
}

#[test]
fn session_claim_spans_the_run() {
    let claim = session(3).claim();
    assert_eq!(claim.pre, MaybePruned::Value(state(0, 0)));
    assert_eq!(claim.post, MaybePruned::Value(state(30, 3)));
    assert_eq!(claim.exit_code, ExitCode::Halted(0));
    assert_eq!(claim.input, Digest::zero());
    assert_eq!(
        claim.output,
        MaybePruned::Value(Some(Output {
            journal: MaybePruned::Value(Journal { bytes: vec![4, 2] }),
            assumptions: MaybePruned::Value(Assumptions::new()),
        }))
    );
    let mut silent = session(2);
    silent.journal = None;
    assert_eq!(silent.claim().output, MaybePruned::Value(None));
}

#[test]
fn session_claim_is_the_join_of_its_segment_claims() {
    let s = session(3);
    let output = Some(Output {
        journal: MaybePruned::Value(Journal { bytes: vec![4, 2] }),
        assumptions: MaybePruned::Value(Assumptions::new()),
    });
    let a = s.segments[0].claim(None);
    let b = s.segments[1].claim(None);
    let c = s.segments[2].claim(output);
    let joined = a.join(b).unwrap().join(c).unwrap();
    let whole = s.claim();
    assert_eq!(joined, whole);
    assert_eq!(joined.digest(), whole.digest());
}

#[test]
fn segment_receipt_is_tagged_with_the_control_id() {
    let s = segment(4, ExitCode::SystemSplit);
    let receipt = s.receipt(vec![1, 2], Digest::new([5; 32]), None);
    assert_eq!(receipt.seal, vec![1, 2]);
    assert_eq!(receipt.index, 4);
    assert_eq!(receipt.control_id, Digest::new([5; 32]));
    assert_eq!(receipt.claim, s.claim(None));
    assert_eq!(receipt.claim.exit_code, ExitCode::SystemSplit);
}

#[test]
fn system_states_are_compared_by_counter_and_image() {
    assert!(state(1, 2).equals(&state(1, 2)));
    assert!(!state(1, 2).equals(&state(2, 2)));
    assert!(!state(1, 2).equals(&state(1, 3)));
}

#[test]
fn segmenter_splits_where_the_limit_would_be_passed() {
    let mut segmenter = Segmenter::new(10);
    let costs = [4u64, 4, 2, 1, 10, 3, 7, 1];
    let expected = [
        (SegmentAction::Continue, 4u64),
        (SegmentAction::Continue, 8),
        (SegmentAction::Continue, 10),
        (SegmentAction::Split, 1),
        (SegmentAction::Split, 10),
        (SegmentAction::Split, 3),
        (SegmentAction::Continue, 10),
        (SegmentAction::Split, 1),
    ];
    for (cost, (action, used)) in costs.iter().zip(expected.iter()) {
        assert_eq!(segmenter.step(*cost), Ok(*action));
        assert_eq!(segmenter.used, *used);
        assert_eq!(segmenter.limit, 10);
    }
}

#[test]
fn segmenter_refuses_a_step_longer_than_a_segment() {
    let mut segmenter = Segmenter::new(10);
    assert_eq!(segmenter.step(6), Ok(SegmentAction::Continue));
    assert_eq!(segmenter.step(11), Err(CycleLimitError { cost: 11, limit: 10 }));
    assert_eq!(segmenter, Segmenter { limit: 10, used: 6 });
    let mut wide = Segmenter::new(u64::MAX);
    assert_eq!(wide.step(u64::MAX), Ok(SegmentAction::Continue));
    assert_eq!(wide.step(1), Ok(SegmentAction::Split));
    assert_eq!(wide.used, 1);
}

fn policy() -> RetryPolicy {
    RetryPolicy { max_attempts: 5, base_delay_ms: 100, max_delay_ms: 1000 }
}

#[test]
fn transient_failures_are_retried_with_doubling_waits() {
    let waits = [100u64, 200, 400, 800];
    for (i, wait) in waits.iter().enumerate() {
        let attempts = i as u32 + 1;
        assert_eq!(
            policy().decide(attempts, BackendFailure::Timeout),
            RetryDecision::Retry { delay_ms: *wait }
        );
        assert_eq!(
            policy().decide(attempts, BackendFailure::ResourceExhausted),
            RetryDecision::Retry { delay_ms: *wait }
        );
    }
    assert_eq!(policy().decide(0, BackendFailure::Timeout), RetryDecision::Retry { delay_ms: 100 });
}

#[test]
fn waits_stop_at_the_longest_wait() {
    let long = RetryPolicy { max_attempts: 100, base_delay_ms: 100, max_delay_ms: 1000 };
    assert_eq!(long.delay(4), 800);
    assert_eq!(long.delay(5), 1000);
    assert_eq!(long.delay(70), 1000);
    let steep = RetryPolicy { max_attempts: 100, base_delay_ms: 5000, max_delay_ms: 1000 };
    assert_eq!(steep.delay(1), 1000);
    let huge = RetryPolicy { max_attempts: 100, base_delay_ms: 3, max_delay_ms: u64::MAX };
    assert_eq!(huge.delay(63), 3 << 62);
    assert_eq!(huge.delay(64), u64::MAX);
    assert_eq!(huge.delay(u32::MAX), u64::MAX);
    let still = RetryPolicy { max_attempts: 100, base_delay_ms: 0, max_delay_ms: 1000 };
    assert_eq!(still.delay(9), 0);
}

#[test]
fn attempts_are_bounded() {
    assert_eq!(policy().decide(5, BackendFailure::Timeout), RetryDecision::GiveUp);
    assert_eq!(policy().decide(6, BackendFailure::ResourceExhausted), RetryDecision::GiveUp);
    let never = RetryPolicy { max_attempts: 0, base_delay_ms: 1, max_delay_ms: 1 };
    assert_eq!(never.decide(0, BackendFailure::Timeout), RetryDecision::GiveUp);
}

#[test]
fn failed_proofs_are_not_retried() {
    assert_eq!(policy().decide(1, BackendFailure::ProofFailed), RetryDecision::GiveUp);
    assert!(BackendFailure::Timeout.is_transient());
    assert!(BackendFailure::ResourceExhausted.is_transient());
    assert!(!BackendFailure::ProofFailed.is_transient());
}

#[test]
fn segment_in_memory_resolves_to_its_data() {
    let reference = SegmentRef::Memory(vec![1, 2, 3]);
    assert_eq!(reference.resolve(&vec![]), Ok(vec![1, 2, 3]));
    assert_eq!(reference.resolve(&vec![9, 9]), Ok(vec![1, 2, 3]));
    assert_eq!(SegmentRef::Memory(vec![]).resolve(&vec![9]), Ok(vec![]));
}

#[test]
fn segment_in_a_file_resolves_to_its_range() {
    let content: Vec<u8> = (0..10).collect();
    let range = |offset: u64, len: u64| SegmentRef::File { path: "segments".to_string(), offset, len };
    assert_eq!(range(0, 10).resolve(&content), Ok(content.clone()));
    assert_eq!(range(2, 3).resolve(&content), Ok(vec![2, 3, 4]));
    assert_eq!(range(10, 0).resolve(&content), Ok(vec![]));
    assert_eq!(range(9, 1).resolve(&content), Ok(vec![9]));
}

#[test]
fn segment_range_outside_the_file_is_refused() {
    let content: Vec<u8> = (0..10).collect();
    let range = |offset: u64, len: u64| SegmentRef::File { path: "segments".to_string(), offset, len };
    assert_eq!(
        range(9, 2).resolve(&content),
        Err(SegmentRangeError { offset: 9, len: 2, size: 10 })
    );
    assert_eq!(
        range(11, 0).resolve(&content),
        Err(SegmentRangeError { offset: 11, len: 0, size: 10 })
    );
    assert_eq!(
        range(u64::MAX, u64::MAX).resolve(&content),
        Err(SegmentRangeError { offset: u64::MAX, len: u64::MAX, size: 10 })
    );
}
