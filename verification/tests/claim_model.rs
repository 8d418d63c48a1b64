use risc0_zkvm::align_up;
use risc0_zkvm::receipt_claim::{
    Assumption, Assumptions, ClaimField, Digestible, ExitCode, InvalidExitCodeError, Journal,
    MaybePruned, Output, PrunedValueError, ReceiptClaim, ResolveError, SystemState,
};
use risc0_zkvm::sha::Digest;
use sha2::Digest as _;

fn sha256(bytes: &[u8]) -> [u8; 32] {
    sha2::Sha256::digest(bytes).into()
}

fn digest_of(byte: u8) -> Digest {
    Digest::new([byte; 32])
}

fn tagged(tag: &str, down: &[[u8; 32]], data: &[u32]) -> [u8; 32] {
    let mut all: Vec<u8> = Vec::new();
    all.extend_from_slice(&sha256(tag.as_bytes()));
    for digest in down {
        all.extend_from_slice(digest);
    }
    for word in data {
        all.extend_from_slice(&word.to_le_bytes());
    }
    all.extend_from_slice(&(down.len() as u16).to_le_bytes());
    sha256(&all)
}

fn state(pc: u32, root: u8) -> SystemState {
    SystemState { pc, merkle_root: digest_of(root) }
}

fn claim(pre: SystemState, post: SystemState, exit_code: ExitCode) -> ReceiptClaim {
    ReceiptClaim {
        pre: MaybePruned::Value(pre),
        post: MaybePruned::Value(post),
        exit_code,
        input: Digest::zero(),
        output: MaybePruned::Value(None),
    }
}

#[test]
fn align_up_rounds_to_the_next_multiple() {
    assert_eq!(align_up(0, 4), 0);
    assert_eq!(align_up(1, 4), 4);
    assert_eq!(align_up(4, 4), 4);
    assert_eq!(align_up(5, 4), 8);
    assert_eq!(align_up(1023, 1024), 1024);
    assert_eq!(align_up(1025, 1024), 2048);
    assert_eq!(align_up(17, 1), 17);
    assert_eq!(align_up(usize::MAX - 7, 8), usize::MAX - 7);
}

#[test]
fn journal_digest_is_sha256_of_its_bytes() {
    let journal = Journal { bytes: b"abc".to_vec() };
    let expected: [u8; 32] = [
        0xba, 0x78, 0x16, 0xbf, 0x8f, 0x01, 0xcf, 0xea, 0x41, 0x41, 0x40, 0xde, 0x5d, 0xae, 0x22,
        0x23, 0xb0, 0x03, 0x61, 0xa3, 0x96, 0x17, 0x7a, 0x9c, 0xb4, 0x10, 0xff, 0x61, 0xf2, 0x00,
        0x15, 0xad,
    ];
    assert_eq!(journal.digest(), Digest::new(expected));
    assert_ne!(journal.digest(), Digest::new(sha256(b"abd")));
}

#[test]
fn system_state_digest_is_the_tagged_struct() {
    let s = state(0x0020_0800, 7);
    let expected = tagged("risc0.SystemState", &[[7u8; 32]], &[0x0020_0800]);
    assert_eq!(s.digest(), Digest::new(expected));
    assert_ne!(s.digest(), s.merkle_root);
}

#[test]
fn assumptions_digest_is_the_tagged_list() {
    let empty = Assumptions::new();
    assert_eq!(empty.digest(), Digest::zero());
    let mut list = Assumptions::new();
    list.add(Assumption { claim: digest_of(1) });
    list.add(Assumption { claim: digest_of(2) });
    let tail = tagged("risc0.Assumptions", &[[2u8; 32], [0u8; 32]], &[]);
    let whole = tagged("risc0.Assumptions", &[[1u8; 32], tail], &[]);
    assert_eq!(list.digest(), Digest::new(whole));
}

#[test]
fn assumptions_digest_depends_on_order() {
    let mut ab = Assumptions::new();
    ab.add(Assumption { claim: digest_of(1) });
    ab.add(Assumption { claim: digest_of(2) });
    let mut ba = Assumptions::new();
    ba.add(Assumption { claim: digest_of(2) });
    ba.add(Assumption { claim: digest_of(1) });
    assert_ne!(ab.digest(), ba.digest());
}

#[test]
fn claim_digest_is_the_tagged_struct_of_its_parts() {
    let c = ReceiptClaim {
        pre: MaybePruned::Value(state(4, 1)),
        post: MaybePruned::Pruned(digest_of(9)),
        exit_code: ExitCode::Paused(3),
        input: digest_of(5),
        output: MaybePruned::Value(None),
    };
    let pre = tagged("risc0.SystemState", &[[1u8; 32]], &[4]);
    let expected = tagged("risc0.ReceiptClaim", &[[5u8; 32], pre, [9u8; 32], [0u8; 32]], &[1, 3]);
    assert_eq!(c.digest(), Digest::new(expected));
}

#[test]
fn output_digest_is_the_tagged_struct_of_journal_and_assumptions() {
    let output = Output {
        journal: MaybePruned::Value(Journal { bytes: vec![1, 2, 3] }),
        assumptions: MaybePruned::Value(Assumptions::new()),
    };
    let expected = tagged("risc0.Output", &[sha256(&[1, 2, 3]), [0u8; 32]], &[]);
    assert_eq!(output.digest(), Digest::new(expected));
}

#[test]
fn pruning_keeps_the_digest() {
    let journal = MaybePruned::Value(Journal { bytes: vec![9, 8, 7] });
    let pruned = journal.prune();
    assert!(pruned.is_pruned());
    assert!(!journal.is_pruned());
    assert_eq!(pruned.digest(), journal.digest());

    let full = ReceiptClaim::ok(digest_of(3), Journal { bytes: vec![1, 2] });
    let mut slim = full.clone();
    slim.output = slim.output.prune();
    slim.post = slim.post.prune();
    assert_ne!(slim, full);
    assert_eq!(slim.digest(), full.digest());
}

#[test]
fn pruned_value_access_names_the_field() {
    let pruned: MaybePruned<Journal> = MaybePruned::Pruned(digest_of(4));
    assert_eq!(
        pruned.as_value(ClaimField::Journal),
        Err(PrunedValueError { field: ClaimField::Journal, digest: digest_of(4) })
    );
    assert_eq!(
        pruned.value(ClaimField::Journal),
        Err(PrunedValueError { field: ClaimField::Journal, digest: digest_of(4) })
    );
    let kept = MaybePruned::Value(Journal { bytes: vec![1] });
    assert_eq!(kept.as_value(ClaimField::Journal), Ok(&Journal { bytes: vec![1] }));
    assert_eq!(kept.value(ClaimField::Journal), Ok(Journal { bytes: vec![1] }));
}

#[test]
fn exit_code_pairs_round_trip() {
    let codes = [
        ExitCode::Halted(0),
        ExitCode::Halted(255),
        ExitCode::Paused(0),
        ExitCode::Paused(7),
        ExitCode::SystemSplit,
        ExitCode::Fault,
    ];
    for code in codes {
        let (sys, user) = code.into_pair();
        assert_eq!(ExitCode::from_pair(sys, user), Ok(code));
    }
    assert_eq!(ExitCode::Halted(5).into_pair(), (0, 5));
    assert_eq!(ExitCode::Paused(6).into_pair(), (1, 6));
    assert_eq!(ExitCode::SystemSplit.into_pair(), (2, 0));
    assert_eq!(ExitCode::Fault.into_pair(), (2, 1));
}

#[test]
fn unknown_exit_code_pairs_are_rejected() {
    assert_eq!(
        ExitCode::from_pair(3, 0),
        Err(InvalidExitCodeError { sys_exit: 3, user_exit: 0 })
    );
    assert_eq!(
        ExitCode::from_pair(2, 2),
        Err(InvalidExitCodeError { sys_exit: 2, user_exit: 2 })
    );
    assert_eq!(
        ExitCode::from_pair(u32::MAX, u32::MAX),
        Err(InvalidExitCodeError { sys_exit: u32::MAX, user_exit: u32::MAX })
    );
}

#[test]
fn exit_code_output_and_success() {
    assert!(ExitCode::Halted(1).expects_output());
    assert!(ExitCode::Paused(0).expects_output());
    assert!(!ExitCode::SystemSplit.expects_output());
    assert!(!ExitCode::Fault.expects_output());
    assert!(ExitCode::Halted(0).is_ok());
    assert!(ExitCode::Paused(0).is_ok());
    assert!(ExitCode::SystemSplit.is_ok());
    assert!(!ExitCode::Halted(1).is_ok());
    assert!(!ExitCode::Paused(2).is_ok());
    assert!(!ExitCode::Fault.is_ok());
}

#[test]
fn join_of_adjacent_claims_spans_both() {
    let a = claim(state(0, 1), state(10, 2), ExitCode::SystemSplit);
    let b = claim(state(10, 2), state(20, 3), ExitCode::Halted(0));
    let joined = a.clone().join(b.clone()).unwrap();
    assert_eq!(joined.pre, a.pre);
    assert_eq!(joined.post, b.post);
    assert_eq!(joined.exit_code, ExitCode::Halted(0));
    assert_eq!(joined.input, a.input);
    assert_eq!(joined.output, b.output);
}

#[test]
fn join_of_claims_that_do_not_meet_fails() {
    let a = claim(state(0, 1), state(10, 2), ExitCode::SystemSplit);
    let b = claim(state(11, 2), state(20, 3), ExitCode::Halted(0));
    let error = a.clone().join(b.clone()).unwrap_err();
    assert_eq!(error.post, a.post.digest());
    assert_eq!(error.pre, b.pre.digest());
}

#[test]
fn join_meets_on_digests_of_pruned_states() {
    let a = claim(state(0, 1), state(10, 2), ExitCode::SystemSplit);
    let mut b = claim(state(10, 2), state(20, 3), ExitCode::Halted(0));
    b.pre = b.pre.prune();
    assert!(a.join(b).is_ok());
}

#[test]
fn join_is_associative() {
    let a = claim(state(0, 1), state(10, 2), ExitCode::SystemSplit);
    let b = claim(state(10, 2), state(20, 3), ExitCode::SystemSplit);
    let c = claim(state(20, 3), state(30, 4), ExitCode::Halted(0));
    let left = a.clone().join(b.clone()).unwrap().join(c.clone()).unwrap();
    let right = a.join(b.join(c).unwrap()).unwrap();
    assert_eq!(left, right);
    assert_eq!(left.digest(), right.digest());
}

#[test]
fn ok_claim_has_the_expected_parts() {
    let c = ReceiptClaim::ok(digest_of(3), Journal { bytes: vec![1, 2] });
    assert_eq!(c.pre, MaybePruned::Pruned(digest_of(3)));
    assert_eq!(c.post, MaybePruned::Value(SystemState { pc: 0, merkle_root: Digest::zero() }));
    assert_eq!(c.exit_code, ExitCode::Halted(0));
    assert_eq!(c.input, Digest::zero());
    assert_eq!(
        c.output,
        MaybePruned::Value(Some(Output {
            journal: MaybePruned::Value(Journal { bytes: vec![1, 2] }),
            assumptions: MaybePruned::Value(Assumptions::new()),
        }))
    );
}

fn conditional(assumed: &[u8]) -> ReceiptClaim {
    let mut list = Assumptions::new();
    for byte in assumed {
        list.add(Assumption { claim: digest_of(*byte) });
    }
    let mut c = ReceiptClaim::ok(digest_of(3), Journal { bytes: vec![1] });
    c.output = MaybePruned::Value(Some(Output {
        journal: MaybePruned::Value(Journal { bytes: vec![1] }),
        assumptions: MaybePruned::Value(list),
    }));
    c
}

#[test]
fn resolve_removes_the_first_assumption() {
    let c = conditional(&[5, 6]);
    let resolved = c.clone().resolve(&digest_of(5)).unwrap();
    assert_eq!(resolved, conditional(&[6]));
    let done = resolved.resolve(&digest_of(6)).unwrap();
    assert_eq!(done, conditional(&[]));
}

#[test]
fn resolve_with_another_claim_is_a_mismatch() {
    let c = conditional(&[5, 6]);
    assert_eq!(
        c.resolve(&digest_of(6)),
        Err(ResolveError::Mismatch { expected: digest_of(5) })
    );
}

#[test]
fn resolve_without_assumptions_fails() {
    assert_eq!(conditional(&[]).resolve(&digest_of(5)), Err(ResolveError::NoAssumption));
    let bare = claim(state(0, 1), state(10, 2), ExitCode::SystemSplit);
    assert_eq!(bare.resolve(&digest_of(5)), Err(ResolveError::NoOutput));
}

#[test]
fn resolve_on_pruned_parts_fails() {
    let mut c = conditional(&[5]);
    let digest = c.output.digest();
    c.output = c.output.prune();
    assert_eq!(
        c.resolve(&digest_of(5)),
        Err(ResolveError::Pruned(PrunedValueError { field: ClaimField::Output, digest }))
    );
    let mut c = conditional(&[5]);
    c.output = MaybePruned::Value(Some(Output {
        journal: MaybePruned::Value(Journal { bytes: vec![1] }),
        assumptions: MaybePruned::Pruned(digest_of(8)),
    }));
    assert_eq!(
        c.resolve(&digest_of(5)),
        Err(ResolveError::Pruned(PrunedValueError {
            field: ClaimField::Assumptions,
            digest: digest_of(8)
        }))
    );
}

#[test]
fn assumptions_resolve_leaves_the_list_on_failure() {
    let mut list = Assumptions::new();
    assert_eq!(list.resolve(&digest_of(1)), Err(ResolveError::NoAssumption));
    list.add(Assumption { claim: digest_of(1) });
    list.add(Assumption { claim: digest_of(2) });
    assert_eq!(
        list.resolve(&digest_of(2)),
        Err(ResolveError::Mismatch { expected: digest_of(1) })
    );
    assert_eq!(list.len(), 2);
    assert_eq!(list.resolve(&digest_of(1)), Ok(()));
    assert_eq!(list.len(), 1);
    assert!(!list.is_empty());
    assert_eq!(list.list[0], Assumption { claim: digest_of(2) });
}
