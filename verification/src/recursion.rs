//! Composition of receipts: lifting the receipt of a segment into the uniform
//! form, joining two receipts of adjacent executions, resolving an assumption
//! and wrapping the result.
//!
//! The proofs themselves come from the recursion programs of the backend.
//! Each operation here decides whether the composition is sound on the claims,
//! computes the claim of the result, and accepts the proof that the backend
//! made only where it states that claim.

use vstd::prelude::*;
use crate::receipt::{Groth16Receipt, MerkleProof, SegmentReceipt, SuccinctReceipt};
use crate::receipt_claim::{Digestible, JoinError, ReceiptClaim, ResolveError};
use crate::sha::{digest_of, lemma_digest_of_view, Digest};

verus! {

/// What a run of a recursion program gave back: the proof, the control id of
/// the program with the proof that it is in the allow-list, and the digest of
/// the claim that the proof states.
#[derive(Clone, Debug, PartialEq, Eq)]
pub struct RecursionOutput {
    /// The proof.
    pub seal: Vec<u32>,
    /// The control id of the recursion program that ran.
    pub control_id: Digest,
    /// The proof that the control id is in the allow-list.
    pub control_inclusion_proof: MerkleProof,
    /// The digest of the claim that the proof states.
    pub claim_digest: Digest,
}

/// Why receipts could not be composed.
#[derive(Clone, Copy, Debug, PartialEq, Eq)]
pub enum CompositionError {
    /// The second execution does not begin where the first ends.
    StateMismatch(JoinError),
    /// The assumption cannot be resolved with the receipt that was offered.
    AssumptionMismatch(ResolveError),
    /// The proof of the backend states another claim than the composition
    /// gives.
    ClaimMismatch {
        /// The digest of the claim of the composition.
        expected: Digest,
        /// The digest of the claim that the proof states.
        proven: Digest,
    },
}

impl CompositionError {
    /// Whether the error reports that the inputs do not fit together, as
    /// opposed to a proof that states the wrong claim.
    pub fn is_consistency_error(&self) -> (consistency: bool)
        ensures
            consistency == self.consistency(),
    {
        match self {
            CompositionError::StateMismatch(_) => true,
            CompositionError::AssumptionMismatch(_) => true,
            CompositionError::ClaimMismatch { .. } => false,
        }
    }
}

impl CompositionError {
    /// Whether the error reports that the inputs do not fit together.
    pub open spec fn consistency(self) -> bool {
        self is StateMismatch || self is AssumptionMismatch
    }
}

/// The receipt of the given claim with the proof of the backend, where that
/// proof states this claim; else the error with the two digests.
pub open spec fn seal_result(claim: ReceiptClaim, proof: RecursionOutput) -> Result<
    SuccinctReceipt,
    CompositionError,
> {
    if proof.claim_digest@ == claim.digest_spec() {
        Ok(
            SuccinctReceipt {
                seal: proof.seal,
                control_id: proof.control_id,
                control_inclusion_proof: proof.control_inclusion_proof,
                claim,
            },
        )
    } else {
        Err(
            CompositionError::ClaimMismatch {
                expected: digest_of(claim.digest_spec()),
                proven: proof.claim_digest,
            },
        )
    }
}

/// What lifting the receipt of a segment gives: the receipt of the same
/// claim with the proof of the lift program.
pub open spec fn lift_result(segment: SegmentReceipt, proof: RecursionOutput) -> Result<
    SuccinctReceipt,
    CompositionError,
> {
    seal_result(segment.claim, proof)
}

/// What joining two receipts gives: the state mismatch where the second
/// does not go on where the first ends, whatever the proof; else the receipt
/// of the joined claim with the proof of the join program.
pub open spec fn join_result(
    first: SuccinctReceipt,
    second: SuccinctReceipt,
    proof: RecursionOutput,
) -> Result<SuccinctReceipt, CompositionError> {
    match first.claim.join_result(&second.claim) {
        Ok(claim) => seal_result(claim, proof),
        Err(error) => Err(CompositionError::StateMismatch(error)),
    }
}

/// Puts the proof of the backend on the claim that a composition gave,
/// where that proof states this claim.
fn seal_claim(claim: ReceiptClaim, proof: RecursionOutput) -> (sealed: Result<
    SuccinctReceipt,
    CompositionError,
>)
    ensures
        sealed == seal_result(claim, proof),
{
    let expected: Digest = claim.digest();
    if !expected.equals(&proof.claim_digest) {
        proof {
            lemma_digest_of_view(expected);
        }
        return Err(CompositionError::ClaimMismatch { expected, proven: proof.claim_digest });
    }
    Ok(
        SuccinctReceipt {
            seal: proof.seal,
            control_id: proof.control_id,
            control_inclusion_proof: proof.control_inclusion_proof,
            claim,
        },
    )
}

/// Lifts the receipt of a segment into the uniform form: the result states
/// the claim of the segment and holds the proof that the lift program made,
/// where that proof states this claim.
pub fn lift(segment: SegmentReceipt, proof: RecursionOutput) -> (lifted: Result<
    SuccinctReceipt,
    CompositionError,
>)
    ensures
        lifted == lift_result(segment, proof),
        lifted is Ok <==> proof.claim_digest@ == segment.claim.digest_spec(),
        lifted is Ok ==> lifted->Ok_0.claim == segment.claim,
{
    seal_claim(segment.claim, proof)
}

/// Joins the receipts of two executions, the second of which goes on where
/// the first ends, into a receipt of the whole. Where the state after the
/// first is not the state before the second, the join fails with the state
/// mismatch, whatever the backend gave. Otherwise the result states the
/// joined claim and holds the proof that the join program made, where that
/// proof states this claim.
pub fn join(first: SuccinctReceipt, second: SuccinctReceipt, proof: RecursionOutput) -> (joined:
    Result<SuccinctReceipt, CompositionError>)
    ensures
        joined == join_result(first, second, proof),
        joined is Ok <==> first.claim.joinable(&second.claim) && proof.claim_digest@
            == first.claim.joined(&second.claim).digest_spec(),
        joined is Ok ==> joined->Ok_0.claim == first.claim.joined(&second.claim),
{
    match first.claim.join(second.claim) {
        Ok(claim) => seal_claim(claim, proof),
        Err(error) => Err(CompositionError::StateMismatch(error)),
    }
}

/// Two lifted segments with a gap between them cannot be joined: where the
/// digest of the state after the first segment is not the digest of the
/// state before the second, joining their lifted receipts fails with the
/// state mismatch, an error of consistency, whatever proofs the backend
/// gave.
pub proof fn lemma_join_rejects_gap(
    first: SegmentReceipt,
    second: SegmentReceipt,
    first_lift: RecursionOutput,
    second_lift: RecursionOutput,
    join_proof: RecursionOutput,
)
    requires
        first.claim.post.digest_spec() != second.claim.pre.digest_spec(),
        lift_result(first, first_lift) is Ok,
        lift_result(second, second_lift) is Ok,
    ensures
        join_result(
            lift_result(first, first_lift)->Ok_0,
            lift_result(second, second_lift)->Ok_0,
            join_proof,
        ) is Err,
        join_result(
            lift_result(first, first_lift)->Ok_0,
            lift_result(second, second_lift)->Ok_0,
            join_proof,
        )->Err_0 is StateMismatch,
        join_result(
            lift_result(first, first_lift)->Ok_0,
            lift_result(second, second_lift)->Ok_0,
            join_proof,
        )->Err_0.consistency(),
{
}

/// Joining three receipts from the left and from the right gives receipts
/// of the same claim, so of the same claim digest, whatever proofs the
/// backend gave for the steps.
pub proof fn lemma_join_order(
    a: SuccinctReceipt,
    b: SuccinctReceipt,
    c: SuccinctReceipt,
    ab_proof: RecursionOutput,
    bc_proof: RecursionOutput,
    left_proof: RecursionOutput,
    right_proof: RecursionOutput,
)
    requires
        join_result(a, b, ab_proof) is Ok,
        join_result(join_result(a, b, ab_proof)->Ok_0, c, left_proof) is Ok,
        join_result(b, c, bc_proof) is Ok,
        join_result(a, join_result(b, c, bc_proof)->Ok_0, right_proof) is Ok,
    ensures
        join_result(join_result(a, b, ab_proof)->Ok_0, c, left_proof)->Ok_0.claim == join_result(
            a,
            join_result(b, c, bc_proof)->Ok_0,
            right_proof,
        )->Ok_0.claim,
        join_result(join_result(a, b, ab_proof)->Ok_0, c, left_proof)->Ok_0.claim.digest_spec()
            == join_result(
            a,
            join_result(b, c, bc_proof)->Ok_0,
            right_proof,
        )->Ok_0.claim.digest_spec(),
{
}

/// Resolves the first assumption of a conditional receipt with the receipt
/// that proves the assumed claim. Where the claim of that receipt is not the
/// one assumed, or there is no assumption to resolve, the operation fails
/// with the error of the claims, whatever the backend gave and whether or
/// not the receipt that was offered is valid. Otherwise the result states
/// the claim without this assumption and holds the proof that the resolve
/// program made, where that proof states this claim.
pub fn resolve(conditional: SuccinctReceipt, assumption: &SuccinctReceipt, proof: RecursionOutput) -> (resolved:
    Result<SuccinctReceipt, CompositionError>)
    ensures
        match conditional.claim.resolve_error(assumption.claim.digest_spec()) {
            Some(error) => resolved == Err::<SuccinctReceipt, CompositionError>(
                CompositionError::AssumptionMismatch(error),
            ),
            None => if proof.claim_digest@ == conditional.claim.resolved_digest() {
                &&& resolved is Ok
                &&& resolved->Ok_0.claim.head_resolved_from(&conditional.claim)
                &&& resolved->Ok_0.seal == proof.seal
                &&& resolved->Ok_0.control_id == proof.control_id
                &&& resolved->Ok_0.control_inclusion_proof == proof.control_inclusion_proof
            } else {
                resolved is Err && resolved->Err_0 is ClaimMismatch
            },
        },
{
    let digest: Digest = assumption.claim.digest();
    match conditional.claim.resolve(&digest) {
        Ok(claim) => seal_claim(claim, proof),
        Err(error) => Err(CompositionError::AssumptionMismatch(error)),
    }
}

/// Wraps a succinct receipt into a receipt of constant size, with the proof
/// that the backend made for it. The wrapped receipt states the same claim.
pub fn wrap(receipt: SuccinctReceipt, seal: Vec<u8>) -> (wrapped: Groth16Receipt)
    ensures
        wrapped == (Groth16Receipt { seal, claim: receipt.claim }),
{
    Groth16Receipt { seal, claim: receipt.claim }
}

} // verus!
