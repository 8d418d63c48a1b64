//! Receipts, and their verification against a context that names the trusted
//! recursion programs.
//!
//! Whether a proof is valid is for the proving backend to say. Verification
//! takes the verdicts of the backend as an argument and decides everything
//! else: whether the control ids are in the allow-list, whether every
//! assumption is resolved, whether the guest halted and whether the claim
//! commits to the journal.

use vstd::prelude::*;
use vstd::string::StringSliceAdditionalSpecFns;
use crate::receipt_claim::{
    Assumption, Assumptions, Digestible, ExitCode, Journal, MaybePruned, Output, ReceiptClaim,
};
use crate::sha::{hash_pair, sha256_of, sha256_pair_of, tagged_struct_of, zero_digest, Digest};

verus! {

/// The root of the Merkle tree in which a leaf stands at the given index,
/// with the given siblings on its way up, the lowest first.
pub open spec fn merkle_root_of(leaf: Seq<u8>, index: nat, siblings: Seq<Seq<u8>>) -> Seq<u8>
    decreases siblings.len(),
{
    if siblings.len() == 0 {
        leaf
    } else if index % 2 == 0 {
        merkle_root_of(sha256_pair_of(leaf, siblings[0]), index / 2, siblings.skip(1))
    } else {
        merkle_root_of(sha256_pair_of(siblings[0], leaf), index / 2, siblings.skip(1))
    }
}

/// A proof that a leaf belongs to a Merkle tree: the index of the leaf and
/// the siblings of the nodes on its way to the root, the lowest first.
#[derive(Clone, Debug, PartialEq, Eq)]
pub struct MerkleProof {
    /// The index of the leaf among the leaves of the tree.
    pub index: u32,
    /// The siblings on the way from the leaf to the root.
    pub digests: Vec<Digest>,
}

impl MerkleProof {
    /// The byte sequences of the siblings.
    pub open spec fn siblings(&self) -> Seq<Seq<u8>> {
        self.digests@.map_values(|d: Digest| d@)
    }

    /// The root to which this proof leads from the given leaf.
    pub open spec fn root_spec(&self, leaf: Seq<u8>) -> Seq<u8> {
        merkle_root_of(leaf, self.index as nat, self.siblings())
    }

    /// Computes the root to which this proof leads from the given leaf.
    pub fn root(&self, leaf: &Digest) -> (root: Digest)
        ensures
            root@ == self.root_spec(leaf@),
    {
        let mut current: Digest = *leaf;
        let mut index: u32 = self.index;
        let mut i: usize = 0;
        assert(self.siblings().skip(0) =~= self.siblings());
        while i < self.digests.len()
            invariant
                i <= self.digests@.len(),
                merkle_root_of(current@, index as nat, self.siblings().skip(i as int))
                    == self.root_spec(leaf@),
            decreases self.digests@.len() - i,
        {
            let sibling: &Digest = &self.digests[i];
            let ghost rest = self.siblings().skip(i as int);
            assert(rest[0] == sibling@);
            assert(rest.skip(1) =~= self.siblings().skip(i + 1));
            current =
            if index % 2 == 0 {
                hash_pair(&current, sibling)
            } else {
                hash_pair(sibling, &current)
            };
            index = index / 2;
            i = i + 1;
        }
        current
    }

    /// Whether this proof leads from the given leaf to the given root.
    pub fn verify(&self, leaf: &Digest, root: &Digest) -> (included: bool)
        ensures
            included == (self.root_spec(leaf@) == root@),
    {
        let computed: Digest = self.root(leaf);
        computed.equals(root)
    }
}

/// What a receipt is verified against: the root of the Merkle tree of the
/// control ids of the trusted recursion programs, and whether receipts
/// without a proof are accepted.
#[derive(Clone, Copy, Debug, PartialEq, Eq)]
pub struct VerifierContext {
    /// The root of the allow-list of control ids.
    pub allowed_ids_root: Digest,
    /// Whether a receipt that holds no proof is accepted.
    pub dev_mode: bool,
}

impl VerifierContext {
    /// A context with the given allow-list root, which accepts no receipt
    /// without a proof.
    pub fn new(allowed_ids_root: Digest) -> (ctx: VerifierContext)
        ensures
            ctx == (VerifierContext { allowed_ids_root, dev_mode: false }),
    {
        VerifierContext { allowed_ids_root, dev_mode: false }
    }

    /// The same context, with the acceptance of receipts without a proof
    /// switched on or off.
    pub fn with_dev_mode(self, dev_mode: bool) -> (ctx: VerifierContext)
        ensures
            ctx == (VerifierContext { allowed_ids_root: self.allowed_ids_root, dev_mode }),
    {
        VerifierContext { allowed_ids_root: self.allowed_ids_root, dev_mode }
    }
}

/// Why a receipt was not accepted.
#[derive(Clone, Copy, Debug, PartialEq, Eq)]
pub enum VerificationError {
    /// The receipt comes from a recursion program that is not trusted: its
    /// control id is not shown to be in the allow-list.
    ControlVerificationError {
        /// The control id that was not accepted.
        control_id: Digest,
    },
    /// The proof in the receipt was rejected.
    InvalidProof,
    /// The claim rests on an assumption that no receipt resolves.
    UnresolvedAssumption,
    /// A receipt that is attached for an assumption proves another claim.
    ClaimDigestMismatch {
        /// The digest of the claim that was assumed.
        expected: Digest,
    },
    /// The journal is not the one that the claim commits to.
    JournalDigestMismatch,
    /// The execution did not halt.
    UnexpectedExitCode,
    /// A part of the receipt that verification must read is missing or
    /// pruned, or the receipt holds more than its claim calls for.
    ReceiptFormatError,
}

impl VerificationError {
    /// Whether the error is a failure of trust: an untrusted recursion
    /// program or a rejected proof.
    pub fn is_trust_error(&self) -> (trust: bool)
        ensures
            trust == (*self is ControlVerificationError || *self is InvalidProof),
    {
        match self {
            VerificationError::ControlVerificationError { .. } => true,
            VerificationError::InvalidProof => true,
            _ => false,
        }
    }
}

/// The proof of one segment, with its claim and the control id of the
/// program that proved it.
#[derive(Clone, Debug, PartialEq, Eq)]
pub struct SegmentReceipt {
    /// The proof, as the backend made it.
    pub seal: Vec<u32>,
    /// The index of the segment in its session.
    pub index: u32,
    /// The control id of the program that proved the segment.
    pub control_id: Digest,
    /// What the proof states.
    pub claim: ReceiptClaim,
}

/// A proof of uniform shape, made by a recursion program, of any claim.
#[derive(Clone, Debug, PartialEq, Eq)]
pub struct SuccinctReceipt {
    /// The proof, as the backend made it.
    pub seal: Vec<u32>,
    /// The control id of the recursion program that made the proof.
    pub control_id: Digest,
    /// The proof that the control id is in the allow-list.
    pub control_inclusion_proof: MerkleProof,
    /// What the proof states.
    pub claim: ReceiptClaim,
}

impl SuccinctReceipt {
    /// Whether the receipt shows that its control id is in the allow-list of
    /// the context.
    pub open spec fn control_id_allowed(&self, ctx: &VerifierContext) -> bool {
        self.control_inclusion_proof.root_spec(self.control_id@) == ctx.allowed_ids_root@
    }

    /// What the check of the receipt alone gives, for a verdict of the
    /// backend on its proof.
    pub open spec fn integrity(&self, ctx: &VerifierContext, seal_valid: bool) -> Result<
        (),
        VerificationError,
    > {
        if !self.control_id_allowed(ctx) {
            Err(VerificationError::ControlVerificationError { control_id: self.control_id })
        } else if !seal_valid {
            Err(VerificationError::InvalidProof)
        } else {
            Ok(())
        }
    }

    /// Checks the receipt alone, given the verdict of the backend on its
    /// proof. A control id outside the allow-list is reported as such,
    /// whatever the verdict; a rejected proof is reported next.
    pub fn verify_integrity(&self, ctx: &VerifierContext, seal_valid: bool) -> (checked: Result<
        (),
        VerificationError,
    >)
        ensures
            checked == self.integrity(ctx, seal_valid),
            checked is Ok <==> self.control_id_allowed(ctx) && seal_valid,
    {
        if !self.control_inclusion_proof.verify(&self.control_id, &ctx.allowed_ids_root) {
            return Err(
                VerificationError::ControlVerificationError { control_id: self.control_id },
            );
        }
        if !seal_valid {
            return Err(VerificationError::InvalidProof);
        }
        Ok(())
    }
}

/// The verdicts of the backend on the proofs that a receipt holds: one on
/// its own proof, and one on the proof of each receipt that is attached for
/// an assumption, in their order. A verdict that is missing counts as a
/// rejection.
#[derive(Clone, Debug, PartialEq, Eq)]
pub struct SealVerdicts {
    /// The verdict on the proof of the receipt itself.
    pub main: bool,
    /// The verdicts on the proofs of the attached receipts.
    pub assumptions: Vec<bool>,
}

impl SealVerdicts {
    /// The verdict on the proof of the attached receipt at the given place.
    pub open spec fn assumption(&self, i: int) -> bool {
        0 <= i < self.assumptions@.len() && self.assumptions@[i]
    }

    /// The verdict on the proof of the attached receipt at the given place.
    pub fn for_assumption(&self, i: usize) -> (valid: bool)
        ensures
            valid == self.assumption(i as int),
    {
        i < self.assumptions.len() && self.assumptions[i]
    }
}

/// A succinct receipt of a claim that rests on assumptions, with a receipt
/// for each of them, in the order of the assumptions.
#[derive(Clone, Debug, PartialEq, Eq)]
pub struct CompositeReceipt {
    /// The receipt of the claim.
    pub receipt: SuccinctReceipt,
    /// The receipts that resolve the assumptions of the claim.
    pub assumptions: Vec<SuccinctReceipt>,
}

impl CompositeReceipt {
    /// Whether the attached receipt at place `i` resolves the assumption
    /// there: it proves the claim that was assumed, and that claim rests on
    /// no assumption itself.
    pub open spec fn assumption_resolved(&self, assumed: Seq<Assumption>, i: int) -> bool {
        &&& self.assumptions@[i].claim.digest_spec() == assumed[i].claim@
        &&& self.assumptions@[i].claim.unconditional_spec()
    }

    /// What the check of the attached receipt at place `i` gives.
    pub open spec fn assumption_check(
        &self,
        ctx: &VerifierContext,
        verdicts: &SealVerdicts,
        assumed: Seq<Assumption>,
        i: int,
    ) -> Result<(), VerificationError> {
        let receipt = self.assumptions@[i];
        if receipt.claim.digest_spec() != assumed[i].claim@ {
            Err(VerificationError::ClaimDigestMismatch { expected: assumed[i].claim })
        } else if !receipt.claim.unconditional_spec() {
            Err(VerificationError::UnresolvedAssumption)
        } else {
            receipt.integrity(ctx, verdicts.assumption(i))
        }
    }

    /// What the checks of the attached receipts from place `i` on give: the
    /// first error among them, if there is one.
    pub open spec fn assumptions_check_from(
        &self,
        ctx: &VerifierContext,
        verdicts: &SealVerdicts,
        assumed: Seq<Assumption>,
        i: int,
    ) -> Result<(), VerificationError>
        decreases self.assumptions@.len() - i,
    {
        if i < 0 || i >= self.assumptions@.len() {
            Ok(())
        } else {
            match self.assumption_check(ctx, verdicts, assumed, i) {
                Err(error) => Err(error),
                Ok(()) => self.assumptions_check_from(ctx, verdicts, assumed, i + 1),
            }
        }
    }

    /// What the check of the receipt gives: the error of its own receipt,
    /// else that of the assumptions as a whole, else the first error among
    /// the attached receipts.
    pub open spec fn integrity(&self, ctx: &VerifierContext, verdicts: &SealVerdicts) -> Result<
        (),
        VerificationError,
    > {
        match self.receipt.integrity(ctx, verdicts.main) {
            Err(error) => Err(error),
            Ok(()) => match self.receipt.claim.assumed_claims() {
                None => Err(VerificationError::ReceiptFormatError),
                Some(assumed) => if assumed.len() > self.assumptions@.len() {
                    Err(VerificationError::UnresolvedAssumption)
                } else if assumed.len() < self.assumptions@.len() {
                    Err(VerificationError::ReceiptFormatError)
                } else {
                    self.assumptions_check_from(ctx, verdicts, assumed, 0)
                },
            },
        }
    }

    /// Whether every control id in the receipt is shown to be in the
    /// allow-list: its own and that of each attached receipt.
    pub open spec fn control_ids_trusted(&self, ctx: &VerifierContext) -> bool {
        &&& self.receipt.control_id_allowed(ctx)
        &&& forall|i: int|
            0 <= i < self.assumptions@.len() ==> (#[trigger] self.assumptions@[i]).control_id_allowed(
                ctx,
            )
    }

    /// Whether every assumption of the claim is resolved: the assumptions
    /// can be read, there is one attached receipt for each, and each
    /// attached receipt resolves the assumption at its place.
    pub open spec fn assumptions_resolved(&self) -> bool {
        &&& self.receipt.claim.assumed_claims() is Some
        &&& self.receipt.claim.assumed_claims()->Some_0.len() == self.assumptions@.len()
        &&& forall|i: int|
            0 <= i < self.assumptions@.len() ==> #[trigger] self.assumption_resolved(
                self.receipt.claim.assumed_claims()->Some_0,
                i,
            )
    }

    /// Whether the backend accepted every proof in the receipt.
    pub open spec fn proofs_valid(&self, verdicts: &SealVerdicts) -> bool {
        &&& verdicts.main
        &&& forall|i: int| 0 <= i < self.assumptions@.len() ==> #[trigger] verdicts.assumption(i)
    }

    /// The checks of the attached receipts from place `i` on succeed exactly
    /// when each of these receipts resolves its assumption, has a trusted
    /// control id and a proof that the backend accepted.
    pub proof fn lemma_assumptions_check(
        &self,
        ctx: &VerifierContext,
        verdicts: &SealVerdicts,
        assumed: Seq<Assumption>,
        i: int,
    )
        requires
            0 <= i <= self.assumptions@.len(),
        ensures
            self.assumptions_check_from(ctx, verdicts, assumed, i) is Ok <==> forall|j: int|
                i <= j < self.assumptions@.len() ==> {
                    &&& #[trigger] self.assumption_resolved(assumed, j)
                    &&& self.assumptions@[j].control_id_allowed(ctx)
                    &&& verdicts.assumption(j)
                },
        decreases self.assumptions@.len() - i,
    {
        if i < self.assumptions@.len() {
            self.lemma_assumptions_check(ctx, verdicts, assumed, i + 1);
            if self.assumptions_check_from(ctx, verdicts, assumed, i) is Ok {
                assert(self.assumption_check(ctx, verdicts, assumed, i) is Ok);
                assert(self.assumptions_check_from(ctx, verdicts, assumed, i + 1) is Ok);
                assert forall|j: int| i <= j < self.assumptions@.len() implies {
                    &&& #[trigger] self.assumption_resolved(assumed, j)
                    &&& self.assumptions@[j].control_id_allowed(ctx)
                    &&& verdicts.assumption(j)
                } by {
                    if j > i {
                        assert(i + 1 <= j);
                    }
                }
            } else {
                if self.assumption_check(ctx, verdicts, assumed, i) is Ok {
                } else {
                    assert(!(self.assumption_resolved(assumed, i) && self.assumptions@[i].control_id_allowed(
                        ctx,
                    ) && verdicts.assumption(i)));
                }
            }
        }
    }

    /// The check succeeds exactly when every control id is trusted, every
    /// assumption is resolved and every proof was accepted.
    pub proof fn lemma_integrity(&self, ctx: &VerifierContext, verdicts: &SealVerdicts)
        ensures
            self.integrity(ctx, verdicts) is Ok <==> self.control_ids_trusted(ctx)
                && self.assumptions_resolved() && self.proofs_valid(verdicts),
    {
        if self.receipt.claim.assumed_claims() is Some {
            let assumed = self.receipt.claim.assumed_claims()->Some_0;
            self.lemma_assumptions_check(ctx, verdicts, assumed, 0);
            if self.control_ids_trusted(ctx) && self.assumptions_resolved() && self.proofs_valid(
                verdicts,
            ) {
                assert forall|j: int| 0 <= j < self.assumptions@.len() implies {
                    &&& #[trigger] self.assumption_resolved(assumed, j)
                    &&& self.assumptions@[j].control_id_allowed(ctx)
                    &&& verdicts.assumption(j)
                } by {}
            }
            if self.integrity(ctx, verdicts) is Ok {
                assert forall|i: int| 0 <= i < self.assumptions@.len() implies (
                #[trigger] self.assumptions@[i]).control_id_allowed(ctx) by {
                    assert(self.assumption_resolved(assumed, i));
                }
                assert forall|i: int| 0 <= i < self.assumptions@.len() implies #[trigger] verdicts.assumption(
                    i,
                ) by {
                    assert(self.assumption_resolved(assumed, i));
                }
            }
        }
    }

    /// Checks the receipt, given the verdicts of the backend on its proofs:
    /// first the receipt of the claim, then that there is one attached
    /// receipt for each assumption, then each attached receipt in order.
    pub fn verify_integrity(&self, ctx: &VerifierContext, verdicts: &SealVerdicts) -> (checked:
        Result<(), VerificationError>)
        ensures
            checked == self.integrity(ctx, verdicts),
            checked is Ok <==> self.control_ids_trusted(ctx) && self.assumptions_resolved()
                && self.proofs_valid(verdicts),
    {
        proof {
            self.lemma_integrity(ctx, verdicts);
        }
        match self.receipt.verify_integrity(ctx, verdicts.main) {
            Ok(()) => {},
            Err(error) => {
                return Err(error);
            },
        }
        let assumed: Vec<Assumption> = match self.receipt.claim.assumed() {
            Some(assumed) => assumed,
            None => {
                return Err(VerificationError::ReceiptFormatError);
            },
        };
        if assumed.len() > self.assumptions.len() {
            return Err(VerificationError::UnresolvedAssumption);
        }
        if assumed.len() < self.assumptions.len() {
            return Err(VerificationError::ReceiptFormatError);
        }
        let mut i: usize = 0;
        while i < self.assumptions.len()
            invariant
                i <= self.assumptions@.len(),
                assumed@.len() == self.assumptions@.len(),
                self.assumptions_check_from(ctx, verdicts, assumed@, i as int)
                    == self.integrity(ctx, verdicts),
                self.integrity(ctx, verdicts) is Ok <==> self.control_ids_trusted(ctx)
                    && self.assumptions_resolved() && self.proofs_valid(verdicts),
            decreases self.assumptions@.len() - i,
        {
            let receipt: &SuccinctReceipt = &self.assumptions[i];
            let digest: Digest = receipt.claim.digest();
            if !digest.equals(&assumed[i].claim) {
                return Err(VerificationError::ClaimDigestMismatch { expected: assumed[i].claim });
            }
            if !receipt.claim.is_unconditional() {
                return Err(VerificationError::UnresolvedAssumption);
            }
            match receipt.verify_integrity(ctx, verdicts.for_assumption(i)) {
                Ok(()) => {},
                Err(error) => {
                    return Err(error);
                },
            }
            i = i + 1;
        }
        Ok(())
    }
}

/// A succinct receipt wrapped into a proof of constant size. It can be
/// verified, and neither unwrapped nor joined.
#[derive(Clone, Debug, PartialEq, Eq)]
pub struct Groth16Receipt {
    /// The proof, as the backend made it.
    pub seal: Vec<u8>,
    /// What the proof states.
    pub claim: ReceiptClaim,
}

/// The proof that a receipt holds, in one of its forms.
#[derive(Clone, Debug, PartialEq, Eq)]
pub enum InnerReceipt {
    /// A succinct receipt with the receipts of its assumptions.
    Composite(CompositeReceipt),
    /// A succinct receipt.
    Succinct(SuccinctReceipt),
    /// A wrapped receipt of constant size.
    Groth16(Groth16Receipt),
    /// No proof at all: accepted in dev mode only.
    Fake {
        /// What the receipt states, without proof.
        claim: ReceiptClaim,
    },
}

impl InnerReceipt {
    /// The claim of the receipt.
    pub open spec fn claim_spec(&self) -> ReceiptClaim {
        match self {
            InnerReceipt::Composite(composite) => composite.receipt.claim,
            InnerReceipt::Succinct(succinct) => succinct.claim,
            InnerReceipt::Groth16(groth16) => groth16.claim,
            InnerReceipt::Fake { claim } => *claim,
        }
    }

    /// The claim of the receipt.
    pub fn claim(&self) -> (claim: &ReceiptClaim)
        ensures
            *claim == self.claim_spec(),
    {
        match self {
            InnerReceipt::Composite(composite) => &composite.receipt.claim,
            InnerReceipt::Succinct(succinct) => &succinct.claim,
            InnerReceipt::Groth16(groth16) => &groth16.claim,
            InnerReceipt::Fake { claim } => claim,
        }
    }

    /// What the check of the proof gives, by the form of the receipt.
    pub open spec fn integrity(&self, ctx: &VerifierContext, verdicts: &SealVerdicts) -> Result<
        (),
        VerificationError,
    > {
        match self {
            InnerReceipt::Composite(composite) => composite.integrity(ctx, verdicts),
            InnerReceipt::Succinct(succinct) => succinct.integrity(ctx, verdicts.main),
            InnerReceipt::Groth16(_) => if verdicts.main {
                Ok(())
            } else {
                Err(VerificationError::InvalidProof)
            },
            InnerReceipt::Fake { .. } => if ctx.dev_mode {
                Ok(())
            } else {
                Err(VerificationError::InvalidProof)
            },
        }
    }

    /// Whether every control id in the receipt is shown to be in the
    /// allow-list. A wrapped receipt and one without proof hold none.
    pub open spec fn control_ids_trusted(&self, ctx: &VerifierContext) -> bool {
        match self {
            InnerReceipt::Composite(composite) => composite.control_ids_trusted(ctx),
            InnerReceipt::Succinct(succinct) => succinct.control_id_allowed(ctx),
            InnerReceipt::Groth16(_) => true,
            InnerReceipt::Fake { .. } => true,
        }
    }

    /// Whether every proof in the receipt validates: the backend accepted
    /// each of them, and a receipt without proof counts in dev mode only.
    pub open spec fn proofs_valid(&self, ctx: &VerifierContext, verdicts: &SealVerdicts) -> bool {
        match self {
            InnerReceipt::Composite(composite) => composite.proofs_valid(verdicts),
            InnerReceipt::Succinct(_) => verdicts.main,
            InnerReceipt::Groth16(_) => verdicts.main,
            InnerReceipt::Fake { .. } => ctx.dev_mode,
        }
    }

    /// Whether every assumption of the claim is resolved. In a composite
    /// receipt the attached receipts resolve them. Any other receipt must
    /// hold a claim without assumptions; where its output was pruned, the
    /// comparison of the output digest with the journal decides.
    pub open spec fn assumptions_resolved(&self) -> bool {
        match self {
            InnerReceipt::Composite(composite) => composite.assumptions_resolved(),
            _ => match self.claim_spec().output {
                MaybePruned::Value(Some(output)) => output.assumptions.digest_spec()
                    == zero_digest(),
                _ => true,
            },
        }
    }

    /// Checks the proof of the receipt, given the verdicts of the backend,
    /// in the way that its form calls for.
    pub fn verify_integrity(&self, ctx: &VerifierContext, verdicts: &SealVerdicts) -> (checked:
        Result<(), VerificationError>)
        ensures
            checked == self.integrity(ctx, verdicts),
            !(self is Composite) ==> (checked is Ok <==> self.control_ids_trusted(ctx)
                && self.proofs_valid(ctx, verdicts)),
            self is Composite ==> (checked is Ok <==> self.control_ids_trusted(ctx)
                && self.assumptions_resolved() && self.proofs_valid(ctx, verdicts)),
    {
        match self {
            InnerReceipt::Composite(composite) => composite.verify_integrity(ctx, verdicts),
            InnerReceipt::Succinct(succinct) => succinct.verify_integrity(ctx, verdicts.main),
            InnerReceipt::Groth16(_) => if verdicts.main {
                Ok(())
            } else {
                Err(VerificationError::InvalidProof)
            },
            InnerReceipt::Fake { .. } => if ctx.dev_mode {
                Ok(())
            } else {
                Err(VerificationError::InvalidProof)
            },
        }
    }
}

/// The digest of the output that commits to a journal with the given digest
/// and to no assumption.
pub open spec fn output_digest_of(journal_digest: Seq<u8>) -> Seq<u8> {
    tagged_struct_of(
        "risc0.Output".spec_bytes(),
        seq![journal_digest, zero_digest()],
        Seq::empty(),
    )
}

/// A proof together with the journal that it commits to: what is handed to
/// whoever wants to check the execution.
#[derive(Clone, Debug, PartialEq, Eq)]
pub struct Receipt {
    /// The public output of the guest.
    pub journal: Journal,
    /// The proof.
    pub inner: InnerReceipt,
}

impl Receipt {
    /// Whether the claim commits to the journal of the receipt: its output
    /// holds a journal with the digest of this one, or, where the output was
    /// pruned, is the digest of the output with this journal and no
    /// assumption.
    pub open spec fn journal_committed(&self) -> bool {
        match self.inner.claim_spec().output {
            MaybePruned::Pruned(digest) => digest@ == output_digest_of(
                sha256_of(self.journal.bytes@),
            ),
            MaybePruned::Value(None) => false,
            MaybePruned::Value(Some(output)) => output.journal.digest_spec() == sha256_of(
                self.journal.bytes@,
            ),
        }
    }

    /// Whether the claim states that the guest halted.
    pub open spec fn halted(&self) -> bool {
        self.inner.claim_spec().exit_code is Halted
    }

    /// What the check of the claim against the journal gives, once the proof
    /// is accepted.
    pub open spec fn claim_check(&self) -> Result<(), VerificationError> {
        if !self.halted() {
            Err(VerificationError::UnexpectedExitCode)
        } else if !self.inner.assumptions_resolved() {
            Err(VerificationError::UnresolvedAssumption)
        } else if !self.journal_committed() {
            Err(VerificationError::JournalDigestMismatch)
        } else {
            Ok(())
        }
    }

    /// What verification gives: the error of the proof, if it has one, else
    /// that of the claim.
    pub open spec fn verdict(&self, ctx: &VerifierContext, verdicts: &SealVerdicts) -> Result<
        (),
        VerificationError,
    > {
        match self.inner.integrity(ctx, verdicts) {
            Err(error) => Err(error),
            Ok(()) => self.claim_check(),
        }
    }

    /// Whether the receipt is accepted: every control id in it is trusted,
    /// every assumption is resolved, every proof validates, the guest
    /// halted, and the claim commits to the journal.
    pub open spec fn accepted(&self, ctx: &VerifierContext, verdicts: &SealVerdicts) -> bool {
        &&& self.inner.control_ids_trusted(ctx)
        &&& self.inner.assumptions_resolved()
        &&& self.inner.proofs_valid(ctx, verdicts)
        &&& self.halted()
        &&& self.journal_committed()
    }

    /// Verifies the receipt against the context, given the verdicts of the
    /// backend on the proofs that it holds. The proof is checked first, so a
    /// control id outside the allow-list is reported as such; then the exit
    /// code, the assumptions and the journal.
    pub fn verify(&self, ctx: &VerifierContext, verdicts: &SealVerdicts) -> (checked: Result<
        (),
        VerificationError,
    >)
        ensures
            checked == self.verdict(ctx, verdicts),
            checked is Ok <==> self.accepted(ctx, verdicts),
    {
        match self.inner.verify_integrity(ctx, verdicts) {
            Ok(()) => {},
            Err(error) => {
                return Err(error);
            },
        }
        let claim: &ReceiptClaim = self.inner.claim();
        match claim.exit_code {
            ExitCode::Halted(_) => {},
            _ => {
                return Err(VerificationError::UnexpectedExitCode);
            },
        }
        let journal_digest: Digest = self.journal.digest();
        match &claim.output {
            MaybePruned::Pruned(digest) => {
                let none: Assumptions = Assumptions::new();
                assert(none.claims() =~= Seq::<Seq<u8>>::empty());
                let expected: Digest = Output {
                    journal: MaybePruned::Pruned(journal_digest),
                    assumptions: MaybePruned::Value(none),
                }.digest();
                if !digest.equals(&expected) {
                    return Err(VerificationError::JournalDigestMismatch);
                }
            },
            MaybePruned::Value(None) => {
                return Err(VerificationError::JournalDigestMismatch);
            },
            MaybePruned::Value(Some(output)) => {
                let composite: bool = match &self.inner {
                    InnerReceipt::Composite(_) => true,
                    _ => false,
                };
                if !composite {
                    let assumptions: Digest = output.assumptions.digest();
                    if !assumptions.equals(&Digest::zero()) {
                        return Err(VerificationError::UnresolvedAssumption);
                    }
                }
                let committed: Digest = output.journal.digest();
                if !committed.equals(&journal_digest) {
                    return Err(VerificationError::JournalDigestMismatch);
                }
            },
        }
        Ok(())
    }
}

/// A receipt is accepted exactly when every control id in it is within the
/// allow-list, every assumption is resolved and every proof validates:
/// this holds of the receipts whose claim states a halt and commits to the
/// journal.
pub proof fn lemma_verify_iff_trusted_resolved_valid(
    receipt: Receipt,
    ctx: VerifierContext,
    verdicts: SealVerdicts,
)
    requires
        receipt.halted(),
        receipt.journal_committed(),
    ensures
        receipt.verdict(&ctx, &verdicts) is Ok <==> receipt.inner.control_ids_trusted(&ctx)
            && receipt.inner.assumptions_resolved() && receipt.inner.proofs_valid(&ctx, &verdicts),
{
    if let InnerReceipt::Composite(composite) = receipt.inner {
        composite.lemma_integrity(&ctx, &verdicts);
    }
}

/// A receipt with another journal is rejected: where a receipt is accepted
/// and the journal is replaced by one that the hashes tell apart from it,
/// verification fails, and says that the journal does not match.
pub proof fn lemma_tampered_journal_rejected(
    receipt: Receipt,
    tampered: Receipt,
    ctx: VerifierContext,
    verdicts: SealVerdicts,
)
    requires
        receipt.verdict(&ctx, &verdicts) is Ok,
        tampered.inner == receipt.inner,
        sha256_of(tampered.journal.bytes@) != sha256_of(receipt.journal.bytes@),
        output_digest_of(sha256_of(tampered.journal.bytes@)) != output_digest_of(
            sha256_of(receipt.journal.bytes@),
        ),
    ensures
        tampered.verdict(&ctx, &verdicts) == Err::<(), VerificationError>(
            VerificationError::JournalDigestMismatch,
        ),
{
}

/// A succinct or composite receipt whose control id is not shown to be in
/// the allow-list is rejected with the error that names this control id, a
/// failure of trust, whatever else holds of the receipt.
pub proof fn lemma_untrusted_control_id_rejected(
    receipt: Receipt,
    ctx: VerifierContext,
    verdicts: SealVerdicts,
)
    requires
        match receipt.inner {
            InnerReceipt::Composite(composite) => !composite.receipt.control_id_allowed(&ctx),
            InnerReceipt::Succinct(succinct) => !succinct.control_id_allowed(&ctx),
            _ => false,
        },
    ensures
        receipt.verdict(&ctx, &verdicts) is Err,
        receipt.verdict(&ctx, &verdicts)->Err_0 is ControlVerificationError,
        match receipt.inner {
            InnerReceipt::Composite(composite) => receipt.verdict(&ctx, &verdicts)->Err_0
                == (VerificationError::ControlVerificationError {
                control_id: composite.receipt.control_id,
            }),
            InnerReceipt::Succinct(succinct) => receipt.verdict(&ctx, &verdicts)->Err_0
                == (VerificationError::ControlVerificationError { control_id: succinct.control_id }),
            _ => true,
        },
{
}

} // verus!
