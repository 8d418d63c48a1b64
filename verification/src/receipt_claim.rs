//! The claim model: what a receipt states was proven, in a form whose parts
//! can be replaced by their digests without changing the digest of the whole.

use vstd::prelude::*;
use vstd::string::StringSliceAdditionalSpecFns;
use crate::sha::{
    digest_of, digests_view, hash_bytes, lemma_digest_of_view, tagged_list, tagged_list_of, tagged_struct, tagged_struct_of,
    zero_digest, Digest,
};

verus! {

/// A value with a digest that commits to it.
pub trait Digestible {
    /// The bytes of the digest of this value.
    spec fn digest_spec(&self) -> Seq<u8>;

    /// Computes the digest of this value.
    fn digest(&self) -> (digest: Digest)
        ensures
            digest@ == self.digest_spec(),
    ;
}

/// How a segment or a session ended.
#[derive(Clone, Copy, Debug, PartialEq, Eq, Structural)]
pub enum ExitCode {
    /// The guest ended normally, with the given user code.
    Halted(u32),
    /// The guest asked to be paused, with the given user code.
    Paused(u32),
    /// The system split the execution here; the next segment goes on.
    SystemSplit,
    /// The execution ended in a fault.
    Fault,
}

/// A pair of system and user exit codes that stands for no [`ExitCode`].
#[derive(Clone, Copy, Debug, PartialEq, Eq, Structural)]
pub struct InvalidExitCodeError {
    /// The system part of the rejected pair.
    pub sys_exit: u32,
    /// The user part of the rejected pair.
    pub user_exit: u32,
}

impl ExitCode {
    /// The pair of system and user exit codes that stands for this exit code.
    pub open spec fn pair_of(self) -> (u32, u32) {
        match self {
            ExitCode::Halted(user_exit) => (0u32, user_exit),
            ExitCode::Paused(user_exit) => (1u32, user_exit),
            ExitCode::SystemSplit => (2u32, 0u32),
            ExitCode::Fault => (2u32, 1u32),
        }
    }

    /// Whether a pair of system and user exit codes stands for an exit code.
    pub open spec fn valid_pair(sys_exit: u32, user_exit: u32) -> bool {
        sys_exit == 0 || sys_exit == 1 || (sys_exit == 2 && user_exit <= 1)
    }

    /// Encodes the exit code as a pair of system and user exit codes.
    pub fn into_pair(self) -> (pair: (u32, u32))
        ensures
            pair == self.pair_of(),
            Self::valid_pair(pair.0, pair.1),
    {
        match self {
            ExitCode::Halted(user_exit) => (0, user_exit),
            ExitCode::Paused(user_exit) => (1, user_exit),
            ExitCode::SystemSplit => (2, 0),
            ExitCode::Fault => (2, 1),
        }
    }

    /// Decodes a pair of system and user exit codes. A pair that stands for
    /// no exit code is rejected, and the error holds the pair.
    pub fn from_pair(sys_exit: u32, user_exit: u32) -> (decoded: Result<
        ExitCode,
        InvalidExitCodeError,
    >)
        ensures
            decoded is Ok <==> Self::valid_pair(sys_exit, user_exit),
            decoded is Ok ==> decoded->Ok_0.pair_of() == (sys_exit, user_exit),
            decoded is Err ==> decoded->Err_0 == (InvalidExitCodeError { sys_exit, user_exit }),
    {
        if sys_exit == 0 {
            Ok(ExitCode::Halted(user_exit))
        } else if sys_exit == 1 {
            Ok(ExitCode::Paused(user_exit))
        } else if sys_exit == 2 && user_exit == 0 {
            Ok(ExitCode::SystemSplit)
        } else if sys_exit == 2 && user_exit == 1 {
            Ok(ExitCode::Fault)
        } else {
            Err(InvalidExitCodeError { sys_exit, user_exit })
        }
    }

    /// Whether an execution that ends with this exit code commits an output.
    pub open spec fn output_expected(self) -> bool {
        self is Halted || self is Paused
    }

    /// Whether an execution that ends with this exit code commits an output:
    /// one does when the guest halted or paused, and only then.
    pub fn expects_output(&self) -> (expected: bool)
        ensures
            expected == self.output_expected(),
    {
        match self {
            ExitCode::Halted(_) => true,
            ExitCode::Paused(_) => true,
            _ => false,
        }
    }

    /// Whether the exit code reports success: a halt or a pause with user
    /// code zero, or a split made by the system.
    pub fn is_ok(&self) -> (ok: bool)
        ensures
            ok == (*self == ExitCode::Halted(0) || *self == ExitCode::Paused(0) || *self
                == ExitCode::SystemSplit),
    {
        match self {
            ExitCode::Halted(code) => *code == 0,
            ExitCode::Paused(code) => *code == 0,
            ExitCode::SystemSplit => true,
            ExitCode::Fault => false,
        }
    }
}

/// Every exit code is decoded again from the pair that encodes it, so two
/// exit codes with the same pair are the same.
pub proof fn lemma_exit_code_pair_injective(a: ExitCode, b: ExitCode)
    requires
        a.pair_of() == b.pair_of(),
    ensures
        a == b,
{
}

/// The public state of the machine at a segment boundary.
#[derive(Clone, Copy, Debug, PartialEq, Eq)]
pub struct SystemState {
    /// The program counter.
    pub pc: u32,
    /// The root of the Merkle tree over the memory image.
    pub merkle_root: Digest,
}

impl Digestible for SystemState {
    open spec fn digest_spec(&self) -> Seq<u8> {
        tagged_struct_of("risc0.SystemState".spec_bytes(), seq![self.merkle_root@], seq![self.pc])
    }

    fn digest(&self) -> (digest: Digest) {
        let down: Vec<Digest> = vec![self.merkle_root];
        let data: Vec<u32> = vec![self.pc];
        assert(down@ =~= seq![self.merkle_root]);
        assert(data@ =~= seq![self.pc]);
        assert(crate::sha::digests_view(down@) =~= seq![self.merkle_root@]);
        tagged_struct("risc0.SystemState", &down, &data)
    }
}

/// The public output of a guest, as the bytes that it committed.
#[derive(Clone, Debug, PartialEq, Eq)]
pub struct Journal {
    /// The bytes that the guest committed.
    pub bytes: Vec<u8>,
}

impl Digestible for Journal {
    open spec fn digest_spec(&self) -> Seq<u8> {
        crate::sha::sha256_of(self.bytes@)
    }

    fn digest(&self) -> (digest: Digest) {
        hash_bytes(self.bytes.as_slice())
    }
}

impl<T: Digestible> Digestible for Option<T> {
    open spec fn digest_spec(&self) -> Seq<u8> {
        match self {
            Some(value) => value.digest_spec(),
            None => zero_digest(),
        }
    }

    fn digest(&self) -> (digest: Digest) {
        match self {
            Some(value) => value.digest(),
            None => Digest::zero(),
        }
    }
}

/// The field of a claim that an access was made to.
#[derive(Clone, Copy, Debug, PartialEq, Eq, Structural)]
pub enum ClaimField {
    /// The state before the execution.
    Pre,
    /// The state after the execution.
    Post,
    /// The output of the execution.
    Output,
    /// The journal in the output.
    Journal,
    /// The assumptions in the output.
    Assumptions,
}

/// An access to a value of which only the digest was kept.
#[derive(Clone, Copy, Debug, PartialEq, Eq)]
pub struct PrunedValueError {
    /// The field that was asked for.
    pub field: ClaimField,
    /// The digest that stands in the place of the value.
    pub digest: Digest,
}

/// Either a value, or the digest that commits to it.
#[derive(Clone, Copy, Debug, PartialEq, Eq)]
pub enum MaybePruned<T> {
    /// The value itself.
    Value(T),
    /// The digest of a value that was not kept.
    Pruned(Digest),
}

impl<T: Digestible> Digestible for MaybePruned<T> {
    open spec fn digest_spec(&self) -> Seq<u8> {
        match self {
            MaybePruned::Value(value) => value.digest_spec(),
            MaybePruned::Pruned(digest) => digest@,
        }
    }

    fn digest(&self) -> (digest: Digest) {
        match self {
            MaybePruned::Value(value) => value.digest(),
            MaybePruned::Pruned(digest) => *digest,
        }
    }
}

impl<T: Digestible> MaybePruned<T> {
    /// The pruned form of this value: its digest alone. The digest of the
    /// pruned form is the digest of the value.
    pub fn prune(&self) -> (pruned: MaybePruned<T>)
        ensures
            pruned is Pruned,
            pruned->Pruned_0@ == self.digest_spec(),
            pruned.digest_spec() == self.digest_spec(),
    {
        MaybePruned::Pruned(self.digest())
    }

    /// Whether only the digest was kept.
    pub fn is_pruned(&self) -> (pruned: bool)
        ensures
            pruned == (self is Pruned),
    {
        match self {
            MaybePruned::Value(_) => false,
            MaybePruned::Pruned(_) => true,
        }
    }

    /// The value, where it was kept. Where it was not, the error names the
    /// field that the caller asked for and holds the digest.
    pub fn as_value(&self, field: ClaimField) -> (value: Result<&T, PrunedValueError>)
        ensures
            match *self {
                MaybePruned::Value(kept) => value == Ok::<&T, PrunedValueError>(&kept),
                MaybePruned::Pruned(digest) => value == Err::<&T, PrunedValueError>(
                    PrunedValueError { field, digest },
                ),
            },
    {
        match self {
            MaybePruned::Value(kept) => Ok(kept),
            MaybePruned::Pruned(digest) => Err(PrunedValueError { field, digest: *digest }),
        }
    }

    /// The value, where it was kept, taken out of its wrapping. Where it was
    /// not, the error names the field that the caller asked for and holds the
    /// digest.
    pub fn value(self, field: ClaimField) -> (value: Result<T, PrunedValueError>)
        ensures
            match self {
                MaybePruned::Value(kept) => value == Ok::<T, PrunedValueError>(kept),
                MaybePruned::Pruned(digest) => value == Err::<T, PrunedValueError>(
                    PrunedValueError { field, digest },
                ),
            },
    {
        match self {
            MaybePruned::Value(kept) => Ok(kept),
            MaybePruned::Pruned(digest) => Err(PrunedValueError { field, digest }),
        }
    }
}

/// Pruning keeps the digest: whatever the value, the digest of its pruned
/// form is the digest of the value itself.
pub proof fn lemma_prune_keeps_digest<T: Digestible>(value: MaybePruned<T>, digest: Digest)
    requires
        digest@ == value.digest_spec(),
    ensures
        MaybePruned::<T>::Pruned(digest).digest_spec() == value.digest_spec(),
{
}

/// A claim that a guest relied upon without proving it, named by the digest
/// of that claim.
#[derive(Clone, Copy, Debug, PartialEq, Eq)]
pub struct Assumption {
    /// The digest of the claim that was assumed.
    pub claim: Digest,
}

/// The assumptions of a claim, in the order in which they were made. The
/// order is part of what the digest commits to.
#[derive(Clone, Debug, PartialEq, Eq)]
pub struct Assumptions {
    /// The assumptions, the first one made at the head.
    pub list: Vec<Assumption>,
}

/// Why an assumption could not be resolved.
#[derive(Clone, Copy, Debug, PartialEq, Eq)]
pub enum ResolveError {
    /// The claim has no output, so it holds no assumptions.
    NoOutput,
    /// No assumption is left to resolve.
    NoAssumption,
    /// The claim that was offered is not the one at the head of the list.
    Mismatch {
        /// The digest of the assumption at the head of the list.
        expected: Digest,
    },
    /// The output or its assumptions were pruned.
    Pruned(PrunedValueError),
}

impl Assumptions {
    /// The digests of the assumed claims, in order.
    pub open spec fn claims(&self) -> Seq<Seq<u8>> {
        self.list@.map_values(|a: Assumption| a.claim@)
    }

    /// No assumptions.
    pub fn new() -> (assumptions: Assumptions)
        ensures
            assumptions.list@ == Seq::<Assumption>::empty(),
    {
        Assumptions { list: Vec::new() }
    }

    /// The number of assumptions.
    pub fn len(&self) -> (len: usize)
        ensures
            len == self.list@.len(),
    {
        self.list.len()
    }

    /// Whether there is no assumption.
    pub fn is_empty(&self) -> (empty: bool)
        ensures
            empty == (self.list@.len() == 0),
    {
        self.list.len() == 0
    }

    /// Adds an assumption behind those already made.
    pub fn add(&mut self, assumption: Assumption)
        ensures
            final(self).list@ == old(self).list@.push(assumption),
    {
        self.list.push(assumption);
    }

    /// Resolves the assumption at the head of the list: where the digest of
    /// the claim that is offered is the one assumed there, the head leaves
    /// the list. Otherwise the list stays as it is and the error says why.
    pub fn resolve(&mut self, resolved: &Digest) -> (done: Result<(), ResolveError>)
        ensures
            old(self).list@.len() == 0 ==> done == Err::<(), ResolveError>(
                ResolveError::NoAssumption,
            ) && *final(self) == *old(self),
            old(self).list@.len() > 0 && old(self).list@[0].claim@ != resolved@ ==> done == Err::<
                (),
                ResolveError,
            >(ResolveError::Mismatch { expected: old(self).list@[0].claim }) && *final(self)
                == *old(self),
            old(self).list@.len() > 0 && old(self).list@[0].claim@ == resolved@ ==> done is Ok
                && final(self).list@ == old(self).list@.skip(1),
    {
        if self.list.len() == 0 {
            return Err(ResolveError::NoAssumption);
        }
        let head: Digest = self.list[0].claim;
        if !head.equals(resolved) {
            return Err(ResolveError::Mismatch { expected: head });
        }
        self.list.remove(0);
        assert(self.list@ =~= old(self).list@.skip(1));
        Ok(())
    }
}

impl Digestible for Assumptions {
    open spec fn digest_spec(&self) -> Seq<u8> {
        tagged_list_of("risc0.Assumptions".spec_bytes(), self.claims())
    }

    fn digest(&self) -> (digest: Digest) {
        let mut claims: Vec<Digest> = Vec::new();
        let mut i: usize = 0;
        while i < self.list.len()
            invariant
                i <= self.list@.len(),
                claims@.len() == i,
                forall|j: int| 0 <= j < i ==> claims@[j] == self.list@[j].claim,
            decreases self.list@.len() - i,
        {
            claims.push(self.list[i].claim);
            i = i + 1;
        }
        assert(digests_view(claims@) =~= self.claims());
        tagged_list("risc0.Assumptions", &claims)
    }
}

/// What a guest committed: its journal and the assumptions that it made.
#[derive(Clone, Debug, PartialEq, Eq)]
pub struct Output {
    /// The journal that the guest committed.
    pub journal: MaybePruned<Journal>,
    /// The assumptions on which the guest relied.
    pub assumptions: MaybePruned<Assumptions>,
}

impl Digestible for Output {
    open spec fn digest_spec(&self) -> Seq<u8> {
        tagged_struct_of(
            "risc0.Output".spec_bytes(),
            seq![self.journal.digest_spec(), self.assumptions.digest_spec()],
            Seq::empty(),
        )
    }

    fn digest(&self) -> (digest: Digest) {
        let journal: Digest = self.journal.digest();
        let assumptions: Digest = self.assumptions.digest();
        let down: Vec<Digest> = vec![journal, assumptions];
        let data: Vec<u32> = Vec::new();
        assert(down@ =~= seq![journal, assumptions]);
        assert(digests_view(down@) =~= seq![
            self.journal.digest_spec(),
            self.assumptions.digest_spec(),
        ]);
        tagged_struct("risc0.Output", &down, &data)
    }
}

/// Why two claims could not be joined: the state in which the first ends is
/// not the state in which the second begins.
#[derive(Clone, Copy, Debug, PartialEq, Eq)]
pub struct JoinError {
    /// The digest of the state after the first claim.
    pub post: Digest,
    /// The digest of the state before the second claim.
    pub pre: Digest,
}

/// The claim of a receipt: the execution that it states was proven.
#[derive(Clone, Debug, PartialEq, Eq)]
pub struct ReceiptClaim {
    /// The state of the machine before the execution.
    pub pre: MaybePruned<SystemState>,
    /// The state of the machine after the execution.
    pub post: MaybePruned<SystemState>,
    /// How the execution ended.
    pub exit_code: ExitCode,
    /// The digest of the input of the guest.
    pub input: Digest,
    /// What the guest committed, if it committed anything.
    pub output: MaybePruned<Option<Output>>,
}

impl Digestible for ReceiptClaim {
    open spec fn digest_spec(&self) -> Seq<u8> {
        tagged_struct_of(
            "risc0.ReceiptClaim".spec_bytes(),
            seq![
                self.input@,
                self.pre.digest_spec(),
                self.post.digest_spec(),
                self.output.digest_spec(),
            ],
            seq![self.exit_code.pair_of().0, self.exit_code.pair_of().1],
        )
    }

    fn digest(&self) -> (digest: Digest) {
        let pre: Digest = self.pre.digest();
        let post: Digest = self.post.digest();
        let output: Digest = self.output.digest();
        let (sys_exit, user_exit) = self.exit_code.into_pair();
        let down: Vec<Digest> = vec![self.input, pre, post, output];
        let data: Vec<u32> = vec![sys_exit, user_exit];
        assert(down@ =~= seq![self.input, pre, post, output]);
        assert(data@ =~= seq![sys_exit, user_exit]);
        assert(digests_view(down@) =~= seq![
            self.input@,
            self.pre.digest_spec(),
            self.post.digest_spec(),
            self.output.digest_spec(),
        ]);
        tagged_struct("risc0.ReceiptClaim", &down, &data)
    }
}

impl ReceiptClaim {
    /// Whether `next` goes on where this claim ends: the digest of the state
    /// after this claim is the digest of the state before `next`.
    pub open spec fn joinable(&self, next: &ReceiptClaim) -> bool {
        self.post.digest_spec() == next.pre.digest_spec()
    }

    /// The claim of the two executions one after the other: it begins where
    /// this claim begins, with its input, and ends as `next` ends.
    pub open spec fn joined(&self, next: &ReceiptClaim) -> ReceiptClaim {
        ReceiptClaim {
            pre: self.pre,
            post: next.post,
            exit_code: next.exit_code,
            input: self.input,
            output: next.output,
        }
    }

    /// What joining this claim with `next` gives: the joined claim where
    /// `next` goes on where this claim ends, and else the error that holds
    /// the two state digests.
    pub open spec fn join_result(&self, next: &ReceiptClaim) -> Result<ReceiptClaim, JoinError> {
        if self.joinable(next) {
            Ok(self.joined(next))
        } else {
            Err(
                JoinError {
                    post: digest_of(self.post.digest_spec()),
                    pre: digest_of(next.pre.digest_spec()),
                },
            )
        }
    }

    /// Joins this claim with the one that follows it. Where the second does
    /// not begin in the state in which the first ends, the claims are not
    /// joined, and the error holds the two state digests.
    pub fn join(self, next: ReceiptClaim) -> (joined: Result<ReceiptClaim, JoinError>)
        ensures
            joined == self.join_result(&next),
            joined is Ok <==> self.joinable(&next),
    {
        let post: Digest = self.post.digest();
        let pre: Digest = next.pre.digest();
        if !post.equals(&pre) {
            proof {
                lemma_digest_of_view(post);
                lemma_digest_of_view(pre);
            }
            return Err(JoinError { post, pre });
        }
        Ok(
            ReceiptClaim {
                pre: self.pre,
                post: next.post,
                exit_code: next.exit_code,
                input: self.input,
                output: next.output,
            },
        )
    }

    /// The claim of a run of the program with the given image that halted
    /// with user code zero and committed the given journal, with nothing
    /// assumed.
    pub fn ok(image_id: Digest, journal: Journal) -> (claim: ReceiptClaim)
        ensures
            claim.pre == MaybePruned::<SystemState>::Pruned(image_id),
            claim.post == MaybePruned::Value(SystemState { pc: 0, merkle_root: claim.input }),
            claim.input@ == zero_digest(),
            claim.exit_code == ExitCode::Halted(0),
            claim.open_assumptions() == Some(Seq::<Assumption>::empty()),
            claim.output->Value_0->Some_0.journal == MaybePruned::Value(journal),
    {
        let zero: Digest = Digest::zero();
        ReceiptClaim {
            pre: MaybePruned::Pruned(image_id),
            post: MaybePruned::Value(SystemState { pc: 0, merkle_root: zero }),
            exit_code: ExitCode::Halted(0),
            input: zero,
            output: MaybePruned::Value(
                Some(
                    Output {
                        journal: MaybePruned::Value(journal),
                        assumptions: MaybePruned::Value(Assumptions::new()),
                    },
                ),
            ),
        }
    }

    /// The assumptions that the claim still holds, where they can be read:
    /// those of an output that was kept, with its list of assumptions.
    pub open spec fn open_assumptions(&self) -> Option<Seq<Assumption>> {
        match self.output {
            MaybePruned::Value(Some(output)) => match output.assumptions {
                MaybePruned::Value(assumptions) => Some(assumptions.list@),
                MaybePruned::Pruned(_) => None,
            },
            _ => None,
        }
    }

    /// The assumptions on which the claim rests, where they can be read: none
    /// for a claim without output, the list of a kept output, and `None`
    /// where the output or the list was pruned.
    pub open spec fn assumed_claims(&self) -> Option<Seq<Assumption>> {
        match self.output {
            MaybePruned::Value(None) => Some(Seq::empty()),
            MaybePruned::Value(Some(output)) => match output.assumptions {
                MaybePruned::Value(assumptions) => Some(assumptions.list@),
                MaybePruned::Pruned(_) => None,
            },
            MaybePruned::Pruned(_) => None,
        }
    }

    /// Reads the assumptions on which the claim rests.
    pub fn assumed(&self) -> (assumed: Option<Vec<Assumption>>)
        ensures
            match self.assumed_claims() {
                Some(claims) => assumed is Some && assumed->Some_0@ == claims,
                None => assumed is None,
            },
    {
        let output: &Option<Output> = match &self.output {
            MaybePruned::Value(output) => output,
            MaybePruned::Pruned(_) => {
                return None;
            },
        };
        let mut assumed: Vec<Assumption> = Vec::new();
        match output {
            None => {},
            Some(output) => match &output.assumptions {
                MaybePruned::Pruned(_) => {
                    return None;
                },
                MaybePruned::Value(assumptions) => {
                    let mut i: usize = 0;
                    while i < assumptions.list.len()
                        invariant
                            i <= assumptions.list@.len(),
                            assumed@ == assumptions.list@.take(i as int),
                        decreases assumptions.list@.len() - i,
                    {
                        assumed.push(assumptions.list[i]);
                        assert(assumed@ =~= assumptions.list@.take(i + 1));
                        i = i + 1;
                    }
                    assert(assumed@ =~= assumptions.list@);
                },
            },
        }
        Some(assumed)
    }

    /// Whether the claim is shown to rest on no assumption: it has no
    /// output, or a kept output whose assumptions have the digest of the
    /// empty list.
    pub open spec fn unconditional_spec(&self) -> bool {
        match self.output {
            MaybePruned::Value(None) => true,
            MaybePruned::Value(Some(output)) => output.assumptions.digest_spec() == zero_digest(),
            MaybePruned::Pruned(_) => false,
        }
    }

    /// Whether the claim is shown to rest on no assumption.
    pub fn is_unconditional(&self) -> (unconditional: bool)
        ensures
            unconditional == self.unconditional_spec(),
    {
        match &self.output {
            MaybePruned::Value(None) => true,
            MaybePruned::Value(Some(output)) => {
                let digest: Digest = output.assumptions.digest();
                let zero: Digest = Digest::zero();
                digest.equals(&zero)
            },
            MaybePruned::Pruned(_) => false,
        }
    }

    /// Why the claim with the given digest cannot be resolved against this
    /// claim, or `None` where it can: it can where the assumptions can be
    /// read and the digest is that of the first of them.
    pub open spec fn resolve_error(&self, resolved: Seq<u8>) -> Option<ResolveError> {
        match self.output {
            MaybePruned::Pruned(digest) => Some(
                ResolveError::Pruned(PrunedValueError { field: ClaimField::Output, digest }),
            ),
            MaybePruned::Value(None) => Some(ResolveError::NoOutput),
            MaybePruned::Value(Some(output)) => match output.assumptions {
                MaybePruned::Pruned(digest) => Some(
                    ResolveError::Pruned(
                        PrunedValueError { field: ClaimField::Assumptions, digest },
                    ),
                ),
                MaybePruned::Value(assumptions) => if assumptions.list@.len() == 0 {
                    Some(ResolveError::NoAssumption)
                } else if assumptions.list@[0].claim@ != resolved {
                    Some(ResolveError::Mismatch { expected: assumptions.list@[0].claim })
                } else {
                    None
                },
            },
        }
    }

    /// Whether this claim is `before` with its first assumption taken away
    /// and nothing else changed.
    pub open spec fn head_resolved_from(&self, before: &ReceiptClaim) -> bool {
        &&& self.pre == before.pre
        &&& self.post == before.post
        &&& self.exit_code == before.exit_code
        &&& self.input == before.input
        &&& before.open_assumptions() is Some
        &&& before.open_assumptions()->Some_0.len() > 0
        &&& self.open_assumptions() == Some(before.open_assumptions()->Some_0.skip(1))
        &&& self.output->Value_0->Some_0.journal == before.output->Value_0->Some_0.journal
    }

    /// The digest of this claim once its first assumption is taken away,
    /// where the assumptions can be read.
    pub open spec fn resolved_digest(&self) -> Seq<u8> {
        let output = self.output->Value_0->Some_0;
        let assumptions = output.assumptions->Value_0;
        tagged_struct_of(
            "risc0.ReceiptClaim".spec_bytes(),
            seq![
                self.input@,
                self.pre.digest_spec(),
                self.post.digest_spec(),
                tagged_struct_of(
                    "risc0.Output".spec_bytes(),
                    seq![
                        output.journal.digest_spec(),
                        tagged_list_of("risc0.Assumptions".spec_bytes(), assumptions.claims().skip(1)),
                    ],
                    Seq::empty(),
                ),
            ],
            seq![self.exit_code.pair_of().0, self.exit_code.pair_of().1],
        )
    }

    /// Resolves the first assumption of the claim with the claim whose digest
    /// is given. Where that digest is the one assumed, the result is the
    /// claim without this assumption. Otherwise the error says why not; a
    /// digest other than the one assumed is always a mismatch.
    pub fn resolve(self, resolved: &Digest) -> (done: Result<ReceiptClaim, ResolveError>)
        ensures
            match self.resolve_error(resolved@) {
                Some(error) => done == Err::<ReceiptClaim, ResolveError>(error),
                None => done is Ok && done->Ok_0.head_resolved_from(&self) && done->Ok_0.digest_spec()
                    == self.resolved_digest(),
            },
    {
        let ReceiptClaim { pre, post, exit_code, input, output } = self;
        let kept: Option<Output> = match output {
            MaybePruned::Value(kept) => kept,
            MaybePruned::Pruned(digest) => {
                return Err(
                    ResolveError::Pruned(PrunedValueError { field: ClaimField::Output, digest }),
                );
            },
        };
        let Output { journal, assumptions } = match kept {
            Some(output) => output,
            None => {
                return Err(ResolveError::NoOutput);
            },
        };
        let mut list: Assumptions = match assumptions {
            MaybePruned::Value(list) => list,
            MaybePruned::Pruned(digest) => {
                return Err(
                    ResolveError::Pruned(
                        PrunedValueError { field: ClaimField::Assumptions, digest },
                    ),
                );
            },
        };
        let ghost before = list;
        match list.resolve(resolved) {
            Ok(()) => {},
            Err(error) => {
                return Err(error);
            },
        }
        assert(list.claims() =~= before.claims().skip(1));
        Ok(
            ReceiptClaim {
                pre,
                post,
                exit_code,
                input,
                output: MaybePruned::Value(
                    Some(Output { journal, assumptions: MaybePruned::Value(list) }),
                ),
            },
        )
    }
}

/// Joining does not depend on the order of the steps: three claims can be
/// joined from the left exactly when they can be joined from the right, and
/// both ways give the same claim, so the same digest.
pub proof fn lemma_join_associative(a: ReceiptClaim, b: ReceiptClaim, c: ReceiptClaim)
    ensures
        (a.join_result(&b) is Ok && a.joined(&b).join_result(&c) is Ok) <==> (b.join_result(&c) is Ok
            && a.join_result(&b.joined(&c)) is Ok),
        a.join_result(&b) is Ok && a.joined(&b).join_result(&c) is Ok ==> a.joined(&b).join_result(
            &c,
        ) == a.join_result(&b.joined(&c)) && a.joined(&b).joined(&c).digest_spec() == a.joined(
            &b.joined(&c),
        ).digest_spec(),
{
}

/// An assumption is resolved by the claim that was assumed and by no other:
/// where the first assumption of a claim can be read, offering a claim with
/// another digest is a mismatch that names the digest assumed, and offering
/// the claim with this digest is none.
pub proof fn lemma_resolve_goes_by_digest(claim: ReceiptClaim, offered: Seq<u8>)
    requires
        claim.open_assumptions() is Some,
        claim.open_assumptions()->Some_0.len() > 0,
    ensures
        offered != claim.open_assumptions()->Some_0[0].claim@ ==> claim.resolve_error(offered)
            == Some(
            ResolveError::Mismatch { expected: claim.open_assumptions()->Some_0[0].claim },
        ),
        offered == claim.open_assumptions()->Some_0[0].claim@ ==> claim.resolve_error(offered)
            is None,
{
}

/// The digest of an output depends on its parts only through their digests:
/// two outputs whose journals and assumptions have the same digests have the
/// same digest, whichever of them were pruned.
pub proof fn lemma_output_digest_of_parts(a: Output, b: Output)
    requires
        a.journal.digest_spec() == b.journal.digest_spec(),
        a.assumptions.digest_spec() == b.assumptions.digest_spec(),
    ensures
        a.digest_spec() == b.digest_spec(),
{
}

/// The digest of a claim depends on its parts only through their digests: two
/// claims that end alike, with the same input, and whose states and outputs
/// have the same digests, have the same digest.
pub proof fn lemma_claim_digest_of_parts(a: ReceiptClaim, b: ReceiptClaim)
    requires
        a.exit_code == b.exit_code,
        a.input@ == b.input@,
        a.pre.digest_spec() == b.pre.digest_spec(),
        a.post.digest_spec() == b.post.digest_spec(),
        a.output.digest_spec() == b.output.digest_spec(),
    ensures
        a.digest_spec() == b.digest_spec(),
{
}

} // verus!
