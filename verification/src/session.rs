//! Sessions: a run of a guest as a sequence of segments, each small enough
//! to be proven by itself, that go on from one another without a gap.

use vstd::prelude::*;
use crate::receipt::SegmentReceipt;
use crate::receipt_claim::{
    Assumptions, Digestible, ExitCode, Journal, MaybePruned, Output, ReceiptClaim, SystemState,
};
use crate::sha::{zero_digest, Digest};

verus! {

impl SystemState {
    /// Whether two states have the same program counter and the same memory
    /// image.
    pub open spec fn same_as(&self, other: &SystemState) -> bool {
        self.pc == other.pc && self.merkle_root@ == other.merkle_root@
    }

    /// Whether two states have the same program counter and the same memory
    /// image.
    pub fn equals(&self, other: &SystemState) -> (same: bool)
        ensures
            same == self.same_as(other),
    {
        self.pc == other.pc && self.merkle_root.equals(&other.merkle_root)
    }
}

/// One bounded slice of the execution of a guest.
#[derive(Clone, Copy, Debug, PartialEq, Eq)]
pub struct Segment {
    /// The place of the segment in its session, counted from zero.
    pub index: u32,
    /// The state of the machine when the segment begins.
    pub pre_state: SystemState,
    /// The state of the machine when the segment ends.
    pub post_state: SystemState,
    /// How the segment ended.
    pub exit_code: ExitCode,
    /// The number of cycles that the segment takes.
    pub cycles: u64,
}

impl Segment {
    /// The claim of the segment, with the output that the guest committed in
    /// it, if it committed one.
    pub fn claim(&self, output: Option<Output>) -> (claim: ReceiptClaim)
        ensures
            claim.pre == MaybePruned::Value(self.pre_state),
            claim.post == MaybePruned::Value(self.post_state),
            claim.exit_code == self.exit_code,
            claim.input@ == zero_digest(),
            claim.output == MaybePruned::Value(output),
    {
        ReceiptClaim {
            pre: MaybePruned::Value(self.pre_state),
            post: MaybePruned::Value(self.post_state),
            exit_code: self.exit_code,
            input: Digest::zero(),
            output: MaybePruned::Value(output),
        }
    }

    /// The receipt of the segment: the proof that the backend made, tagged
    /// with the control id of the program that made it and with the claim of
    /// the segment.
    pub fn receipt(&self, seal: Vec<u32>, control_id: Digest, output: Option<Output>) -> (receipt:
        SegmentReceipt)
        ensures
            receipt.seal == seal,
            receipt.index == self.index,
            receipt.control_id == control_id,
            receipt.claim.pre == MaybePruned::Value(self.pre_state),
            receipt.claim.post == MaybePruned::Value(self.post_state),
            receipt.claim.exit_code == self.exit_code,
            receipt.claim.input@ == zero_digest(),
            receipt.claim.output == MaybePruned::Value(output),
    {
        SegmentReceipt { seal, index: self.index, control_id, claim: self.claim(output) }
    }
}

/// What is wrong with a session.
#[derive(Clone, Copy, Debug, PartialEq, Eq, Structural)]
pub enum SessionError {
    /// The session has no segment.
    Empty,
    /// The segment at this place does not carry the index of its place.
    IndexMismatch {
        /// The place of the segment.
        position: usize,
    },
    /// The segment at this place takes more cycles than a segment may.
    SegmentTooLong {
        /// The place of the segment.
        position: usize,
    },
    /// The segment at this place is followed by another, and did not end in
    /// a split.
    UnexpectedExit {
        /// The place of the segment.
        position: usize,
    },
    /// The segment after this place does not begin in the state in which
    /// the segment at this place ends.
    StateMismatch {
        /// The place of the first of the two segments.
        position: usize,
    },
    /// The last segment did not end as the session says it ended.
    ExitCodeMismatch,
}

/// A run of a guest: its segments in order, the journal that it committed,
/// if any, and how it ended.
#[derive(Clone, Debug, PartialEq, Eq)]
pub struct Session {
    /// The segments of the run, in order.
    pub segments: Vec<Segment>,
    /// The journal that the guest committed, if it committed one.
    pub journal: Option<Journal>,
    /// How the run ended.
    pub exit_code: ExitCode,
}

impl Session {
    /// What is wrong with the segment at place `i`, if anything: the first
    /// of a wrong index, too many cycles and, for a segment that another
    /// follows, an end that is no split or a state that the next does not
    /// begin in; for the last, an end that is not that of the session.
    pub open spec fn segment_error(&self, limit: u64, i: int) -> Option<SessionError> {
        let segment = self.segments@[i];
        if segment.index != i {
            Some(SessionError::IndexMismatch { position: i as usize })
        } else if segment.cycles > limit {
            Some(SessionError::SegmentTooLong { position: i as usize })
        } else if i + 1 < self.segments@.len() {
            if segment.exit_code != ExitCode::SystemSplit {
                Some(SessionError::UnexpectedExit { position: i as usize })
            } else if !segment.post_state.same_as(&self.segments@[i + 1].pre_state) {
                Some(SessionError::StateMismatch { position: i as usize })
            } else {
                None
            }
        } else if segment.exit_code != self.exit_code {
            Some(SessionError::ExitCodeMismatch)
        } else {
            None
        }
    }

    /// The first thing that is wrong with the segments from place `i` on.
    pub open spec fn first_error_from(&self, limit: u64, i: int) -> Option<SessionError>
        decreases self.segments@.len() - i,
    {
        if i < 0 || i >= self.segments@.len() {
            None
        } else {
            match self.segment_error(limit, i) {
                Some(error) => Some(error),
                None => self.first_error_from(limit, i + 1),
            }
        }
    }

    /// Whether the session is sound for segments of at most `limit` cycles:
    /// it has a segment; each segment carries the index of its place and
    /// keeps to the limit; each but the last ends in a split, in the state
    /// in which the next begins; and the last ends as the session does.
    pub open spec fn well_formed(&self, limit: u64) -> bool {
        &&& self.segments@.len() > 0
        &&& forall|i: int|
            0 <= i < self.segments@.len() ==> {
                &&& (#[trigger] self.segments@[i]).index == i
                &&& self.segments@[i].cycles <= limit
            }
        &&& forall|i: int|
            0 <= i < self.segments@.len() - 1 ==> {
                &&& (#[trigger] self.segments@[i]).exit_code == ExitCode::SystemSplit
                &&& self.segments@[i].post_state.same_as(&self.segments@[i + 1].pre_state)
            }
        &&& self.segments@[self.segments@.len() - 1].exit_code == self.exit_code
    }

    /// The segments from place `i` on hold no error exactly when each of
    /// them holds none.
    pub proof fn lemma_first_error(&self, limit: u64, i: int)
        requires
            0 <= i <= self.segments@.len(),
        ensures
            self.first_error_from(limit, i) is None <==> forall|j: int|
                i <= j < self.segments@.len() ==> #[trigger] self.segment_error(limit, j) is None,
        decreases self.segments@.len() - i,
    {
        if i < self.segments@.len() {
            self.lemma_first_error(limit, i + 1);
            if self.first_error_from(limit, i) is None {
                assert(self.segment_error(limit, i) is None);
                assert forall|j: int| i <= j < self.segments@.len() implies #[trigger] self.segment_error(
                    limit,
                    j,
                ) is None by {
                    if j > i {
                        assert(i + 1 <= j);
                    }
                }
            }
        }
    }

    /// A session with a segment is sound exactly when none of its segments
    /// holds an error.
    pub proof fn lemma_well_formed(&self, limit: u64)
        requires
            self.segments@.len() > 0,
        ensures
            self.well_formed(limit) <==> self.first_error_from(limit, 0) is None,
    {
        self.lemma_first_error(limit, 0);
        let n = self.segments@.len() as int;
        if self.well_formed(limit) {
            assert forall|j: int| 0 <= j < n implies #[trigger] self.segment_error(limit, j) is None by {
                assert(self.segments@[j].index == j);
            }
        }
        if self.first_error_from(limit, 0) is None {
            assert forall|i: int| 0 <= i < n implies {
                &&& (#[trigger] self.segments@[i]).index == i
                &&& self.segments@[i].cycles <= limit
            } by {
                assert(self.segment_error(limit, i) is None);
            }
            assert forall|i: int| 0 <= i < n - 1 implies {
                &&& (#[trigger] self.segments@[i]).exit_code == ExitCode::SystemSplit
                &&& self.segments@[i].post_state.same_as(&self.segments@[i + 1].pre_state)
            } by {
                assert(self.segment_error(limit, i) is None);
            }
            assert(self.segment_error(limit, n - 1) is None);
        }
    }

    /// Checks that the session is sound for segments of at most `limit`
    /// cycles, and reports the first thing that is wrong with it otherwise.
    pub fn check(&self, limit: u64) -> (checked: Result<(), SessionError>)
        ensures
            checked is Ok <==> self.well_formed(limit),
            self.segments@.len() == 0 ==> checked == Err::<(), SessionError>(SessionError::Empty),
            self.segments@.len() > 0 ==> match self.first_error_from(limit, 0) {
                Some(error) => checked == Err::<(), SessionError>(error),
                None => checked is Ok,
            },
    {
        let n: usize = self.segments.len();
        if n == 0 {
            return Err(SessionError::Empty);
        }
        proof {
            self.lemma_well_formed(limit);
        }
        let mut i: usize = 0;
        while i < n
            invariant
                n == self.segments@.len(),
                i <= n,
                self.first_error_from(limit, i as int) == self.first_error_from(limit, 0),
                self.well_formed(limit) <==> self.first_error_from(limit, 0) is None,
            decreases n - i,
        {
            let segment: &Segment = &self.segments[i];
            if i > u32::MAX as usize || segment.index != i as u32 {
                return Err(SessionError::IndexMismatch { position: i });
            }
            if segment.cycles > limit {
                return Err(SessionError::SegmentTooLong { position: i });
            }
            if i + 1 < n {
                match segment.exit_code {
                    ExitCode::SystemSplit => {},
                    _ => {
                        return Err(SessionError::UnexpectedExit { position: i });
                    },
                }
                if !segment.post_state.equals(&self.segments[i + 1].pre_state) {
                    return Err(SessionError::StateMismatch { position: i });
                }
            } else if segment.exit_code != self.exit_code {
                return Err(SessionError::ExitCodeMismatch);
            }
            i = i + 1;
        }
        Ok(())
    }

    /// The claim of the whole session: it begins where the first segment
    /// begins and ends where the last one ends, as the session ended, with
    /// the journal of the session as its output and nothing assumed.
    pub fn claim(self) -> (claim: ReceiptClaim)
        requires
            self.segments@.len() > 0,
        ensures
            claim.pre == MaybePruned::Value(self.segments@[0].pre_state),
            claim.post == MaybePruned::Value(
                self.segments@[self.segments@.len() - 1].post_state,
            ),
            claim.exit_code == self.exit_code,
            claim.input@ == zero_digest(),
            match self.journal {
                Some(journal) => claim.open_assumptions() == Some(Seq::<crate::receipt_claim::Assumption>::empty())
                    && claim.output->Value_0->Some_0.journal == MaybePruned::Value(journal),
                None => claim.output == MaybePruned::<Option<Output>>::Value(None),
            },
    {
        let n: usize = self.segments.len();
        let pre: SystemState = self.segments[0].pre_state;
        let post: SystemState = self.segments[n - 1].post_state;
        let output: Option<Output> = match self.journal {
            Some(journal) => Some(
                Output {
                    journal: MaybePruned::Value(journal),
                    assumptions: MaybePruned::Value(Assumptions::new()),
                },
            ),
            None => None,
        };
        ReceiptClaim {
            pre: MaybePruned::Value(pre),
            post: MaybePruned::Value(post),
            exit_code: self.exit_code,
            input: Digest::zero(),
            output: MaybePruned::Value(output),
        }
    }
}

/// In a sound session each segment can be joined with the next: the digest
/// of the state in which it ends is the digest of the state in which the
/// next begins.
pub proof fn lemma_adjacent_segments_join(session: Session, limit: u64, i: int)
    requires
        session.well_formed(limit),
        0 <= i < session.segments@.len() - 1,
    ensures
        MaybePruned::Value(session.segments@[i].post_state).digest_spec() == MaybePruned::Value(
            session.segments@[i + 1].pre_state,
        ).digest_spec(),
{
    let a = session.segments@[i];
    assert(a.post_state.same_as(&session.segments@[i + 1].pre_state));
}

/// What the executor does with the next step of the guest.
#[derive(Clone, Copy, Debug, PartialEq, Eq, Structural)]
pub enum SegmentAction {
    /// The step belongs to the segment at hand.
    Continue,
    /// The segment at hand ends before the step, which begins the next.
    Split,
}

/// A step that takes more cycles than a whole segment may.
#[derive(Clone, Copy, Debug, PartialEq, Eq, Structural)]
pub struct CycleLimitError {
    /// The number of cycles of the step.
    pub cost: u64,
    /// The number of cycles that a segment may take.
    pub limit: u64,
}

/// Divides a run into segments of at most `limit` cycles: it is told the
/// cost of each step in turn, and says where a segment ends.
#[derive(Clone, Copy, Debug, PartialEq, Eq, Structural)]
pub struct Segmenter {
    /// The number of cycles that a segment may take.
    pub limit: u64,
    /// The number of cycles of the segment at hand so far.
    pub used: u64,
}

impl Segmenter {
    /// Whether the segment at hand keeps to the limit.
    pub open spec fn well_formed(&self) -> bool {
        self.used <= self.limit
    }

    /// A segmenter for segments of at most `limit` cycles, at the start of
    /// the first segment.
    pub fn new(limit: u64) -> (segmenter: Segmenter)
        ensures
            segmenter == (Segmenter { limit, used: 0 }),
            segmenter.well_formed(),
    {
        Segmenter { limit, used: 0 }
    }

    /// Takes the next step of the run, of the given cost. The step joins the
    /// segment at hand where that keeps the segment within the limit;
    /// otherwise the segment ends and the step begins the next one. A step
    /// that is longer than a segment may be is refused, and nothing changes.
    pub fn step(&mut self, cost: u64) -> (action: Result<SegmentAction, CycleLimitError>)
        requires
            old(self).well_formed(),
        ensures
            final(self).well_formed(),
            final(self).limit == old(self).limit,
            cost > old(self).limit ==> action == Err::<SegmentAction, CycleLimitError>(
                CycleLimitError { cost, limit: old(self).limit },
            ) && final(self).used == old(self).used,
            cost <= old(self).limit && old(self).used + cost <= old(self).limit ==> action == Ok::<
                SegmentAction,
                CycleLimitError,
            >(SegmentAction::Continue) && final(self).used == old(self).used + cost,
            cost <= old(self).limit && old(self).used + cost > old(self).limit ==> action == Ok::<
                SegmentAction,
                CycleLimitError,
            >(SegmentAction::Split) && final(self).used == cost,
    {
        if cost > self.limit {
            return Err(CycleLimitError { cost, limit: self.limit });
        }
        if cost <= self.limit - self.used {
            self.used = self.used + cost;
            Ok(SegmentAction::Continue)
        } else {
            self.used = cost;
            Ok(SegmentAction::Split)
        }
    }
}

/// Where the data of a segment is kept while the session goes on: in memory,
/// or in a part of a file, so that a long session need not hold every
/// segment at once.
#[derive(Clone, Debug, PartialEq, Eq)]
pub enum SegmentRef {
    /// The data itself.
    Memory(Vec<u8>),
    /// A range of bytes in a file.
    File {
        /// The path of the file.
        path: String,
        /// The place of the first byte of the segment in the file.
        offset: u64,
        /// The number of bytes of the segment.
        len: u64,
    },
}

/// A reference to a range of bytes that the file does not hold.
#[derive(Clone, Copy, Debug, PartialEq, Eq, Structural)]
pub struct SegmentRangeError {
    /// The place of the first byte of the range.
    pub offset: u64,
    /// The number of bytes of the range.
    pub len: u64,
    /// The number of bytes of the file.
    pub size: usize,
}

impl SegmentRef {
    /// The data of the segment, given the content of the file for a
    /// reference into a file: `None` where the range does not lie within
    /// the content.
    pub open spec fn data_in(&self, content: Seq<u8>) -> Option<Seq<u8>> {
        match self {
            SegmentRef::Memory(data) => Some(data@),
            SegmentRef::File { path, offset, len } => if *offset + *len <= content.len() {
                Some(content.subrange(*offset as int, *offset + *len))
            } else {
                None
            },
        }
    }

    /// Resolves the reference to the bytes of the segment. Data in memory is
    /// handed out as it is, whatever `content` holds. For a reference into a
    /// file, `content` is what the file holds, and the result is the range
    /// of it that the reference names, or an error where the file is too
    /// short for that range.
    pub fn resolve(&self, content: &Vec<u8>) -> (data: Result<Vec<u8>, SegmentRangeError>)
        ensures
            match self.data_in(content@) {
                Some(bytes) => data is Ok && data->Ok_0@ == bytes,
                None => self matches SegmentRef::File { path, offset, len } && data == Err::<
                    Vec<u8>,
                    SegmentRangeError,
                >(SegmentRangeError { offset: *offset, len: *len, size: content.len() }),
            },
    {
        match self {
            SegmentRef::Memory(data) => {
                let copy: Vec<u8> = copy_range(data, 0, data.len());
                assert(data@.subrange(0, data@.len() as int) =~= data@);
                Ok(copy)
            },
            SegmentRef::File { path, offset, len } => {
                let size: usize = content.len();
                if *offset > size as u64 || *len > size as u64 - *offset {
                    return Err(SegmentRangeError { offset: *offset, len: *len, size });
                }
                let start: usize = *offset as usize;
                let end: usize = start + *len as usize;
                Ok(copy_range(content, start, end))
            },
        }
    }
}

/// A copy of the bytes of `source` from `start` up to `end`.
fn copy_range(source: &Vec<u8>, start: usize, end: usize) -> (copy: Vec<u8>)
    requires
        start <= end <= source@.len(),
    ensures
        copy@ == source@.subrange(start as int, end as int),
{
    let mut copy: Vec<u8> = Vec::new();
    let mut i: usize = start;
    while i < end
        invariant
            start <= i <= end <= source@.len(),
            copy@ == source@.subrange(start as int, i as int),
        decreases end - i,
    {
        copy.push(source[i]);
        assert(copy@ =~= source@.subrange(start as int, i + 1));
        i = i + 1;
    }
    copy
}

} // verus!
