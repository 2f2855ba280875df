//! Submissions: the record of one graded attempt, how it is assembled from
//! the outcomes of the two executions, and the store that keeps it.

use crate::execution::{ExecutionOutcome, ExecutionRequest};
use crate::grading::{
    ai_answer_score, execution_request, grade, graded, is_request_for, validate_ai_answer, Grade,
    Language, AI_PASS_SCORE, FAIL_SCORE,
};
use crate::stamp::{fresh_id, is_random_uuid_text, now, Timestamp};
use vstd::prelude::*;

verus! {

/// What a candidate submits: one snippet per language track and the answer to
/// the knowledge question.
#[derive(Clone, Debug, PartialEq, Eq)]
pub struct SubmissionRequest {
    pub rust_code: String,
    pub ts_code: String,
    pub ai_answer: String,
}

/// What a [`Submission`] holds, as plain values.
pub struct SubmissionView {
    pub id: Seq<char>,
    pub rust_code: Seq<char>,
    pub ts_code: Seq<char>,
    pub ai_answer: Seq<char>,
    pub rust: Grade,
    pub ts: Grade,
    pub ai_score: u32,
    pub created_at: Timestamp,
}

impl SubmissionView {
    /// Every score is one of the two values its grading rule can give, and a
    /// snippet has something wrong exactly when it has the fail score.
    pub open spec fn well_formed(self) -> bool {
        &&& self.rust.is_grade_in(Language::Rust)
        &&& self.ts.is_grade_in(Language::TypeScript)
        &&& (self.ai_score == AI_PASS_SCORE || self.ai_score == FAIL_SCORE)
    }
}

/// One graded attempt. A submission is made by [`assemble`] and never changes
/// afterwards.
#[derive(Debug, PartialEq, Eq)]
pub struct Submission {
    id: String,
    rust_code: String,
    ts_code: String,
    ai_answer: String,
    rust: Grade,
    ts: Grade,
    ai_score: u32,
    created_at: Timestamp,
}

impl View for Submission {
    type V = SubmissionView;

    closed spec fn view(&self) -> SubmissionView {
        SubmissionView {
            id: self.id@,
            rust_code: self.rust_code@,
            ts_code: self.ts_code@,
            ai_answer: self.ai_answer@,
            rust: self.rust,
            ts: self.ts,
            ai_score: self.ai_score,
            created_at: self.created_at,
        }
    }
}

impl Clone for Submission {
    fn clone(&self) -> (copy: Self)
        ensures
            copy == *self,
    {
        proof {
            use_type_invariant(self);
        }
        Submission {
            id: self.id.clone(),
            rust_code: self.rust_code.clone(),
            ts_code: self.ts_code.clone(),
            ai_answer: self.ai_answer.clone(),
            rust: self.rust,
            ts: self.ts,
            ai_score: self.ai_score,
            created_at: self.created_at,
        }
    }
}

impl Submission {
    #[verifier::type_invariant]
    spec fn well_formed(self) -> bool {
        self@.well_formed()
    }

    /// The identifier given at creation.
    pub fn id(&self) -> (id: &str)
        ensures
            id@ == self@.id,
    {
        self.id.as_str()
    }

    /// The Rust snippet as submitted.
    pub fn rust_code(&self) -> (code: &str)
        ensures
            code@ == self@.rust_code,
    {
        self.rust_code.as_str()
    }

    /// The TypeScript snippet as submitted.
    pub fn ts_code(&self) -> (code: &str)
        ensures
            code@ == self@.ts_code,
    {
        self.ts_code.as_str()
    }

    /// The answer to the knowledge question as submitted.
    pub fn ai_answer(&self) -> (answer: &str)
        ensures
            answer@ == self@.ai_answer,
    {
        self.ai_answer.as_str()
    }

    /// The grade of the Rust snippet.
    pub fn rust(&self) -> (grade: Grade)
        ensures
            grade == self@.rust,
            grade.is_grade_in(Language::Rust),
    {
        proof {
            use_type_invariant(self);
        }
        self.rust
    }

    /// The grade of the TypeScript snippet.
    pub fn ts(&self) -> (grade: Grade)
        ensures
            grade == self@.ts,
            grade.is_grade_in(Language::TypeScript),
    {
        proof {
            use_type_invariant(self);
        }
        self.ts
    }

    /// The score of the knowledge answer.
    pub fn ai_score(&self) -> (score: u32)
        ensures
            score == self@.ai_score,
            score == AI_PASS_SCORE || score == FAIL_SCORE,
    {
        proof {
            use_type_invariant(self);
        }
        self.ai_score
    }

    /// When the submission was recorded.
    pub fn created_at(&self) -> (created_at: Timestamp)
        ensures
            created_at == self@.created_at,
    {
        self.created_at
    }
}

/// The two executions a submission needs: the Rust snippet and the
/// TypeScript snippet, each in its harness. Neither depends on the other.
pub fn plan(request: &SubmissionRequest) -> (calls: (ExecutionRequest, ExecutionRequest))
    ensures
        is_request_for(calls.0, Language::Rust, request.rust_code@),
        is_request_for(calls.1, Language::TypeScript, request.ts_code@),
{
    (
        execution_request(Language::Rust, request.rust_code.as_str()),
        execution_request(Language::TypeScript, request.ts_code.as_str()),
    )
}

/// The record of `request`, graded from the outcomes of its two executions,
/// under the given identifier and creation time.
pub open spec fn record_of(
    request: SubmissionRequest,
    rust_outcome: ExecutionOutcome,
    ts_outcome: ExecutionOutcome,
    id: Seq<char>,
    created_at: Timestamp,
) -> SubmissionView {
    SubmissionView {
        id,
        rust_code: request.rust_code@,
        ts_code: request.ts_code@,
        ai_answer: request.ai_answer@,
        rust: graded(Language::Rust, rust_outcome),
        ts: graded(Language::TypeScript, ts_outcome),
        ai_score: ai_answer_score(request.ai_answer@),
        created_at,
    }
}

/// Every record is well formed, whatever was submitted and however the
/// executions ended.
pub proof fn lemma_record_well_formed(
    request: SubmissionRequest,
    rust_outcome: ExecutionOutcome,
    ts_outcome: ExecutionOutcome,
    id: Seq<char>,
    created_at: Timestamp,
)
    ensures
        record_of(request, rust_outcome, ts_outcome, id, created_at).well_formed(),
{
}

/// Builds the record of a submission once both executions have ended. This
/// never fails: a failed execution is graded with the fallback grade.
pub fn assemble(
    request: SubmissionRequest,
    rust_outcome: &ExecutionOutcome,
    ts_outcome: &ExecutionOutcome,
    id: String,
    created_at: Timestamp,
) -> (submission: Submission)
    ensures
        submission@ == record_of(request, *rust_outcome, *ts_outcome, id@, created_at),
{
    let rust = grade(Language::Rust, rust_outcome);
    let ts = grade(Language::TypeScript, ts_outcome);
    let ai_score = validate_ai_answer(request.ai_answer.as_str());
    Submission {
        id,
        rust_code: request.rust_code,
        ts_code: request.ts_code,
        ai_answer: request.ai_answer,
        rust,
        ts,
        ai_score,
        created_at,
    }
}

/// The content of the store after the submissions in `arrivals` have been
/// appended one by one, in that order.
pub open spec fn after_appends(before: Seq<Submission>, arrivals: Seq<Submission>) -> Seq<
    Submission,
>
    decreases arrivals.len(),
{
    if arrivals.len() == 0 {
        before
    } else {
        after_appends(before, arrivals.drop_last()).push(arrivals.last())
    }
}

/// Appends keep what was stored and add the arrivals behind it in the order
/// in which they were appended: nothing is lost, duplicated or moved, and
/// each submission is stored as often as it was stored before or arrived.
pub proof fn lemma_appends_keep_order(before: Seq<Submission>, arrivals: Seq<Submission>)
    ensures
        after_appends(before, arrivals) == before + arrivals,
        after_appends(before, arrivals).len() == before.len() + arrivals.len(),
        forall|i: int|
            0 <= i < before.len() ==> #[trigger] after_appends(before, arrivals)[i] == before[i],
        forall|k: int|
            0 <= k < arrivals.len() ==> #[trigger] after_appends(before, arrivals)[before.len()
                + k] == arrivals[k],
        after_appends(before, arrivals).to_multiset() == before.to_multiset().add(
            arrivals.to_multiset(),
        ),
    decreases arrivals.len(),
{
    if arrivals.len() > 0 {
        lemma_appends_keep_order(before, arrivals.drop_last());
        assert((before + arrivals.drop_last()).push(arrivals.last()) == before + arrivals);
    } else {
        assert(before + arrivals == before);
    }
    vstd::seq_lib::lemma_multiset_commutative(before, arrivals);
}

/// The append-only collection of graded submissions, in insertion order.
pub struct SubmissionStore {
    entries: Vec<Submission>,
}

impl View for SubmissionStore {
    type V = Seq<Submission>;

    closed spec fn view(&self) -> Seq<Submission> {
        self.entries@
    }
}

impl SubmissionStore {
    /// An empty store.
    pub fn new() -> (store: SubmissionStore)
        ensures
            store@ == Seq::<Submission>::empty(),
    {
        SubmissionStore { entries: Vec::new() }
    }

    /// The number of submissions stored.
    pub fn len(&self) -> (n: usize)
        ensures
            n == self@.len(),
    {
        self.entries.len()
    }

    /// Adds a submission at the end. Nothing stored before is changed, moved
    /// or removed.
    pub fn append(&mut self, submission: Submission)
        ensures
            final(self)@ == old(self)@.push(submission),
    {
        self.entries.push(submission);
    }

    /// A copy of all entries, in insertion order.
    pub fn snapshot(&self) -> (entries: Vec<Submission>)
        ensures
            entries@ == self@,
    {
        let mut entries: Vec<Submission> = Vec::new();
        let mut i: usize = 0;
        while i < self.entries.len()
            invariant
                i <= self.entries.len(),
                entries@ == self.entries@.take(i as int),
            decreases self.entries.len() - i,
        {
            entries.push(self.entries[i].clone());
            assert(self.entries@.take(i + 1) == self.entries@.take(i as int).push(
                self.entries@[i as int],
            ));
            i = i + 1;
        }
        assert(self.entries@.take(i as int) == self.entries@);
        entries
    }
}

/// Makes the record of a submission whose two executions have ended: grades
/// it and gives it a fresh identifier and the current time. No store is
/// touched, so a caller that shares its store can make the record first and
/// hold the store for the append alone.
pub fn record(
    request: SubmissionRequest,
    rust_outcome: &ExecutionOutcome,
    ts_outcome: &ExecutionOutcome,
) -> (submission: Submission)
    ensures
        submission@ == record_of(
            request,
            *rust_outcome,
            *ts_outcome,
            submission@.id,
            submission@.created_at,
        ),
        is_random_uuid_text(submission@.id),
        submission@.created_at.well_formed(),
{
    assemble(request, rust_outcome, ts_outcome, fresh_id(), now())
}

/// Records a submission in a store that the caller owns: makes the record as
/// [`record`] does, appends it to the store and returns it.
pub fn submit(
    store: &mut SubmissionStore,
    request: SubmissionRequest,
    rust_outcome: &ExecutionOutcome,
    ts_outcome: &ExecutionOutcome,
) -> (submission: Submission)
    ensures
        submission@ == record_of(
            request,
            *rust_outcome,
            *ts_outcome,
            submission@.id,
            submission@.created_at,
        ),
        is_random_uuid_text(submission@.id),
        submission@.created_at.well_formed(),
        final(store)@ == old(store)@.push(submission),
{
    let submission = record(request, rust_outcome, ts_outcome);
    store.append(submission.clone());
    submission
}

} // verus!
