//! Dashboard metrics: summary statistics over a snapshot of the submission
//! store.
//!
//! A success rate is the exact quotient of the successes over the entries
//! (times 100 it is the percentage), an average the exact quotient of the
//! summed microseconds over the entries.

use crate::execution::ExecutionOutcome;
use crate::grading::{ai_answer_score, graded, Language, AI_PASS_SCORE};
use crate::ratio::Ratio;
use crate::submission::Submission;
use vstd::prelude::*;

verus! {

/// A Rust grade counts as a success when its score is above this.
pub const RUST_PASS_THRESHOLD: u32 = 90;

/// A TypeScript grade counts as a success when its score is above this.
pub const TS_PASS_THRESHOLD: u32 = 85;

/// A knowledge score counts as a success when it is above this.
pub const AI_PASS_THRESHOLD: u32 = 90;

/// Success of the Rust snippet of a submission.
pub open spec fn rust_passed() -> spec_fn(Submission) -> bool {
    |s: Submission| s@.rust.score > RUST_PASS_THRESHOLD
}

/// Success of the TypeScript snippet of a submission.
pub open spec fn ts_passed() -> spec_fn(Submission) -> bool {
    |s: Submission| s@.ts.score > TS_PASS_THRESHOLD
}

/// Success of the knowledge answer of a submission.
pub open spec fn ai_passed() -> spec_fn(Submission) -> bool {
    |s: Submission| s@.ai_score > AI_PASS_THRESHOLD
}

/// Round-trip time of the Rust execution of a submission.
pub open spec fn rust_time() -> spec_fn(Submission) -> nat {
    |s: Submission| s@.rust.elapsed_us as nat
}

/// Round-trip time of the TypeScript execution of a submission.
pub open spec fn ts_time() -> spec_fn(Submission) -> nat {
    |s: Submission| s@.ts.elapsed_us as nat
}

/// Wrong count of the Rust snippet of a submission.
pub open spec fn rust_wrong() -> spec_fn(Submission) -> nat {
    |s: Submission| s@.rust.wrong as nat
}

/// Wrong count of the TypeScript snippet of a submission.
pub open spec fn ts_wrong() -> spec_fn(Submission) -> nat {
    |s: Submission| s@.ts.wrong as nat
}

/// How many of the submissions meet a criterion.
pub open spec fn count(submissions: Seq<Submission>, criterion: spec_fn(Submission) -> bool) -> nat {
    submissions.filter(criterion).len()
}

/// The sum of a measure over the submissions.
pub open spec fn total(submissions: Seq<Submission>, measure: spec_fn(Submission) -> nat) -> nat
    decreases submissions.len(),
{
    if submissions.len() == 0 {
        0
    } else {
        total(submissions.drop_last(), measure) + measure(submissions.last())
    }
}

/// The summary shown on the dashboard.
#[derive(Clone, Debug, PartialEq, Eq)]
pub struct Metrics {
    pub total_submissions: usize,
    /// Successful Rust snippets over all entries.
    pub rust_success_rate: Ratio,
    /// Successful TypeScript snippets over all entries.
    pub ts_success_rate: Ratio,
    /// Successful knowledge answers over all entries.
    pub ai_success_rate: Ratio,
    /// Summed round-trip time of the Rust executions, in microseconds, over
    /// all entries.
    pub avg_rust_time: Ratio,
    /// Summed round-trip time of the TypeScript executions, in microseconds,
    /// over all entries.
    pub avg_ts_time: Ratio,
    pub total_rust_wrong: usize,
    pub total_ts_wrong: usize,
    /// The snapshot the figures were computed from.
    pub submissions: Vec<Submission>,
}

/// Whether `metrics` is the summary of `submissions`: each rate is the number
/// of successes over the number of entries, each average the sum of the
/// times over the number of entries, and over no entries all are zero.
pub open spec fn summarizes(metrics: Metrics, submissions: Seq<Submission>) -> bool {
    let n = submissions.len();
    &&& metrics.total_submissions == n
    &&& metrics.rust_success_rate.is_quotient(count(submissions, rust_passed()), n)
    &&& metrics.ts_success_rate.is_quotient(count(submissions, ts_passed()), n)
    &&& metrics.ai_success_rate.is_quotient(count(submissions, ai_passed()), n)
    &&& metrics.avg_rust_time.is_quotient(total(submissions, rust_time()), n)
    &&& metrics.avg_ts_time.is_quotient(total(submissions, ts_time()), n)
    &&& metrics.total_rust_wrong == total(submissions, rust_wrong())
    &&& metrics.total_ts_wrong == total(submissions, ts_wrong())
    &&& metrics.submissions@ == submissions
}

/// Appending one submission raises a count by one if it meets the criterion
/// and leaves it unchanged otherwise.
pub proof fn lemma_count_push(
    submissions: Seq<Submission>,
    last: Submission,
    criterion: spec_fn(Submission) -> bool,
)
    ensures
        count(submissions.push(last), criterion) == count(submissions, criterion) + (if criterion(
            last,
        ) {
            1nat
        } else {
            0nat
        }),
        count(submissions, criterion) <= submissions.len(),
{
    reveal(Seq::filter);
    assert(submissions.push(last).drop_last() == submissions);
    submissions.lemma_filter_len(criterion);
}

/// Appending one submission adds its measure to a total.
pub proof fn lemma_total_push(
    submissions: Seq<Submission>,
    last: Submission,
    measure: spec_fn(Submission) -> nat,
)
    ensures
        total(submissions.push(last), measure) == total(submissions, measure) + measure(last),
{
    assert(submissions.push(last).drop_last() == submissions);
}

/// A count is zero exactly when no submission meets the criterion, and is
/// the number of submissions exactly when every one does; it never exceeds
/// that number.
pub proof fn lemma_count_extremes(
    submissions: Seq<Submission>,
    criterion: spec_fn(Submission) -> bool,
)
    ensures
        count(submissions, criterion) <= submissions.len(),
        count(submissions, criterion) == 0 <==> (forall|i: int|
            0 <= i < submissions.len() ==> !criterion(#[trigger] submissions[i])),
        count(submissions, criterion) == submissions.len() <==> (forall|i: int|
            0 <= i < submissions.len() ==> criterion(#[trigger] submissions[i])),
    decreases submissions.len(),
{
    if submissions.len() == 0 {
        reveal(Seq::filter);
    } else {
        let front = submissions.drop_last();
        let last = submissions.last();
        lemma_count_extremes(front, criterion);
        assert(front.push(last) == submissions);
        lemma_count_push(front, last, criterion);
    }
}

/// A total lies between the number of submissions times the least measure
/// and that number times the greatest: the average lies between the least
/// and the greatest measure.
pub proof fn lemma_total_between(
    submissions: Seq<Submission>,
    measure: spec_fn(Submission) -> nat,
    least: nat,
    greatest: nat,
)
    requires
        forall|i: int|
            0 <= i < submissions.len() ==> least <= measure(#[trigger] submissions[i])
                <= greatest,
    ensures
        least * submissions.len() <= total(submissions, measure),
        total(submissions, measure) <= greatest * submissions.len(),
    decreases submissions.len(),
{
    if submissions.len() > 0 {
        let front = submissions.drop_last();
        assert forall|i: int| 0 <= i < front.len() implies least <= measure(#[trigger] front[i])
            <= greatest by {
            assert(front[i] == submissions[i]);
        }
        lemma_total_between(front, measure, least, greatest);
        let n = front.len();
        assert(least * (n + 1) == least * n + least) by (nonlinear_arith);
        assert(greatest * (n + 1) == greatest * n + greatest) by (nonlinear_arith);
    } else {
        assert(least * 0 == 0 && greatest * 0 == 0) by (nonlinear_arith);
    }
}

/// On a store that is not empty a rate is zero exactly when no entry is a
/// success and one (100 %) exactly when every entry is; it never exceeds
/// one.
pub proof fn lemma_rate_extremes(
    rate: Ratio,
    submissions: Seq<Submission>,
    criterion: spec_fn(Submission) -> bool,
)
    requires
        rate.is_quotient(count(submissions, criterion), submissions.len()),
        submissions.len() > 0,
    ensures
        rate.numerator <= rate.denominator,
        rate.numerator == 0 <==> (forall|i: int|
            0 <= i < submissions.len() ==> !criterion(#[trigger] submissions[i])),
        rate.numerator == rate.denominator <==> (forall|i: int|
            0 <= i < submissions.len() ==> criterion(#[trigger] submissions[i])),
{
    lemma_count_extremes(submissions, criterion);
}

/// On a store that is not empty an average lies between the least and the
/// greatest of the times it is the average of.
pub proof fn lemma_average_between(
    average: Ratio,
    submissions: Seq<Submission>,
    measure: spec_fn(Submission) -> nat,
    least: nat,
    greatest: nat,
)
    requires
        average.is_quotient(total(submissions, measure), submissions.len()),
        submissions.len() > 0,
        forall|i: int|
            0 <= i < submissions.len() ==> least <= measure(#[trigger] submissions[i])
                <= greatest,
    ensures
        least * average.denominator <= average.numerator,
        average.numerator <= greatest * average.denominator,
{
    lemma_total_between(submissions, measure, least, greatest);
}

/// The summary of no submissions: every rate and average is zero (over
/// one), every total is zero.
pub proof fn lemma_empty_snapshot_gives_zeros(metrics: Metrics)
    requires
        summarizes(metrics, Seq::<Submission>::empty()),
    ensures
        metrics.total_submissions == 0,
        metrics.rust_success_rate == (Ratio { numerator: 0, denominator: 1 }),
        metrics.ts_success_rate == (Ratio { numerator: 0, denominator: 1 }),
        metrics.ai_success_rate == (Ratio { numerator: 0, denominator: 1 }),
        metrics.avg_rust_time == (Ratio { numerator: 0, denominator: 1 }),
        metrics.avg_ts_time == (Ratio { numerator: 0, denominator: 1 }),
        metrics.total_rust_wrong == 0,
        metrics.total_ts_wrong == 0,
        metrics.submissions@.len() == 0,
{
    reveal(Seq::filter);
}

/// Each threshold lies between the fail score and the pass score of its
/// track, so a success is exactly a correct attempt: a snippet with nothing
/// wrong, an answer with the pass score.
pub proof fn lemma_success_is_correctness(outcome: ExecutionOutcome, answer: Seq<char>)
    ensures
        graded(Language::Rust, outcome).score > RUST_PASS_THRESHOLD <==> graded(
            Language::Rust,
            outcome,
        ).wrong == 0,
        graded(Language::TypeScript, outcome).score > TS_PASS_THRESHOLD <==> graded(
            Language::TypeScript,
            outcome,
        ).wrong == 0,
        ai_answer_score(answer) > AI_PASS_THRESHOLD <==> ai_answer_score(answer) == AI_PASS_SCORE,
{
}

/// Computes the dashboard metrics of a snapshot. Every figure is a function
/// of the snapshot alone and none is rounded; an empty snapshot gives zeros
/// throughout. No rate exceeds one, and since submissions are well formed,
/// every snippet counts either as a success or as one wrong.
pub fn compute(snapshot: Vec<Submission>) -> (metrics: Metrics)
    ensures
        summarizes(metrics, snapshot@),
        metrics.rust_success_rate.numerator <= metrics.rust_success_rate.denominator,
        metrics.ts_success_rate.numerator <= metrics.ts_success_rate.denominator,
        metrics.ai_success_rate.numerator <= metrics.ai_success_rate.denominator,
        count(snapshot@, rust_passed()) + metrics.total_rust_wrong == snapshot@.len(),
        count(snapshot@, ts_passed()) + metrics.total_ts_wrong == snapshot@.len(),
{
    let n = snapshot.len();
    let mut rust_success: usize = 0;
    let mut ts_success: usize = 0;
    let mut ai_success: usize = 0;
    let mut total_rust_time: u128 = 0;
    let mut total_ts_time: u128 = 0;
    let mut total_rust_wrong: usize = 0;
    let mut total_ts_wrong: usize = 0;
    let mut i: usize = 0;
    proof {
        reveal(Seq::filter);
        assert(snapshot@.take(0) == Seq::<Submission>::empty());
    }
    while i < n
        invariant
            n == snapshot@.len(),
            i <= n,
            rust_success == count(snapshot@.take(i as int), rust_passed()),
            ts_success == count(snapshot@.take(i as int), ts_passed()),
            ai_success == count(snapshot@.take(i as int), ai_passed()),
            total_rust_time == total(snapshot@.take(i as int), rust_time()),
            total_ts_time == total(snapshot@.take(i as int), ts_time()),
            total_rust_wrong == total(snapshot@.take(i as int), rust_wrong()),
            total_ts_wrong == total(snapshot@.take(i as int), ts_wrong()),
            rust_success + total_rust_wrong == i,
            ts_success + total_ts_wrong == i,
            ai_success <= i,
            total_rust_time <= i * u64::MAX,
            total_ts_time <= i * u64::MAX,
        decreases n - i,
    {
        let submission = &snapshot[i];
        proof {
            let seen = snapshot@.take(i as int);
            assert(snapshot@.take(i + 1) == seen.push(*submission));
            lemma_count_push(seen, *submission, rust_passed());
            lemma_count_push(seen, *submission, ts_passed());
            lemma_count_push(seen, *submission, ai_passed());
            lemma_total_push(seen, *submission, rust_time());
            lemma_total_push(seen, *submission, ts_time());
            lemma_total_push(seen, *submission, rust_wrong());
            lemma_total_push(seen, *submission, ts_wrong());
            assert((i + 1) * u64::MAX == i * u64::MAX + u64::MAX) by (nonlinear_arith);
            assert((i + 1) * u64::MAX <= u64::MAX * u64::MAX) by (nonlinear_arith)
                requires
                    i + 1 <= u64::MAX,
            ;
        }
        let rust = submission.rust();
        let ts = submission.ts();
        if rust.score > RUST_PASS_THRESHOLD {
            rust_success = rust_success + 1;
        }
        if ts.score > TS_PASS_THRESHOLD {
            ts_success = ts_success + 1;
        }
        if submission.ai_score() > AI_PASS_THRESHOLD {
            ai_success = ai_success + 1;
        }
        total_rust_time = total_rust_time + rust.elapsed_us as u128;
        total_ts_time = total_ts_time + ts.elapsed_us as u128;
        total_rust_wrong = total_rust_wrong + rust.wrong as usize;
        total_ts_wrong = total_ts_wrong + ts.wrong as usize;
        i = i + 1;
    }
    proof {
        assert(snapshot@.take(n as int) == snapshot@);
    }
    Metrics {
        total_submissions: n,
        rust_success_rate: Ratio::over(rust_success as u128, n),
        ts_success_rate: Ratio::over(ts_success as u128, n),
        ai_success_rate: Ratio::over(ai_success as u128, n),
        avg_rust_time: Ratio::over(total_rust_time, n),
        avg_ts_time: Ratio::over(total_ts_time, n),
        total_rust_wrong,
        total_ts_wrong,
        submissions: snapshot,
    }
}

} // verus!
