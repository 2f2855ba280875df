//! The grader: harness construction, the correctness rule and the score
//! mapping for the two language tracks, and the knowledge answer.

use crate::execution::{
    is_request_of, is_usable, reports, request, run_output, ExecutionOutcome, ExecutionRequest,
    Reply,
};
use crate::text::{is_single_char, lemma_trimmed_idempotent, lowercase_of, trimmed};
use vstd::prelude::*;
use vstd::string::*;

verus! {

/// Score of a correct Rust snippet.
pub const RUST_PASS_SCORE: u32 = 92;

/// Score of a correct TypeScript snippet.
pub const TS_PASS_SCORE: u32 = 88;

/// Score of a correct knowledge answer.
pub const AI_PASS_SCORE: u32 = 92;

/// Score of anything that is not correct.
pub const FAIL_SCORE: u32 = 50;

/// Compile timeout sent to the execution provider, in milliseconds.
pub const COMPILE_TIMEOUT_MS: u32 = 10000;

/// Run timeout sent to the execution provider, in milliseconds.
pub const RUN_TIMEOUT_MS: u32 = 3000;

/// What stands before the submitted snippet in the program that is run.
pub const HARNESS_PREFIX: &'static str = "\n        ";

/// What stands after a Rust snippet: a `main` that calls `sum` on the list
/// 1, 2, 3 and prints the result.
pub const RUST_HARNESS_SUFFIX: &'static str =
    "\n\n        fn main() {\n            let result = sum(vec![1, 2, 3]);\n            println!(\"{}\", result);\n        }\n        ";

/// What stands after a TypeScript snippet: a call of `sum` on the list
/// 1, 2, 3 whose result is logged.
pub const TS_HARNESS_SUFFIX: &'static str = "\n\n        console.log(sum([1, 2, 3]));\n        ";

/// The two language tracks of an assessment.
#[derive(Clone, Copy, Debug, PartialEq, Eq, Structural)]
pub enum Language {
    Rust,
    TypeScript,
}

impl Language {
    /// The score of a correct snippet in this language.
    pub open spec fn spec_pass_score(self) -> u32 {
        match self {
            Language::Rust => RUST_PASS_SCORE,
            Language::TypeScript => TS_PASS_SCORE,
        }
    }

    /// The key by which the execution provider knows this language.
    pub open spec fn identifier_text(self) -> Seq<char> {
        match self {
            Language::Rust => "rust"@,
            Language::TypeScript => "typescript"@,
        }
    }

    /// The runtime version requested for this language.
    pub open spec fn version_text(self) -> Seq<char> {
        match self {
            Language::Rust => "1.68.0"@,
            Language::TypeScript => "5.0.3"@,
        }
    }

    /// The name of the single virtual file sent for this language.
    pub open spec fn file_name_text(self) -> Seq<char> {
        match self {
            Language::Rust => "main.rs"@,
            Language::TypeScript => "main.ts"@,
        }
    }

    /// The harness text that stands after a snippet in this language.
    pub open spec fn harness_suffix(self) -> Seq<char> {
        match self {
            Language::Rust => RUST_HARNESS_SUFFIX@,
            Language::TypeScript => TS_HARNESS_SUFFIX@,
        }
    }

    #[verifier::when_used_as_spec(spec_pass_score)]
    pub fn pass_score(self) -> (score: u32)
        ensures
            score == self.spec_pass_score(),
    {
        match self {
            Language::Rust => RUST_PASS_SCORE,
            Language::TypeScript => TS_PASS_SCORE,
        }
    }

    pub fn identifier(self) -> (id: &'static str)
        ensures
            id@ == self.identifier_text(),
    {
        match self {
            Language::Rust => "rust",
            Language::TypeScript => "typescript",
        }
    }

    pub fn version(self) -> (version: &'static str)
        ensures
            version@ == self.version_text(),
    {
        match self {
            Language::Rust => "1.68.0",
            Language::TypeScript => "5.0.3",
        }
    }

    pub fn file_name(self) -> (name: &'static str)
        ensures
            name@ == self.file_name_text(),
    {
        match self {
            Language::Rust => "main.rs",
            Language::TypeScript => "main.ts",
        }
    }
}

/// The program sent to the execution provider for a snippet: the snippet
/// between the fixed prefix and the suffix of its language.
pub open spec fn harness_text(language: Language, code: Seq<char>) -> Seq<char> {
    HARNESS_PREFIX@ + code + language.harness_suffix()
}

/// Wraps a submitted snippet in the harness of its language.
pub fn harness(language: Language, code: &str) -> (program: String)
    ensures
        program@ == harness_text(language, code@),
{
    let mut program = String::from_str(HARNESS_PREFIX);
    program.append(code);
    match language {
        Language::Rust => program.append(RUST_HARNESS_SUFFIX),
        Language::TypeScript => program.append(TS_HARNESS_SUFFIX),
    }
    program
}

/// Whether `request` is the one request the grader sends for `code` in
/// `language`: the language's identifier and version, a single file holding
/// the harness, and the fixed timeouts.
pub open spec fn is_request_for(
    request: ExecutionRequest,
    language: Language,
    code: Seq<char>,
) -> bool {
    is_request_of(
        request,
        language.identifier_text(),
        language.version_text(),
        language.file_name_text(),
        harness_text(language, code),
        COMPILE_TIMEOUT_MS,
        RUN_TIMEOUT_MS,
    )
}

/// Builds the request that has the execution provider run a snippet.
pub fn execution_request(language: Language, code: &str) -> (request: ExecutionRequest)
    ensures
        is_request_for(request, language, code@),
{
    request(
        language.identifier(),
        language.version(),
        language.file_name(),
        harness(language, code),
        COMPILE_TIMEOUT_MS,
        RUN_TIMEOUT_MS,
    )
}

/// The result of grading one snippet.
#[derive(Clone, Copy, Debug, PartialEq, Eq, Structural)]
pub struct Grade {
    /// Points awarded.
    pub score: u32,
    /// Round-trip time of the execution in microseconds; 0 when the
    /// execution failed.
    pub elapsed_us: u64,
    /// Number of failed correctness checks: 0 or 1.
    pub wrong: u32,
}

impl Grade {
    /// The two grades a snippet in `language` can get, apart from the time:
    /// the pass score with nothing wrong, or the fail score with one wrong.
    pub open spec fn is_grade_in(self, language: Language) -> bool {
        ||| self.score == language.pass_score() && self.wrong == 0
        ||| self.score == FAIL_SCORE && self.wrong == 1
    }

    /// The grade of a snippet whose output was correct.
    pub fn pass(language: Language, elapsed_us: u64) -> (grade: Grade)
        ensures
            grade == (Grade { score: language.pass_score(), elapsed_us, wrong: 0 }),
    {
        Grade { score: language.pass_score(), elapsed_us, wrong: 0 }
    }

    /// The grade of a snippet whose output was not correct.
    pub fn fail(elapsed_us: u64) -> (grade: Grade)
        ensures
            grade == (Grade { score: FAIL_SCORE, elapsed_us, wrong: 1 }),
    {
        Grade { score: FAIL_SCORE, elapsed_us, wrong: 1 }
    }
}

/// The one output that counts as correct: the text `6`, whatever whitespace
/// surrounds it.
pub open spec fn is_correct_output(output: Seq<char>) -> bool {
    trimmed(output) == seq!['6']
}

/// The grade of a snippet whose execution printed `output` and took
/// `elapsed_us` microseconds.
pub open spec fn graded_output(language: Language, output: Seq<char>, elapsed_us: u64) -> Grade {
    if is_correct_output(output) {
        Grade { score: language.pass_score(), elapsed_us, wrong: 0 }
    } else {
        Grade { score: FAIL_SCORE, elapsed_us, wrong: 1 }
    }
}

/// The grade substituted when the execution failed.
pub open spec fn fallback_grade() -> Grade {
    Grade { score: FAIL_SCORE, elapsed_us: 0, wrong: 1 }
}

/// The grade of a snippet, given how its execution ended.
pub open spec fn graded(language: Language, outcome: ExecutionOutcome) -> Grade {
    match outcome {
        ExecutionOutcome::Completed { output, elapsed_us } => graded_output(
            language,
            output@,
            elapsed_us,
        ),
        ExecutionOutcome::Failed => fallback_grade(),
    }
}

/// A snippet whose program prints `6` passes: 92 points in Rust, 88 in
/// TypeScript, nothing wrong, and the time as measured.
pub proof fn lemma_correct_output_passes(language: Language, output: Seq<char>, elapsed_us: u64)
    requires
        is_correct_output(output),
    ensures
        graded_output(language, output, elapsed_us).score == (match language {
            Language::Rust => 92u32,
            Language::TypeScript => 88u32,
        }),
        graded_output(language, output, elapsed_us).wrong == 0,
        graded_output(language, output, elapsed_us).elapsed_us == elapsed_us,
{
}

/// Any other output fails, and so does an execution that failed: 50 points
/// and one wrong in either language. A failed execution counts no time, any
/// other output the time as measured.
pub proof fn lemma_incorrect_or_failed_fails(language: Language, outcome: ExecutionOutcome)
    requires
        outcome matches ExecutionOutcome::Completed { output, .. } ==> !is_correct_output(output@),
    ensures
        graded(language, outcome).score == 50,
        graded(language, outcome).wrong == 1,
        outcome is Failed ==> graded(language, outcome).elapsed_us == 0,
        outcome matches ExecutionOutcome::Completed { elapsed_us, .. } ==> graded(
            language,
            outcome,
        ).elapsed_us == elapsed_us,
{
}

/// Every grade is one of the two grades of its language.
pub proof fn lemma_graded_is_grade_in(language: Language, outcome: ExecutionOutcome)
    ensures
        graded(language, outcome).is_grade_in(language),
{
}

/// Grading what the execution client reports for a reply is grading the raw
/// output of the run stage where the reply is usable, and is the fallback
/// grade where it is not.
pub proof fn lemma_grade_of_reply(
    language: Language,
    outcome: ExecutionOutcome,
    reply: Reply,
    elapsed_us: u64,
)
    requires
        reports(outcome, reply, elapsed_us),
    ensures
        graded(language, outcome) == (if is_usable(reply) {
            graded_output(language, run_output(reply), elapsed_us)
        } else {
            fallback_grade()
        }),
{
    if is_usable(reply) {
        lemma_trimmed_idempotent(run_output(reply));
    }
}

/// Grades the captured output of one execution.
pub fn grade_output(language: Language, output: &str, elapsed_us: u64) -> (grade: Grade)
    ensures
        grade == graded_output(language, output@, elapsed_us),
{
    if is_single_char(output.trim(), '6') {
        Grade::pass(language, elapsed_us)
    } else {
        Grade::fail(elapsed_us)
    }
}

/// Grades one snippet from the outcome of its execution. A failed execution
/// is not an error: it gets the fallback grade.
pub fn grade(language: Language, outcome: &ExecutionOutcome) -> (grade: Grade)
    ensures
        grade == graded(language, *outcome),
{
    match outcome {
        ExecutionOutcome::Completed { output, elapsed_us } => grade_output(
            language,
            output.as_str(),
            *elapsed_us,
        ),
        ExecutionOutcome::Failed => Grade::fail(0),
    }
}

/// The score of a knowledge answer that has been trimmed and lower-cased.
pub open spec fn folded_answer_score(folded: Seq<char>) -> u32 {
    if folded == seq!['b'] {
        AI_PASS_SCORE
    } else {
        FAIL_SCORE
    }
}

/// The score of a knowledge answer as submitted.
pub open spec fn ai_answer_score(answer: Seq<char>) -> u32 {
    folded_answer_score(lowercase_of(trimmed(answer)))
}

/// Scores a knowledge answer that has already been trimmed and lower-cased:
/// the letter `b` passes, everything else fails.
pub fn score_folded_answer(folded: &str) -> (score: u32)
    ensures
        score == folded_answer_score(folded@),
{
    if is_single_char(folded, 'b') {
        AI_PASS_SCORE
    } else {
        FAIL_SCORE
    }
}

/// Scores the answer to the knowledge question: surrounding whitespace and
/// letter case do not matter.
pub fn validate_ai_answer(answer: &str) -> (score: u32)
    ensures
        score == ai_answer_score(answer@),
{
    let folded = answer.trim().to_lowercase();
    score_folded_answer(folded.as_str())
}

} // verus!
