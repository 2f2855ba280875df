use assessment_backend::execution::{ExecutionOutcome, ExecutionRequest};
use assessment_backend::grading::{
    execution_request, grade, grade_output, harness, score_folded_answer, validate_ai_answer,
    Grade, Language, AI_PASS_SCORE, COMPILE_TIMEOUT_MS, FAIL_SCORE, RUN_TIMEOUT_MS,
    RUST_PASS_SCORE, TS_PASS_SCORE,
};

fn triple(grade: &Grade) -> (u32, u64, u32) {
    (grade.score, grade.elapsed_us, grade.wrong)
}

fn completed(output: &str, elapsed_us: u64) -> ExecutionOutcome {
    ExecutionOutcome::Completed { output: output.to_string(), elapsed_us }
}

#[test]
fn score_constants() {
    assert_eq!(RUST_PASS_SCORE, 92);
    assert_eq!(TS_PASS_SCORE, 88);
    assert_eq!(AI_PASS_SCORE, 92);
    assert_eq!(FAIL_SCORE, 50);
    assert_eq!(COMPILE_TIMEOUT_MS, 10000);
    assert_eq!(RUN_TIMEOUT_MS, 3000);
}

#[test]
fn language_parameters() {
    assert_eq!(Language::Rust.identifier(), "rust");
    assert_eq!(Language::Rust.version(), "1.68.0");
    assert_eq!(Language::Rust.file_name(), "main.rs");
    assert_eq!(Language::Rust.pass_score(), 92);
    assert_eq!(Language::TypeScript.identifier(), "typescript");
    assert_eq!(Language::TypeScript.version(), "5.0.3");
    assert_eq!(Language::TypeScript.file_name(), "main.ts");
    assert_eq!(Language::TypeScript.pass_score(), 88);
}

#[test]
fn rust_harness_text() {
    let program = harness(Language::Rust, "fn sum(v: Vec<i32>) -> i32 { v.iter().sum() }");
    let expected = "\n        fn sum(v: Vec<i32>) -> i32 { v.iter().sum() }\n\n        fn main() {\n            let result = sum(vec![1, 2, 3]);\n            println!(\"{}\", result);\n        }\n        ";
    assert_eq!(program, expected);
}

#[test]
fn typescript_harness_text() {
    let program = harness(Language::TypeScript, "function sum(v){return v.reduce((a,b)=>a+b,0)}");
    let expected = "\n        function sum(v){return v.reduce((a,b)=>a+b,0)}\n\n        console.log(sum([1, 2, 3]));\n        ";
    assert_eq!(program, expected);
}

#[test]
fn harness_of_empty_snippet() {
    assert_eq!(
        harness(Language::TypeScript, ""),
        "\n        \n\n        console.log(sum([1, 2, 3]));\n        "
    );
}

#[test]
fn harness_keeps_braces_of_the_snippet() {
    let program = harness(Language::Rust, "{{}}");
    assert!(program.starts_with("\n        {{}}\n\n        fn main() {\n"));
}

fn check_request(request: &ExecutionRequest, language: Language, code: &str) {
    assert_eq!(request.language, language.identifier());
    assert_eq!(request.version, language.version());
    assert_eq!(request.files.len(), 1);
    assert_eq!(request.files[0].name, language.file_name());
    assert_eq!(request.files[0].content, harness(language, code));
    assert_eq!(request.stdin, "");
    assert!(request.args.is_empty());
    assert_eq!(request.compile_timeout, 10000);
    assert_eq!(request.run_timeout, 3000);
}

#[test]
fn rust_execution_request() {
    let request = execution_request(Language::Rust, "fn sum(v: Vec<i32>) -> i32 { 6 }");
    check_request(&request, Language::Rust, "fn sum(v: Vec<i32>) -> i32 { 6 }");
    assert_eq!(request.language, "rust");
    assert_eq!(request.version, "1.68.0");
    assert_eq!(request.files[0].name, "main.rs");
}

#[test]
fn typescript_execution_request() {
    let request = execution_request(Language::TypeScript, "const sum = () => 6");
    check_request(&request, Language::TypeScript, "const sum = () => 6");
    assert_eq!(request.language, "typescript");
    assert_eq!(request.version, "5.0.3");
    assert_eq!(request.files[0].name, "main.ts");
}

#[test]
fn correct_output_passes_in_rust() {
    assert_eq!(triple(&grade_output(Language::Rust, "6", 1500)), (92, 1500, 0));
}

#[test]
fn correct_output_passes_in_typescript() {
    assert_eq!(triple(&grade_output(Language::TypeScript, "6", 800)), (88, 800, 0));
}

#[test]
fn surrounding_whitespace_is_ignored() {
    assert_eq!(triple(&grade_output(Language::Rust, "6\n", 10)), (92, 10, 0));
    assert_eq!(triple(&grade_output(Language::Rust, "  6\t\r\n", 10)), (92, 10, 0));
    assert_eq!(triple(&grade_output(Language::TypeScript, "\n6 ", 10)), (88, 10, 0));
    assert_eq!(triple(&grade_output(Language::Rust, "\u{a0}6\u{2003}\u{3000}", 10)), (92, 10, 0));
    assert_eq!(triple(&grade_output(Language::Rust, "\u{85}6\u{2028}\u{2029}\u{1680}", 10)), (92, 10, 0));
    assert_eq!(triple(&grade_output(Language::Rust, "\u{202f}\u{205f}6\u{b}\u{c}", 10)), (92, 10, 0));
}

#[test]
fn characters_that_are_not_whitespace_are_kept() {
    assert_eq!(triple(&grade_output(Language::Rust, "\u{200b}6", 10)), (50, 10, 1));
    assert_eq!(triple(&grade_output(Language::Rust, "6\u{feff}", 10)), (50, 10, 1));
    assert_eq!(triple(&grade_output(Language::Rust, "\u{180e}6", 10)), (50, 10, 1));
    assert_eq!(triple(&grade_output(Language::Rust, "\u{1c}6", 10)), (50, 10, 1));
    assert_eq!(triple(&grade_output(Language::Rust, "6\u{200b}", 10)), (50, 10, 1));
}

#[test]
fn other_output_fails() {
    for output in ["", " ", "7", "66", "6 6", "6.0", "six", "06", "error: 6", "６"] {
        assert_eq!(triple(&grade_output(Language::Rust, output, 42)), (50, 42, 1), "{:?}", output);
        assert_eq!(
            triple(&grade_output(Language::TypeScript, output, 42)),
            (50, 42, 1),
            "{:?}",
            output
        );
    }
}

#[test]
fn grade_of_completed_execution() {
    assert_eq!(triple(&grade(Language::Rust, &completed("6", 2500))), (92, 2500, 0));
    assert_eq!(triple(&grade(Language::TypeScript, &completed("6", 2500))), (88, 2500, 0));
    assert_eq!(triple(&grade(Language::Rust, &completed("5", 2500))), (50, 2500, 1));
    assert_eq!(triple(&grade(Language::TypeScript, &completed("", 0))), (50, 0, 1));
}

#[test]
fn grade_of_untrimmed_outcome() {
    assert_eq!(triple(&grade(Language::Rust, &completed(" 6\n", 3))), (92, 3, 0));
}

#[test]
fn failed_execution_gets_fallback_grade() {
    assert_eq!(triple(&grade(Language::Rust, &ExecutionOutcome::Failed)), (50, 0, 1));
    assert_eq!(triple(&grade(Language::TypeScript, &ExecutionOutcome::Failed)), (50, 0, 1));
}

#[test]
fn pass_and_fail_constructors() {
    assert_eq!(triple(&Grade::pass(Language::Rust, 7)), (92, 7, 0));
    assert_eq!(triple(&Grade::pass(Language::TypeScript, 7)), (88, 7, 0));
    assert_eq!(triple(&Grade::fail(7)), (50, 7, 1));
    assert_eq!(Grade::fail(0), grade(Language::Rust, &ExecutionOutcome::Failed));
}

#[test]
fn elapsed_time_limits() {
    assert_eq!(triple(&grade_output(Language::Rust, "6", u64::MAX)), (92, u64::MAX, 0));
    assert_eq!(triple(&grade_output(Language::Rust, "x", u64::MAX)), (50, u64::MAX, 1));
}

#[test]
fn knowledge_answer_b_passes() {
    assert_eq!(validate_ai_answer("B"), 92);
    assert_eq!(validate_ai_answer(" b "), 92);
    assert_eq!(validate_ai_answer("b"), 92);
}

#[test]
fn knowledge_answer_other_fails() {
    assert_eq!(validate_ai_answer("a"), 50);
    assert_eq!(validate_ai_answer(""), 50);
}

#[test]
fn knowledge_answer_edge_cases() {
    assert_eq!(validate_ai_answer("\tB\r\n"), 92);
    assert_eq!(validate_ai_answer("\u{a0}b\u{3000}"), 92);
    assert_eq!(validate_ai_answer("bb"), 50);
    assert_eq!(validate_ai_answer("b b"), 50);
    assert_eq!(validate_ai_answer("   "), 50);
    assert_eq!(validate_ai_answer("c"), 50);
    assert_eq!(validate_ai_answer("(b)"), 50);
    assert_eq!(validate_ai_answer("ｂ"), 50);
    assert_eq!(validate_ai_answer("Ｂ"), 50);
    assert_eq!(validate_ai_answer("Hugging Face"), 50);
}

#[test]
fn folded_answer_is_compared_exactly() {
    assert_eq!(score_folded_answer("b"), 92);
    assert_eq!(score_folded_answer("B"), 50);
    assert_eq!(score_folded_answer(" b"), 50);
    assert_eq!(score_folded_answer(""), 50);
    assert_eq!(score_folded_answer("a"), 50);
}

fn has_white_space_property(c: char) -> bool {
    matches!(
        c,
        '\u{9}'..='\u{d}'
            | ' '
            | '\u{85}'
            | '\u{a0}'
            | '\u{1680}'
            | '\u{2000}'..='\u{200a}'
            | '\u{2028}'
            | '\u{2029}'
            | '\u{202f}'
            | '\u{205f}'
            | '\u{3000}'
    )
}

#[test]
fn exactly_the_white_space_characters_are_trimmed() {
    let mut trimmed_chars = 0;
    for code in 0..=0x10ffffu32 {
        if let Some(c) = char::from_u32(code) {
            let before = grade_output(Language::Rust, &format!("{}6", c), 0).wrong == 0;
            let after = grade_output(Language::Rust, &format!("6{}", c), 0).wrong == 0;
            assert_eq!(before, has_white_space_property(c), "U+{:04X} before", code);
            assert_eq!(after, has_white_space_property(c), "U+{:04X} after", code);
            if before {
                trimmed_chars += 1;
            }
        }
    }
    assert_eq!(trimmed_chars, 25);
}

#[test]
fn exactly_two_single_characters_pass_the_knowledge_question() {
    let mut passing = Vec::new();
    for code in 0..=0x10ffffu32 {
        if let Some(c) = char::from_u32(code) {
            if validate_ai_answer(&c.to_string()) == 92 {
                passing.push(c);
            }
        }
    }
    assert_eq!(passing, ['B', 'b']);
}
