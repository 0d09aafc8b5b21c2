use codle::models::language::Language;
use codle::testrun::{
    parse_c_output, parse_gradle_output, parse_output, parse_pytest_output, parse_rust_output,
    summarize_output, TestSummary,
};

fn counts(s: &TestSummary) -> (usize, usize, usize) {
    (s.passed, s.failed, s.total)
}

fn rust(text: &str) -> (usize, usize, usize) {
    counts(&parse_rust_output("", "", text).unwrap())
}

fn pytest(text: &str) -> (usize, usize, usize) {
    counts(&parse_pytest_output("", "", text).unwrap())
}

fn gradle(text: &str) -> (usize, usize, usize) {
    counts(&parse_gradle_output("", "", text).unwrap())
}

fn c(text: &str) -> (usize, usize, usize) {
    counts(&parse_c_output("", "", text).unwrap())
}

#[test]
fn cargo_summary_line() {
    let text = "running 3 tests\ntest tests::test_1 ... ok\ntest tests::test_2 ... FAILED\ntest tests::test_3 ... ok\n\ntest result: FAILED. 2 passed; 1 failed; 0 ignored; 0 measured; 0 filtered out; finished in 0.00s\n";
    assert_eq!(rust(text), (2, 1, 3));
    assert_eq!(rust("test result: ok. 5 passed; 0 failed; 0 ignored\n"), (5, 0, 5));
    assert_eq!(rust("test result: ok. 5 passed; 0 failed\r\n"), (5, 0, 5));
}

#[test]
fn cargo_takes_the_first_summary_line() {
    let text = "test result: ok. 1 passed; 2 failed;\ntest result: ok. 7 passed; 8 failed;\n";
    assert_eq!(rust(text), (1, 2, 3));
}

#[test]
fn cargo_summary_must_start_the_line() {
    let text = "  test result: ok. 5 passed; 0 failed\ntest a ... ok\n";
    assert_eq!(rust(text), (0 + 1, 0, 1));
}

#[test]
fn cargo_counts_single_tests_without_a_summary() {
    let text = "test a ... ok\ntest b ... FAILED\ntest c ... ok\nnoise\n";
    assert_eq!(rust(text), (2, 1, 3));
    assert_eq!(rust("test result: ok. 0 passed; 0 failed\ntest a ... ok\n"), (1, 0, 1));
    assert_eq!(rust("test a ... ok and then ... FAILED\n"), (1, 0, 1));
}

#[test]
fn cargo_last_failed_part_counts() {
    assert_eq!(rust("test result: x. 4 passed; 1 failed; 3 failed; none failed"), (4, 3, 7));
    assert_eq!(rust("test result: no number here; 2 failed"), (0, 2, 2));
}

#[test]
fn pytest_summary_line() {
    assert_eq!(pytest("===== 3 passed in 0.01s =====\n"), (3, 0, 3));
    assert_eq!(pytest("===== 1 failed in 0.01s =====\n"), (0, 1, 1));
    assert_eq!(pytest("2 passed 1 failed"), (2, 1, 3));
}

#[test]
fn pytest_summary_line_with_both_counts() {
    assert_eq!(pytest("===== 2 passed, 1 failed in 0.00s =====\n"), (2, 1, 3));
    assert_eq!(pytest("===== 1 failed, 2 passed in 0.12s =====\n"), (2, 1, 3));
    assert_eq!(pytest("== 1 failed, 2 passed, 3 skipped in 0.12s ==\n"), (2, 1, 3));
    assert_eq!(pytest("4, passed,, 1 failed,"), (4, 1, 5));
}

#[test]
fn pytest_number_must_stand_before_the_word() {
    assert_eq!(pytest("passed 3"), (0, 0, 0));
    assert_eq!(pytest("3 tests passed"), (0, 0, 0));
    assert_eq!(pytest("3 passed."), (0, 0, 0));
}

#[test]
fn pytest_last_summary_counts() {
    assert_eq!(pytest("1 passed\n5 passed\nx failed\n"), (5, 0, 5));
}

#[test]
fn pytest_counts_single_tests_without_a_summary() {
    let text = "test_solution.py::test_1 PASSED [ 50%]\ntest_solution.py::test_2 FAILED [100%]\n";
    assert_eq!(pytest(text), (1, 1, 2));
    assert_eq!(pytest("a PASSED and FAILED\nFAILED\n"), (1, 1, 2));
}

#[test]
fn gradle_summary_line() {
    assert_eq!(gradle("3 tests completed, 1 failed\n"), (2, 1, 3));
    assert_eq!(gradle("> Task :app:test\n\n12 tests completed, 12 failed\nBUILD FAILED"), (0, 12, 12));
    assert_eq!(gradle("4 tests completed"), (4, 0, 4));
    assert_eq!(gradle("4 tests completed, 1, failed"), (3, 1, 4));
}

#[test]
fn gradle_total_is_the_sum_of_the_counts() {
    let s = parse_gradle_output("", "", "3 tests completed, 5 failed").unwrap();
    assert_eq!((s.passed, s.failed), (0, 5));
    assert_eq!(s.total, s.passed + s.failed);
}

#[test]
fn gradle_counts_single_tests_without_a_summary() {
    let text = "AppTest > test1() PASSED\n  AppTest > test2() FAILED  \nAppTest > test3() PASSED\n\nBUILD FAILED in 2s\nPASSED\n";
    assert_eq!(gradle(text), (2, 1, 3));
    assert_eq!(gradle("0 tests completed, 2 failed\nAppTest > a() FAILED\n"), (0, 1, 1));
    assert_eq!(gradle("0 tests completed, 2 failed\n"), (0, 0, 0));
}

#[test]
fn c_summary_line() {
    assert_eq!(c("Test 1: PASS\nTest 2: FAIL\n\n1/2 tests passed\n"), (1, 1, 2));
    assert_eq!(c("3/3 tests passed"), (3, 0, 3));
    assert_eq!(c(" 2 / 5 tests passed"), (2, 3, 5));
    assert_eq!(c("5/2 tests passed"), (5, 0, 5));
    assert_eq!(c("x/4 tests passed"), (0, 4, 4));
    assert_eq!(c("2/x tests passed"), (2, 0, 2));
}

#[test]
fn c_counts_single_tests_without_a_summary() {
    assert_eq!(c("Test 1: PASS\nTest 2: FAIL (expected 1, got 0)\nTest 3: PASS\n"), (2, 1, 3));
    assert_eq!(c("0/0 tests passed\nTest 1: FAIL\n"), (0, 1, 1));
    assert_eq!(c("no slash but tests passed\nTest 1: PASS\n"), (1, 0, 1));
}

#[test]
fn nothing_recognised_is_no_test_at_all() {
    for lang in [Language::Rs, Language::Py, Language::Kt, Language::Java, Language::C, Language::Cpp] {
        for text in ["", "\n", "error: could not compile\nsee above\n", "Segmentation fault"] {
            let s = parse_output(lang, "", "", text).unwrap();
            assert_eq!((s.passed, s.failed, s.total), (0, 0, 0), "{:?} {:?}", lang, text);
            assert_eq!(s.output, text);
        }
    }
}

#[test]
fn each_language_has_its_reader() {
    let cargo = "test result: ok. 2 passed; 0 failed";
    let c_text = "1/2 tests passed";
    let gradle_text = "3 tests completed, 1 failed";
    assert_eq!(counts(&parse_output(Language::Rs, "", "", cargo).unwrap()), (2, 0, 2));
    assert_eq!(counts(&parse_output(Language::Py, "", "", "4 passed").unwrap()), (4, 0, 4));
    assert_eq!(counts(&parse_output(Language::Kt, "", "", gradle_text).unwrap()), (2, 1, 3));
    assert_eq!(counts(&parse_output(Language::Java, "", "", gradle_text).unwrap()), (2, 1, 3));
    assert_eq!(counts(&parse_output(Language::C, "", "", c_text).unwrap()), (1, 1, 2));
    assert_eq!(counts(&parse_output(Language::Cpp, "", "", c_text).unwrap()), (1, 1, 2));
    assert_eq!(counts(&parse_output(Language::Rs, "", "", c_text).unwrap()), (0, 0, 0));
}

#[test]
fn the_transcript_is_kept() {
    let text = "out\nerr\ntest result: ok. 1 passed; 0 failed";
    let s = parse_rust_output("out", "err", text).unwrap();
    assert_eq!(s.output, text);
}

#[test]
fn counts_beyond_the_machine_are_an_error() {
    let big = usize::MAX.to_string();
    let text = format!("test result: x. {} passed; 1 failed", big);
    assert_eq!(parse_rust_output("", "", &text).unwrap_err(), "Test counts out of range");
    let text = format!("{} passed {} failed", big, big);
    assert_eq!(parse_pytest_output("", "", &text).unwrap_err(), "Test counts out of range");
    let text = format!("1 tests completed, {} failed", big);
    assert_eq!(gradle(&text), (0, usize::MAX, usize::MAX));
    let text = format!("test result: x. {} passed; 0 failed", big);
    assert_eq!(rust(&text), (usize::MAX, 0, usize::MAX));
    let text = format!("test result: x. {}0 passed; 3 failed", big);
    assert_eq!(rust(&text), (0, 3, 3));
}

fn first_number(part: &str) -> Option<usize> {
    part.split_whitespace().find_map(|word| word.parse::<usize>().ok())
}

fn number_before(words: &[&str], label: &str, strip: bool, start: usize) -> usize {
    let mut value = start;
    let read = |word: &str| if strip { word.trim_end_matches(',').to_string() } else { word.to_string() };
    for i in 1..words.len() {
        if read(words[i]) == label {
            if let Ok(n) = read(words[i - 1]).parse::<usize>() {
                value = n;
            }
        }
    }
    value
}

fn markers(text: &str, pass: &str, fail: &str) -> (usize, usize) {
    let mut counts = (0, 0);
    for line in text.lines() {
        if line.contains(pass) {
            counts.0 += 1;
        } else if line.contains(fail) {
            counts.1 += 1;
        }
    }
    counts
}

fn cargo_by_hand(text: &str) -> (usize, usize) {
    let mut counts = (0, 0);
    if let Some(line) = text.lines().find(|line| line.starts_with("test result:")) {
        if let Some(n) = line.split(';').next().and_then(first_number) {
            counts.0 = n;
        }
        for part in line.split(';') {
            if part.contains("failed") {
                if let Some(n) = first_number(part) {
                    counts.1 = n;
                }
            }
        }
    }
    if counts == (0, 0) {
        counts = markers(text, " ... ok", " ... FAILED");
    }
    counts
}

fn pytest_by_hand(text: &str) -> (usize, usize) {
    let mut counts = (0, 0);
    for line in text.lines() {
        if line.contains("passed") || line.contains("failed") {
            let words: Vec<&str> = line.split_whitespace().collect();
            counts.0 = number_before(&words, "passed", true, counts.0);
            counts.1 = number_before(&words, "failed", true, counts.1);
        }
    }
    if counts == (0, 0) {
        counts = markers(text, "PASSED", "FAILED");
    }
    counts
}

fn gradle_by_hand(text: &str) -> (usize, usize) {
    let mut completed = 0;
    let mut failed = 0;
    if let Some(line) = text.lines().find(|line| line.contains("tests completed")) {
        let words: Vec<&str> = line.split_whitespace().collect();
        completed = number_before(&words, "tests", false, 0);
        failed = number_before(&words, "failed", true, 0);
    }
    if completed == 0 {
        let mut passed = 0;
        failed = 0;
        for line in text.lines() {
            let line = line.trim();
            if line.contains("()") {
                if line.ends_with("PASSED") {
                    passed += 1;
                } else if line.ends_with("FAILED") {
                    failed += 1;
                }
            }
        }
        (passed, failed)
    } else {
        (completed.saturating_sub(failed), failed)
    }
}

fn c_by_hand(text: &str) -> (usize, usize) {
    let mut counts = (0, 0);
    if let Some(line) = text.lines().find(|line| line.contains("tests passed")) {
        let parts: Vec<&str> = line.split('/').collect();
        if parts.len() >= 2 {
            if let Ok(n) = parts[0].trim().parse::<usize>() {
                counts.0 = n;
            }
            let ran = parts[1].split_whitespace().next().unwrap_or("0");
            if let Ok(n) = ran.parse::<usize>() {
                counts.1 = n.saturating_sub(counts.0);
            }
        }
    }
    if counts == (0, 0) {
        counts = markers(text, ": PASS", ": FAIL");
    }
    counts
}

fn transcripts(count: usize) -> Vec<String> {
    let tokens = [
        "test result:", "test", "result:", "ok.", "passed", "failed", "passed,", "failed,", "0",
        "3", "12", "5,", "7;", ";", " ... ok", " ... FAILED", "tests", "completed,",
        "tests completed", "()", "PASSED", "FAILED", "/", "tests passed", ": PASS", ": FAIL", ",",
        " ", "  ", "\n", "\n", "\r\n", "x", "AppTest > a()", "=====", "2/3", "in 0.1s",
    ];
    let mut state: u64 = 0x9E3779B97F4A7C15;
    let mut out = Vec::new();
    for _ in 0..count {
        state = state.wrapping_mul(6364136223846793005).wrapping_add(1442695040888963407);
        let len = (state >> 58) as usize;
        let mut s = String::new();
        for _ in 0..len {
            state = state.wrapping_mul(6364136223846793005).wrapping_add(1442695040888963407);
            s.push_str(tokens[(state >> 33) as usize % tokens.len()]);
            state = state.wrapping_mul(6364136223846793005).wrapping_add(1442695040888963407);
            if (state >> 40) % 3 != 0 {
                s.push(' ');
            }
        }
        out.push(s);
    }
    out
}

#[test]
fn many_transcripts_read_by_hand_and_by_the_library() {
    for text in transcripts(4000) {
        let by_hand = cargo_by_hand(&text);
        assert_eq!(rust(&text), (by_hand.0, by_hand.1, by_hand.0 + by_hand.1), "{:?}", text);
        let by_hand = pytest_by_hand(&text);
        assert_eq!(pytest(&text), (by_hand.0, by_hand.1, by_hand.0 + by_hand.1), "{:?}", text);
        let by_hand = gradle_by_hand(&text);
        assert_eq!(gradle(&text), (by_hand.0, by_hand.1, by_hand.0 + by_hand.1), "{:?}", text);
        let by_hand = c_by_hand(&text);
        assert_eq!(c(&text), (by_hand.0, by_hand.1, by_hand.0 + by_hand.1), "{:?}", text);
    }
}

#[test]
fn output_and_errors_are_read_together() {
    let s = summarize_output(Language::Rs, "test a ... ok", "test b ... FAILED").unwrap();
    assert_eq!(counts(&s), (1, 1, 2));
    assert_eq!(s.output, "test a ... ok\ntest b ... FAILED");
    let s = summarize_output(Language::C, "", "").unwrap();
    assert_eq!(counts(&s), (0, 0, 0));
    assert_eq!(s.output, "\n");
    let s = summarize_output(Language::Py, "noise", "2 passed").unwrap();
    assert_eq!(counts(&s), (2, 0, 2));
}
