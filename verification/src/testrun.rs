//! Reading the transcript of a test run back into counts of passed and
//! failed tests.
//!
//! Each test runner is read in two steps. First its summary is looked for,
//! in the shape that the runner writes it. Where that gives no count, the
//! lines that report single tests are counted instead. A transcript with
//! neither gives zero tests, which says that nothing is known to have run.
use vstd::prelude::*;
use vstd::string::*;
use crate::models::language::Language;
use crate::text::{
    contains, decimal, decimal_string, ends_with, has_prefix, has_suffix, lemma_pieces_nonempty,
    lines, lines_of, occurs_in, parse_usize, pieces, same, split, split_whitespace, starts_with,
    to_chars, trim, trim_end_matches, trimmed, usize_of, views, without_trailing, words,
};

verus! {

/// The outcome of a test run: how many tests passed and failed, their sum,
/// and the transcript that the counts were read from.
#[derive(Debug)]
pub struct TestSummary {
    pub passed: usize,
    pub failed: usize,
    pub total: usize,
    pub output: String,
}

/// The tests that passed and that failed, as numbers without a bound.
pub struct Counts {
    pub passed: nat,
    pub failed: nat,
}

impl Counts {
    /// No test at all.
    pub open spec fn none() -> Counts {
        Counts { passed: 0, failed: 0 }
    }

    /// Whether no test is counted.
    pub open spec fn is_none(self) -> bool {
        self.passed == 0 && self.failed == 0
    }
}

/// Whether `line` shows `mark`: at its start where `at_start` is set, and
/// anywhere else.
pub open spec fn shows(line: Seq<char>, mark: Seq<char>, at_start: bool) -> bool {
    if at_start {
        has_prefix(line, mark)
    } else {
        occurs_in(line, mark)
    }
}

/// The index of the first of `lines` at or after `i` that shows `mark`, or
/// the number of lines where none does.
pub open spec fn next_showing(lines: Seq<Seq<char>>, mark: Seq<char>, at_start: bool, i: int) -> int
    decreases lines.len() - i,
{
    if 0 <= i < lines.len() && !shows(lines[i], mark, at_start) {
        next_showing(lines, mark, at_start, i + 1)
    } else {
        i
    }
}

/// The number that the first of `words` at or after `i` that writes one
/// writes.
pub open spec fn first_number_from(words: Seq<Seq<char>>, i: int) -> Option<usize>
    decreases words.len() - i,
{
    if i < 0 || i >= words.len() {
        None
    } else {
        match usize_of(words[i]) {
            Some(n) => Some(n),
            None => first_number_from(words, i + 1),
        }
    }
}

/// The first number among the words of `s`.
pub open spec fn first_number(s: Seq<char>) -> Option<usize> {
    first_number_from(words(s), 0)
}

/// A word as it is read: where `strip` is set, commas behind it do not
/// count.
pub open spec fn read_word(word: Seq<char>, strip: bool) -> Seq<char> {
    if strip {
        without_trailing(word, ',')
    } else {
        word
    }
}

/// The number that stands before the word `label` among the first `n` of
/// `words`: that of the last place where `label` stands and the word before
/// it writes a number, and `start` where there is no such place. Where
/// `strip` is set, commas behind a word do not count, neither behind `label`
/// nor behind the number.
pub open spec fn number_before(
    words: Seq<Seq<char>>,
    label: Seq<char>,
    strip: bool,
    start: nat,
    n: int,
) -> nat
    decreases n,
{
    if n <= 0 || n > words.len() {
        start
    } else if n >= 2 && read_word(words[n - 1], strip) == label {
        match usize_of(read_word(words[n - 2], strip)) {
            Some(v) => v as nat,
            None => number_before(words, label, strip, start, n - 1),
        }
    } else {
        number_before(words, label, strip, start, n - 1)
    }
}

/// The tests among the first `n` of `lines` that are reported one by one: a
/// line that holds `pass` counts as passed, and any other line that holds
/// `fail` as failed.
pub open spec fn marker_counts(lines: Seq<Seq<char>>, pass: Seq<char>, fail: Seq<char>, n: int) -> Counts
    decreases n,
{
    if n <= 0 || n > lines.len() {
        Counts::none()
    } else {
        let before = marker_counts(lines, pass, fail, n - 1);
        if occurs_in(lines[n - 1], pass) {
            Counts { passed: before.passed + 1, failed: before.failed }
        } else if occurs_in(lines[n - 1], fail) {
            Counts { passed: before.passed, failed: before.failed + 1 }
        } else {
            before
        }
    }
}

/// The failed tests that the first `n` parts of cargo's summary line tell
/// of: the first number in the last part that holds `failed` and a number.
pub open spec fn rust_failed(parts: Seq<Seq<char>>, n: int) -> nat
    decreases n,
{
    if n <= 0 || n > parts.len() {
        0
    } else if occurs_in(parts[n - 1], "failed"@) {
        match first_number(parts[n - 1]) {
            Some(v) => v as nat,
            None => rust_failed(parts, n - 1),
        }
    } else {
        rust_failed(parts, n - 1)
    }
}

/// What cargo's summary line tells: its parts lie between semicolons, the
/// first number of the first part counts the passed tests.
pub open spec fn rust_summary(line: Seq<char>) -> Counts {
    let parts = pieces(line, ';');
    Counts {
        passed: match first_number(parts[0]) {
            Some(v) => v as nat,
            None => 0,
        },
        failed: rust_failed(parts, parts.len() as int),
    }
}

/// The counts that a transcript of `cargo test` gives: those of the first
/// line that begins with `test result:`; where they are zero or there is no
/// such line, the lines that end a test with ` ... ok` or ` ... FAILED`.
pub open spec fn rust_counts(text: Seq<char>) -> Counts {
    let all = lines_of(text);
    let k = next_showing(all, "test result:"@, true, 0);
    let summary = if 0 <= k < all.len() {
        rust_summary(all[k])
    } else {
        Counts::none()
    };
    if summary.is_none() {
        marker_counts(all, " ... ok"@, " ... FAILED"@, all.len() as int)
    } else {
        summary
    }
}

/// What one line of a pytest transcript adds to the counts `so_far`: in a
/// line that holds `passed` or `failed`, a number before the word `passed`
/// or `failed` sets that count. The commas that set the counts of a summary
/// apart do not count.
pub open spec fn pytest_line(line: Seq<char>, so_far: Counts) -> Counts {
    if occurs_in(line, "passed"@) || occurs_in(line, "failed"@) {
        let w = words(line);
        Counts {
            passed: number_before(w, "passed"@, true, so_far.passed, w.len() as int),
            failed: number_before(w, "failed"@, true, so_far.failed, w.len() as int),
        }
    } else {
        so_far
    }
}

/// What the first `n` lines of a pytest transcript tell in their summaries.
pub open spec fn pytest_summary(lines: Seq<Seq<char>>, n: int) -> Counts
    decreases n,
{
    if n <= 0 || n > lines.len() {
        Counts::none()
    } else {
        pytest_line(lines[n - 1], pytest_summary(lines, n - 1))
    }
}

/// The counts that a transcript of pytest gives: those of its summaries,
/// such as `2 passed, 1 failed in 0.12s`, of which the last one counts;
/// where they are zero, the lines that hold `PASSED` or `FAILED`.
pub open spec fn pytest_counts(text: Seq<char>) -> Counts {
    let all = lines_of(text);
    let summary = pytest_summary(all, all.len() as int);
    if summary.is_none() {
        marker_counts(all, "PASSED"@, "FAILED"@, all.len() as int)
    } else {
        summary
    }
}

/// The tests among the first `n` lines of a Gradle transcript that are
/// reported one by one: a line that names a test method, with `()`, and ends
/// with `PASSED` or `FAILED`, white space around the line aside.
pub open spec fn gradle_marker_counts(lines: Seq<Seq<char>>, n: int) -> Counts
    decreases n,
{
    if n <= 0 || n > lines.len() {
        Counts::none()
    } else {
        let before = gradle_marker_counts(lines, n - 1);
        let line = trimmed(lines[n - 1]);
        if occurs_in(line, "()"@) && has_suffix(line, "PASSED"@) {
            Counts { passed: before.passed + 1, failed: before.failed }
        } else if occurs_in(line, "()"@) && has_suffix(line, "FAILED"@) {
            Counts { passed: before.passed, failed: before.failed + 1 }
        } else {
            before
        }
    }
}

/// The number of tests that Gradle's summary line says were run: the number
/// before the word `tests`.
pub open spec fn gradle_completed(line: Seq<char>) -> nat {
    number_before(words(line), "tests"@, false, 0, words(line).len() as int)
}

/// The number of tests that Gradle's summary line says failed: the number
/// before the word `failed`.
pub open spec fn gradle_failed(line: Seq<char>) -> nat {
    number_before(words(line), "failed"@, true, 0, words(line).len() as int)
}

/// The counts that a transcript of Gradle gives. The first line that holds
/// `tests completed` tells how many tests ran and how many of them failed;
/// the others passed. Where no test is said to have run, or there is no such
/// line, the tests that are reported one by one are counted instead.
pub open spec fn gradle_counts(text: Seq<char>) -> Counts {
    let all = lines_of(text);
    let k = next_showing(all, "tests completed"@, false, 0);
    let completed = if 0 <= k < all.len() {
        gradle_completed(all[k])
    } else {
        0
    };
    let failed = if 0 <= k < all.len() {
        gradle_failed(all[k])
    } else {
        0
    };
    if completed == 0 {
        gradle_marker_counts(all, all.len() as int)
    } else if failed <= completed {
        Counts { passed: (completed - failed) as nat, failed }
    } else {
        Counts { passed: 0, failed }
    }
}

/// What the summary line of the C and C++ test programs tells: before the
/// first `/` the passed tests, behind it the tests that ran; those that did
/// not pass failed. Where the passed tests are no number, none passed; where
/// the tests that ran are no number, none failed. A line without `/` tells
/// nothing.
pub open spec fn c_summary(line: Seq<char>) -> Counts {
    let parts = pieces(line, '/');
    if parts.len() >= 2 {
        let passed: nat = match usize_of(trimmed(parts[0])) {
            Some(v) => v as nat,
            None => 0,
        };
        let w = words(parts[1]);
        let ran: Option<usize> = if w.len() > 0 {
            usize_of(w[0])
        } else {
            Some(0)
        };
        Counts {
            passed,
            failed: match ran {
                Some(v) => if v >= passed {
                    (v - passed) as nat
                } else {
                    0
                },
                None => 0,
            },
        }
    } else {
        Counts::none()
    }
}

/// The counts that a transcript of the C or C++ test program gives: those of
/// the first line that holds `tests passed`; where they are zero or there is
/// no such line, the lines that hold `: PASS` or `: FAIL`.
pub open spec fn c_counts(text: Seq<char>) -> Counts {
    let all = lines_of(text);
    let k = next_showing(all, "tests passed"@, false, 0);
    let summary = if 0 <= k < all.len() {
        c_summary(all[k])
    } else {
        Counts::none()
    };
    if summary.is_none() {
        marker_counts(all, ": PASS"@, ": FAIL"@, all.len() as int)
    } else {
        summary
    }
}

/// The counts that a transcript of the test runner of `lang` gives.
pub open spec fn counts_of(lang: Language, text: Seq<char>) -> Counts {
    match lang {
        Language::Rs => rust_counts(text),
        Language::Py => pytest_counts(text),
        Language::Kt => gradle_counts(text),
        Language::Java => gradle_counts(text),
        Language::C => c_counts(text),
        Language::Cpp => c_counts(text),
    }
}

/// Whether `r` reports `counts` for the transcript `text`: the summary holds
/// the counts, their sum and the transcript. Counts whose sum is beyond
/// `usize` are reported as an error.
pub open spec fn reports(r: Result<TestSummary, String>, counts: Counts, text: Seq<char>) -> bool {
    if counts.passed + counts.failed <= usize::MAX {
        r matches Ok(s) && s.passed == counts.passed && s.failed == counts.failed && s.total
            == counts.passed + counts.failed && s.output@ == text
    } else {
        r matches Err(e) && e@ == "Test counts out of range"@
    }
}

/// The summary for `passed` and `failed` tests.
fn summarize(passed: usize, failed: usize, combined: &str) -> (r: Result<TestSummary, String>)
    ensures
        reports(r, (Counts { passed: passed as nat, failed: failed as nat }), combined@),
{
    if passed > usize::MAX - failed {
        Err(String::from_str("Test counts out of range"))
    } else {
        Ok(TestSummary { passed, failed, total: passed + failed, output: String::from_str(combined) })
    }
}

/// The index of the first of `lines` that shows `mark`, or their number.
fn find_line(lines: &Vec<&[char]>, mark: &str, at_start: bool) -> (r: usize)
    ensures
        r == next_showing(views(lines@), mark@, at_start, 0),
        r <= lines@.len(),
{
    let pattern = to_chars(mark);
    let mut i: usize = 0;
    while i < lines.len()
        invariant
            i <= lines@.len(),
            pattern@ == mark@,
            next_showing(views(lines@), mark@, at_start, i as int) == next_showing(
                views(lines@),
                mark@,
                at_start,
                0,
            ),
        decreases lines@.len() - i,
    {
        let found = if at_start {
            starts_with(lines[i], pattern.as_slice())
        } else {
            contains(lines[i], pattern.as_slice())
        };
        if found {
            return i;
        }
        i += 1;
    }
    i
}

/// The first number among the words of `s`.
fn find_number(s: &[char]) -> (r: Option<usize>)
    ensures
        r == first_number(s@),
{
    let w = split_whitespace(s);
    let mut i: usize = 0;
    while i < w.len()
        invariant
            i <= w@.len(),
            views(w@) == words(s@),
            first_number_from(words(s@), i as int) == first_number(s@),
        decreases w@.len() - i,
    {
        assert(views(w@)[i as int] == w@[i as int]@);
        match parse_usize(w[i]) {
            Some(n) => {
                return Some(n);
            },
            None => {},
        }
        i += 1;
    }
    None
}

/// A word as it is read.
fn read<'a>(word: &'a [char], strip: bool) -> (r: &'a [char])
    ensures
        r@ == read_word(word@, strip),
{
    if strip {
        trim_end_matches(word, ',')
    } else {
        word
    }
}

/// The number that stands before the word `label` among `words`, or `start`.
fn find_number_before(words: &Vec<&[char]>, label: &str, strip: bool, start: usize) -> (r: usize)
    ensures
        r == number_before(views(words@), label@, strip, start as nat, words@.len() as int),
{
    let pattern = to_chars(label);
    let mut value: usize = start;
    let mut i: usize = 0;
    while i < words.len()
        invariant
            i <= words@.len(),
            pattern@ == label@,
            value == number_before(views(words@), label@, strip, start as nat, i as int),
        decreases words@.len() - i,
    {
        assert(views(words@)[i as int] == words@[i as int]@);
        if i > 0 && same(read(words[i], strip), pattern.as_slice()) {
            assert(views(words@)[i - 1] == words@[i - 1]@);
            match parse_usize(read(words[i - 1], strip)) {
                Some(n) => {
                    value = n;
                },
                None => {},
            }
        }
        i += 1;
    }
    value
}

/// Counts the tests that `lines` report one by one.
fn count_markers(lines: &Vec<&[char]>, pass: &str, fail: &str) -> (r: (usize, usize))
    ensures
        r.0 == marker_counts(views(lines@), pass@, fail@, lines@.len() as int).passed,
        r.1 == marker_counts(views(lines@), pass@, fail@, lines@.len() as int).failed,
        r.0 + r.1 <= lines@.len(),
{
    let pass_mark = to_chars(pass);
    let fail_mark = to_chars(fail);
    let mut passed: usize = 0;
    let mut failed: usize = 0;
    let mut i: usize = 0;
    while i < lines.len()
        invariant
            i <= lines@.len(),
            pass_mark@ == pass@,
            fail_mark@ == fail@,
            passed + failed <= i,
            passed == marker_counts(views(lines@), pass@, fail@, i as int).passed,
            failed == marker_counts(views(lines@), pass@, fail@, i as int).failed,
        decreases lines@.len() - i,
    {
        assert(views(lines@)[i as int] == lines@[i as int]@);
        if contains(lines[i], pass_mark.as_slice()) {
            passed += 1;
        } else if contains(lines[i], fail_mark.as_slice()) {
            failed += 1;
        }
        i += 1;
    }
    (passed, failed)
}

/// Reads what cargo's summary line tells.
fn read_rust_summary(line: &[char]) -> (r: (usize, usize))
    ensures
        r.0 == rust_summary(line@).passed,
        r.1 == rust_summary(line@).failed,
{
    let parts = split(line, ';');
    proof {
        lemma_pieces_nonempty(line@, ';', 0);
    }
    assert(views(parts@)[0] == parts@[0]@);
    let passed: usize = match find_number(parts[0]) {
        Some(n) => n,
        None => 0,
    };
    let mark = to_chars("failed");
    let mut failed: usize = 0;
    let mut i: usize = 0;
    while i < parts.len()
        invariant
            i <= parts@.len(),
            mark@ == "failed"@,
            views(parts@) == pieces(line@, ';'),
            failed == rust_failed(pieces(line@, ';'), i as int),
        decreases parts@.len() - i,
    {
        assert(views(parts@)[i as int] == parts@[i as int]@);
        if contains(parts[i], mark.as_slice()) {
            match find_number(parts[i]) {
                Some(n) => {
                    failed = n;
                },
                None => {},
            }
        }
        i += 1;
    }
    (passed, failed)
}

/// Reads the counts from a transcript of `cargo test`.
pub fn parse_rust_output(_stdout: &str, _stderr: &str, combined: &str) -> (r: Result<
    TestSummary,
    String,
>)
    ensures
        reports(r, rust_counts(combined@), combined@),
{
    let chars = to_chars(combined);
    let all = lines(chars.as_slice());
    let k = find_line(&all, "test result:", true);
    let mut counts: (usize, usize) = (0, 0);
    if k < all.len() {
        assert(views(all@)[k as int] == all@[k as int]@);
        counts = read_rust_summary(all[k]);
    }
    if counts.0 == 0 && counts.1 == 0 {
        counts = count_markers(&all, " ... ok", " ... FAILED");
    }
    summarize(counts.0, counts.1, combined)
}

/// Reads the counts from a transcript of pytest.
pub fn parse_pytest_output(_stdout: &str, _stderr: &str, combined: &str) -> (r: Result<
    TestSummary,
    String,
>)
    ensures
        reports(r, pytest_counts(combined@), combined@),
{
    let chars = to_chars(combined);
    let all = lines(chars.as_slice());
    let passed_mark = to_chars("passed");
    let failed_mark = to_chars("failed");
    let mut passed: usize = 0;
    let mut failed: usize = 0;
    let mut i: usize = 0;
    while i < all.len()
        invariant
            i <= all@.len(),
            passed_mark@ == "passed"@,
            failed_mark@ == "failed"@,
            passed == pytest_summary(views(all@), i as int).passed,
            failed == pytest_summary(views(all@), i as int).failed,
        decreases all@.len() - i,
    {
        assert(views(all@)[i as int] == all@[i as int]@);
        let line = all[i];
        if contains(line, passed_mark.as_slice()) || contains(line, failed_mark.as_slice()) {
            let w = split_whitespace(line);
            passed = find_number_before(&w, "passed", true, passed);
            failed = find_number_before(&w, "failed", true, failed);
        }
        i += 1;
    }
    if passed == 0 && failed == 0 {
        let counts = count_markers(&all, "PASSED", "FAILED");
        passed = counts.0;
        failed = counts.1;
    }
    summarize(passed, failed, combined)
}

/// Counts the tests that the lines of a Gradle transcript report one by one.
fn count_gradle_markers(lines: &Vec<&[char]>) -> (r: (usize, usize))
    ensures
        r.0 == gradle_marker_counts(views(lines@), lines@.len() as int).passed,
        r.1 == gradle_marker_counts(views(lines@), lines@.len() as int).failed,
        r.0 + r.1 <= lines@.len(),
{
    let method = to_chars("()");
    let pass_mark = to_chars("PASSED");
    let fail_mark = to_chars("FAILED");
    let mut passed: usize = 0;
    let mut failed: usize = 0;
    let mut i: usize = 0;
    while i < lines.len()
        invariant
            i <= lines@.len(),
            method@ == "()"@,
            pass_mark@ == "PASSED"@,
            fail_mark@ == "FAILED"@,
            passed + failed <= i,
            passed == gradle_marker_counts(views(lines@), i as int).passed,
            failed == gradle_marker_counts(views(lines@), i as int).failed,
        decreases lines@.len() - i,
    {
        assert(views(lines@)[i as int] == lines@[i as int]@);
        let line = trim(lines[i]);
        if contains(line, method.as_slice()) {
            if ends_with(line, pass_mark.as_slice()) {
                passed += 1;
            } else if ends_with(line, fail_mark.as_slice()) {
                failed += 1;
            }
        }
        i += 1;
    }
    (passed, failed)
}

/// Reads the counts from a transcript of Gradle.
pub fn parse_gradle_output(_stdout: &str, _stderr: &str, combined: &str) -> (r: Result<
    TestSummary,
    String,
>)
    ensures
        reports(r, gradle_counts(combined@), combined@),
{
    let chars = to_chars(combined);
    let all = lines(chars.as_slice());
    let k = find_line(&all, "tests completed", false);
    let mut completed: usize = 0;
    let mut failed: usize = 0;
    if k < all.len() {
        assert(views(all@)[k as int] == all@[k as int]@);
        let w = split_whitespace(all[k]);
        completed = find_number_before(&w, "tests", false, 0);
        failed = find_number_before(&w, "failed", true, 0);
    }
    if completed == 0 {
        let markers = count_gradle_markers(&all);
        summarize(markers.0, markers.1, combined)
    } else if failed <= completed {
        summarize(completed - failed, failed, combined)
    } else {
        summarize(0, failed, combined)
    }
}

/// Reads what the summary line of the C and C++ test programs tells.
fn read_c_summary(line: &[char]) -> (r: (usize, usize))
    ensures
        r.0 == c_summary(line@).passed,
        r.1 == c_summary(line@).failed,
{
    let parts = split(line, '/');
    if parts.len() >= 2 {
        assert(views(parts@)[0] == parts@[0]@);
        assert(views(parts@)[1] == parts@[1]@);
        let passed: usize = match parse_usize(trim(parts[0])) {
            Some(n) => n,
            None => 0,
        };
        let w = split_whitespace(parts[1]);
        let ran: Option<usize> = if w.len() > 0 {
            assert(views(w@)[0] == w@[0]@);
            parse_usize(w[0])
        } else {
            Some(0)
        };
        let failed: usize = match ran {
            Some(n) => if n >= passed {
                n - passed
            } else {
                0
            },
            None => 0,
        };
        (passed, failed)
    } else {
        (0, 0)
    }
}

/// Reads the counts from a transcript of the C or C++ test program.
pub fn parse_c_output(_stdout: &str, _stderr: &str, combined: &str) -> (r: Result<
    TestSummary,
    String,
>)
    ensures
        reports(r, c_counts(combined@), combined@),
{
    let chars = to_chars(combined);
    let all = lines(chars.as_slice());
    let k = find_line(&all, "tests passed", false);
    let mut counts: (usize, usize) = (0, 0);
    if k < all.len() {
        assert(views(all@)[k as int] == all@[k as int]@);
        counts = read_c_summary(all[k]);
    }
    if counts.0 == 0 && counts.1 == 0 {
        counts = count_markers(&all, ": PASS", ": FAIL");
    }
    summarize(counts.0, counts.1, combined)
}

/// Reads the counts from a transcript of the test runner of `lang`.
/// `combined` holds what the runner wrote, its output first and its errors
/// behind.
pub fn parse_output(lang: Language, stdout: &str, stderr: &str, combined: &str) -> (r: Result<
    TestSummary,
    String,
>)
    ensures
        reports(r, counts_of(lang, combined@), combined@),
{
    match lang {
        Language::Rs => parse_rust_output(stdout, stderr, combined),
        Language::Py => parse_pytest_output(stdout, stderr, combined),
        Language::Kt => parse_gradle_output(stdout, stderr, combined),
        Language::Java => parse_gradle_output(stdout, stderr, combined),
        Language::C => parse_c_output(stdout, stderr, combined),
        Language::Cpp => parse_c_output(stdout, stderr, combined),
    }
}

/// The transcript of a test run: what the runner wrote as its output, and
/// on a line of their own behind it what it wrote as its errors.
pub open spec fn transcript(stdout: Seq<char>, stderr: Seq<char>) -> Seq<char> {
    stdout + "\n"@ + stderr
}

/// Reads the counts from what the test runner of `lang` wrote as its output
/// and as its errors.
pub fn summarize_output(lang: Language, stdout: &str, stderr: &str) -> (r: Result<
    TestSummary,
    String,
>)
    ensures
        reports(
            r,
            counts_of(lang, transcript(stdout@, stderr@)),
            transcript(stdout@, stderr@),
        ),
{
    let mut combined = String::from_str(stdout);
    combined.append("\n");
    combined.append(stderr);
    parse_output(lang, stdout, stderr, combined.as_str())
}

/// What a test run says of a solution.
#[derive(Debug, Clone, Copy, PartialEq, Eq, Structural)]
pub enum Verdict {
    /// Nothing is known to have run.
    NoResults,
    /// At least one test failed.
    Failed,
    /// Tests ran and none of them failed.
    Passed,
}

impl TestSummary {
    /// What the summary says of the solution.
    pub open spec fn verdict_of(self) -> Verdict {
        if self.total == 0 {
            Verdict::NoResults
        } else if self.failed > 0 {
            Verdict::Failed
        } else {
            Verdict::Passed
        }
    }

    /// What the summary says of the solution.
    pub fn verdict(&self) -> (r: Verdict)
        ensures
            r == self.verdict_of(),
    {
        if self.total == 0 {
            Verdict::NoResults
        } else if self.failed > 0 {
            Verdict::Failed
        } else {
            Verdict::Passed
        }
    }
}

/// The line that tells the outcome of a test run: that nothing is known to
/// have run, that all tests passed, or how many of them failed.
pub open spec fn report_line_text(summary: TestSummary) -> Seq<char> {
    if summary.total == 0 {
        "No test results found. Check the output above for errors."@
    } else {
        if summary.failed == 0 {
            decimal(summary.passed as nat) + "/"@ + decimal(summary.total as nat) + " tests passed"@
        } else {
            decimal(summary.passed as nat)
                + "/"@
                + decimal(summary.total as nat)
                + " tests passed - "@
                + decimal(summary.failed as nat)
                + " failed"@
        }
    }
}

/// Writes the line that tells the outcome of a test run: that nothing is
/// known to have run, that all tests passed, or how many of them failed.
pub fn report_line(summary: &TestSummary) -> (r: String)
    ensures
        r@ == report_line_text(*summary),
{
    if summary.total == 0 {
        String::from_str("No test results found. Check the output above for errors.")
    } else {
        if summary.failed == 0 {
            let mut out = decimal_string(summary.passed as u64);
            out.append("/");
            out.append(decimal_string(summary.total as u64).as_str());
            out.append(" tests passed");
            out
        } else {
            let mut out = decimal_string(summary.passed as u64);
            out.append("/");
            out.append(decimal_string(summary.total as u64).as_str());
            out.append(" tests passed - ");
            out.append(decimal_string(summary.failed as u64).as_str());
            out.append(" failed");
            out
        }
    }
}

} // verus!
