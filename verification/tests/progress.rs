use codle::display::display_challenge;
use codle::elapsed::{elapsed_display, format_elapsed};
use codle::lang::scaffold_record;
use codle::models::challenge::{kept_char, kept_name, Challenge, TestCase};
use codle::models::language::Language;
use codle::models::signature::parse_signature;
use codle::models::config::UserConfig;
use codle::models::difficulty::{capped_streak, score_line, Difficulty};
use codle::models::value::{Number, Value};
use codle::testrun::{report_line, TestSummary, Verdict};

fn summary(passed: usize, failed: usize) -> TestSummary {
    TestSummary { passed, failed, total: passed + failed, output: String::new() }
}

fn named(name: &str) -> Challenge {
    Challenge {
        name: name.to_string(),
        difficulty: 7,
        short_description: "Short".to_string(),
        description: "Long\ntext".to_string(),
        function_signature: "fn f()".to_string(),
        tests: vec![
            TestCase { input: Value::Null, expected: Value::Null },
            TestCase { input: Value::Null, expected: Value::Null },
        ],
    }
}

#[test]
fn verdict_of_a_test_run() {
    assert_eq!(summary(0, 0).verdict(), Verdict::NoResults);
    assert_eq!(summary(3, 0).verdict(), Verdict::Passed);
    assert_eq!(summary(3, 1).verdict(), Verdict::Failed);
    assert_eq!(summary(0, 2).verdict(), Verdict::Failed);
}

#[test]
fn report_of_a_test_run() {
    assert_eq!(
        report_line(&summary(0, 0)),
        "No test results found. Check the output above for errors."
    );
    assert_eq!(report_line(&summary(3, 0)), "3/3 tests passed");
    assert_eq!(report_line(&summary(10, 2)), "10/12 tests passed - 2 failed");
}

#[test]
fn elapsed_time_in_its_largest_units() {
    assert_eq!(format_elapsed(0), "0s");
    assert_eq!(format_elapsed(59), "59s");
    assert_eq!(format_elapsed(60), "1m 0s");
    assert_eq!(format_elapsed(3599), "59m 59s");
    assert_eq!(format_elapsed(3600), "1h 0m 0s");
    assert_eq!(format_elapsed(3725), "1h 2m 5s");
    assert_eq!(format_elapsed(360000), "100h 0m 0s");
    assert_eq!(format_elapsed(i64::MAX), "2562047788015215h 30m 7s");
}

#[test]
fn elapsed_time_below_zero() {
    assert_eq!(format_elapsed(-5), "-5s");
    assert_eq!(format_elapsed(-125), "-5s");
    assert_eq!(format_elapsed(-120), "0s");
    assert_eq!(format_elapsed(i64::MIN), "-8s");
}

#[test]
fn elapsed_time_unknown() {
    assert_eq!(elapsed_display(None), "unknown");
    assert_eq!(elapsed_display(Some(61)), "1m 1s");
}

#[test]
fn score_is_broken_down() {
    assert_eq!(
        score_line(7, &Difficulty::Hard, 3),
        "  Score: 7 (challenge) + 2 (tier) + 3 (streak) = +12"
    );
    assert_eq!(
        score_line(10, &Difficulty::Extreme, 9),
        "  Score: 10 (challenge) + 3 (tier) + 5 (streak) = +18"
    );
    assert_eq!(capped_streak(0), 0);
    assert_eq!(capped_streak(5), 5);
    assert_eq!(capped_streak(6), 5);
}

#[test]
fn streak_goes_on_after_yesterday_only() {
    let mut config = UserConfig::default();
    let today = "2024-03-02".to_string();
    let yesterday = "2024-03-01".to_string();
    assert!(!config.completed_on(&today));
    assert_eq!(config.next_streak(&yesterday), 1);
    config.last_completed_date = Some(yesterday.clone());
    config.current_streak = 4;
    assert!(config.completed_on(&yesterday));
    assert!(!config.completed_on(&today));
    assert_eq!(config.next_streak(&yesterday), 5);
    config.last_completed_date = Some("2024-02-28".to_string());
    assert_eq!(config.next_streak(&yesterday), 1);
}

#[test]
fn a_solved_challenge_is_recorded() {
    let mut config = UserConfig::default();
    config.longest_streak = 3;
    config.boss_score = 10;
    config.record_completion(12, "2024-03-02".to_string(), 2);
    assert_eq!(config.boss_score, 22);
    assert_eq!(config.challenges_completed, 1);
    assert_eq!(config.last_completed_date.as_deref(), Some("2024-03-02"));
    assert_eq!(config.current_streak, 2);
    assert_eq!(config.longest_streak, 3);
    assert_eq!(config.difficulty, Difficulty::Medium);
    config.record_completion(1, "2024-03-03".to_string(), 4);
    assert_eq!(config.boss_score, 23);
    assert_eq!(config.challenges_completed, 2);
    assert_eq!(config.longest_streak, 4);
}

#[test]
fn directory_name_of_a_challenge() {
    assert_eq!(named("Two Sum").directory_name(), "two_sum");
    assert_eq!(named("Merge K Lists!").directory_name(), "merge_k_lists");
    assert_eq!(named("3Sum (hard) - v2").directory_name(), "3sum_hard__v2");
    assert_eq!(named("Größe_Ä").directory_name(), "größe_ä");
    assert_eq!(named("a\tb-c").directory_name(), "abc");
    assert_eq!(named("").directory_name(), "");
    for name in ["Two Sum", "Merge K Lists!", "3Sum (hard) - v2", "Größe_Ä", "İstanbul ǅ", "a\tb-c"] {
        let expected = name
            .to_lowercase()
            .replace(' ', "_")
            .replace(|c: char| !c.is_alphanumeric() && c != '_', "");
        assert_eq!(named(name).directory_name(), expected);
    }
}

#[test]
fn page_of_a_challenge() {
    let rule = "=".repeat(60);
    let dash = "-".repeat(60);
    let expected = format!(
        "\n{rule}\n  CODLE - Daily Coding Challenge\n{rule}\n\nChallenge: Two Sum\nDifficulty: 7/10\nSummary: Short\n\n{dash}\nLong\ntext\n{dash}\n\nFunction Signature:\n  fn f()\n\nTest Cases: 2 total\n\n{rule}\nRun `codle test` to check your solution\nRun `codle submit` when you're ready to submit\n{rule}\n\n"
    );
    assert_eq!(display_challenge(&named("Two Sum")), expected);
}

#[test]
fn a_number_is_made_of_digits() {
    let n = Number::new(Some(5), false, "5", "").unwrap();
    assert_eq!(n.integer, Some(5));
    assert!(!n.negative);
    assert_eq!(n.whole, "5");
    assert_eq!(n.fraction, "");
    assert!(Number::new(None, true, "0", "125").is_some());
    assert!(Number::new(None, false, "", "5").is_none());
    assert!(Number::new(None, false, "1e5", "").is_none());
    assert!(Number::new(None, false, "1", "5x").is_none());
    assert!(Number::new(None, false, "-1", "").is_none());
    assert!(Number::new(None, false, "١", "").is_none());
}

#[test]
fn what_a_directory_name_keeps() {
    assert_eq!(kept_char(' ', false), Some('_'));
    assert_eq!(kept_char(' ', true), Some('_'));
    assert_eq!(kept_char('_', false), Some('_'));
    assert_eq!(kept_char('a', true), Some('a'));
    assert_eq!(kept_char('a', false), None);
    assert_eq!(kept_char('!', false), None);
    assert_eq!(kept_char('!', true), Some('!'));
    let lower: Vec<char> = "two  sum_(v2)! é".chars().collect();
    assert_eq!(kept_name(&lower), "two__sum_v2_é");
    let upper: Vec<char> = "Two Sum".chars().collect();
    assert_eq!(kept_name(&upper), "Two_Sum");
    assert_eq!(kept_name(&[]), "");
}

#[test]
fn a_streak_that_is_not_carried_on_starts_at_one_whatever_it_was() {
    let mut config = UserConfig::default();
    config.current_streak = u32::MAX;
    config.last_completed_date = Some("2024-02-01".to_string());
    assert_eq!(config.next_streak(&"2024-03-01".to_string()), 1);
    config.last_completed_date = None;
    assert_eq!(config.next_streak(&"2024-03-01".to_string()), 1);
    config.current_streak = u32::MAX - 1;
    config.last_completed_date = Some("2024-03-01".to_string());
    assert_eq!(config.next_streak(&"2024-03-01".to_string()), u32::MAX);
}

#[test]
fn the_record_of_a_scaffold() {
    let challenge = named("Two Sum");
    let sig = parse_signature("fn two_sum(nums: Vec<i32>) -> usize").unwrap();
    let record = scaffold_record(
        &challenge,
        &sig,
        Language::Kt,
        Difficulty::Hard,
        Some("2024-01-02T03:04:05+00:00".to_string()),
    );
    assert_eq!(record.challenge_name, "Two Sum");
    assert_eq!(record.language, Language::Kt);
    assert_eq!(record.difficulty, Difficulty::Hard);
    assert_eq!(record.function_name, "two_sum");
    assert_eq!(record.initialized_at.as_deref(), Some("2024-01-02T03:04:05+00:00"));
    assert_eq!(record.challenge_difficulty, 7);
    let record = scaffold_record(&challenge, &sig, Language::C, Difficulty::Easy, None);
    assert_eq!(record.language, Language::C);
    assert_eq!(record.difficulty, Difficulty::Easy);
    assert_eq!(record.initialized_at, None);
}
