use codle::models::config::UserConfig;
use codle::models::difficulty::{calculate_boss_score, Difficulty};
use codle::models::language::Language;
use codle::models::project::ProjectMetadata;

#[test]
fn difficulty_names_and_offsets() {
    let all = [Difficulty::Easy, Difficulty::Medium, Difficulty::Hard, Difficulty::Extreme];
    let names = ["easy", "medium", "hard", "extreme"];
    let titles = ["Easy", "Medium", "Hard", "Extreme"];
    for (i, d) in all.iter().enumerate() {
        assert_eq!(d.as_str(), names[i]);
        assert_eq!(d.display_name(), titles[i]);
        assert_eq!(d.tier_offset(), i as u32);
    }
}

#[test]
fn score_adds_difficulty_tier_and_streak() {
    assert_eq!(calculate_boss_score(0, &Difficulty::Easy, 0), 0);
    assert_eq!(calculate_boss_score(7, &Difficulty::Hard, 3), 12);
    assert_eq!(calculate_boss_score(7, &Difficulty::Extreme, 5), 15);
    assert_eq!(calculate_boss_score(7, &Difficulty::Extreme, 6), 15);
    assert_eq!(calculate_boss_score(255, &Difficulty::Extreme, u32::MAX), 263);
    assert_eq!(calculate_boss_score(10, &Difficulty::Medium, 1), 12);
}

#[test]
fn language_names_extensions_and_commands() {
    let all = [Language::Rs, Language::Py, Language::Kt, Language::Java, Language::C, Language::Cpp];
    let titles = ["Rust", "Python", "Kotlin", "Java", "C", "C++"];
    let extensions = ["rs", "py", "kt", "java", "c", "cpp"];
    for (i, l) in all.iter().enumerate() {
        assert_eq!(l.display_name(), titles[i]);
        assert_eq!(l.extension(), extensions[i]);
    }
    assert_eq!(Language::Rs.test_command(), ("cargo", &["test"][..]));
    assert_eq!(Language::Py.test_command(), ("pytest", &["test_solution.py", "-v"][..]));
    assert_eq!(Language::Kt.test_command(), ("./gradlew", &["test"][..]));
    assert_eq!(Language::Java.test_command(), ("./gradlew", &["test"][..]));
    assert_eq!(Language::C.test_command(), ("make", &["test"][..]));
    assert_eq!(Language::Cpp.test_command(), ("make", &["test"][..]));
}

#[test]
fn metadata_keeps_what_it_is_given() {
    let m = ProjectMetadata::new(
        "Two Sum".to_string(),
        Language::Kt,
        Difficulty::Hard,
        "two_sum".to_string(),
        Some("2024-01-02T03:04:05+00:00".to_string()),
        4,
    );
    assert_eq!(m.challenge_name, "Two Sum");
    assert_eq!(m.language, Language::Kt);
    assert_eq!(m.difficulty, Difficulty::Hard);
    assert_eq!(m.function_name, "two_sum");
    assert_eq!(m.initialized_at.as_deref(), Some("2024-01-02T03:04:05+00:00"));
    assert_eq!(m.challenge_difficulty, 4);
}

#[test]
fn a_new_player_starts_at_medium() {
    let c = UserConfig::default();
    assert_eq!(c.difficulty, Difficulty::Medium);
    assert_eq!(c.boss_score, 0);
    assert_eq!(c.challenges_completed, 0);
    assert_eq!(c.last_completed_date, None);
    assert_eq!(c.current_streak, 0);
    assert_eq!(c.longest_streak, 0);
}
