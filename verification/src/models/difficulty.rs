//! Difficulty tiers and the score that a solved challenge earns.
use vstd::prelude::*;
use vstd::string::*;
use crate::text::{decimal, decimal_string};

verus! {

/// The tier that a player has chosen, from the easiest to the hardest.
#[derive(Debug, Clone, Copy, PartialEq, Eq, Structural)]
pub enum Difficulty {
    Easy,
    Medium,
    Hard,
    Extreme,
}

/// The longest streak that still adds to a score.
pub const MAX_STREAK_BONUS: u32 = 5;

impl Difficulty {
    /// The tier's name in lower case, as it is written in stored records.
    pub open spec fn name(self) -> Seq<char> {
        match self {
            Difficulty::Easy => "easy"@,
            Difficulty::Medium => "medium"@,
            Difficulty::Hard => "hard"@,
            Difficulty::Extreme => "extreme"@,
        }
    }

    /// The tier's name as it is shown to a player.
    pub open spec fn title(self) -> Seq<char> {
        match self {
            Difficulty::Easy => "Easy"@,
            Difficulty::Medium => "Medium"@,
            Difficulty::Hard => "Hard"@,
            Difficulty::Extreme => "Extreme"@,
        }
    }

    /// The bonus that the tier adds to a score: its place in the order,
    /// counted from zero.
    pub open spec fn offset(self) -> nat {
        match self {
            Difficulty::Easy => 0,
            Difficulty::Medium => 1,
            Difficulty::Hard => 2,
            Difficulty::Extreme => 3,
        }
    }

    /// The tier's name in lower case.
    pub fn as_str(&self) -> (r: &'static str)
        ensures
            r@ == self.name(),
    {
        match self {
            Difficulty::Easy => "easy",
            Difficulty::Medium => "medium",
            Difficulty::Hard => "hard",
            Difficulty::Extreme => "extreme",
        }
    }

    /// The tier's name as it is shown to a player.
    pub fn display_name(&self) -> (r: &'static str)
        ensures
            r@ == self.title(),
    {
        match self {
            Difficulty::Easy => "Easy",
            Difficulty::Medium => "Medium",
            Difficulty::Hard => "Hard",
            Difficulty::Extreme => "Extreme",
        }
    }

    /// The bonus that the tier adds to a score.
    pub fn tier_offset(&self) -> (r: u32)
        ensures
            r == self.offset(),
    {
        match self {
            Difficulty::Easy => 0,
            Difficulty::Medium => 1,
            Difficulty::Hard => 2,
            Difficulty::Extreme => 3,
        }
    }
}

/// The bonus for a streak: one point for each day, up to
/// `MAX_STREAK_BONUS`.
pub open spec fn streak_bonus(streak: u32) -> nat {
    if streak < MAX_STREAK_BONUS {
        streak as nat
    } else {
        MAX_STREAK_BONUS as nat
    }
}

/// The score for one solved challenge: the challenge's own difficulty, the
/// tier's bonus, and the bonus for the streak.
pub open spec fn boss_score(challenge_difficulty: u8, tier: Difficulty, streak: u32) -> nat {
    challenge_difficulty as nat + tier.offset() + streak_bonus(streak)
}

/// The bonus for a streak.
pub fn capped_streak(streak: u32) -> (r: u32)
    ensures
        r == streak_bonus(streak),
{
    if streak < MAX_STREAK_BONUS {
        streak
    } else {
        MAX_STREAK_BONUS
    }
}

/// The score for one solved challenge.
pub fn calculate_boss_score(challenge_difficulty: u8, tier: &Difficulty, streak: u32) -> (r: u32)
    ensures
        r == boss_score(challenge_difficulty, *tier, streak),
{
    let base: u32 = challenge_difficulty as u32;
    let tier_bonus: u32 = tier.tier_offset();
    let streak_bonus: u32 = capped_streak(streak);
    base + tier_bonus + streak_bonus
}

/// The line that breaks a score down: the challenge's difficulty, the tier's
/// bonus, the bonus for the streak, and their sum.
pub open spec fn score_line_text(challenge_difficulty: u8, tier: Difficulty, streak: u32) -> Seq<char> {
    "  Score: "@
        + decimal(challenge_difficulty as nat)
        + " (challenge) + "@
        + decimal(tier.offset())
        + " (tier) + "@
        + decimal(streak_bonus(streak))
        + " (streak) = +"@
        + decimal(boss_score(challenge_difficulty, tier, streak))
}

/// Writes the line that breaks a score down: the challenge's difficulty, the
/// tier's bonus, the bonus for the streak, and their sum.
pub fn score_line(challenge_difficulty: u8, tier: &Difficulty, streak: u32) -> (r: String)
    ensures
        r@ == score_line_text(challenge_difficulty, *tier, streak),
{
    let mut out = String::from_str("  Score: ");
    out.append(decimal_string(challenge_difficulty as u64).as_str());
    out.append(" (challenge) + ");
    out.append(decimal_string(tier.tier_offset() as u64).as_str());
    out.append(" (tier) + ");
    out.append(decimal_string(capped_streak(streak) as u64).as_str());
    out.append(" (streak) = +");
    out.append(decimal_string(calculate_boss_score(challenge_difficulty, tier, streak) as u64).as_str());
    out
}

} // verus!
