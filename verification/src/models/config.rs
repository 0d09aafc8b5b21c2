//! A player's settings and progress.
use vstd::prelude::*;
use super::difficulty::Difficulty;

verus! {

/// The tier that a player has chosen, and the progress made: the score
/// earned, the number of challenges solved, the day of the last one, and
/// for how many days in a row a challenge was solved, now and at best.
#[derive(Debug, Clone)]
pub struct UserConfig {
    pub difficulty: Difficulty,
    pub boss_score: u32,
    pub challenges_completed: u32,
    pub last_completed_date: Option<String>,
    pub current_streak: u32,
    pub longest_streak: u32,
}

impl Default for UserConfig {
    /// A new player starts at the medium tier with nothing earned.
    fn default() -> (r: Self)
        ensures
            r.difficulty == Difficulty::Medium,
            r.boss_score == 0,
            r.challenges_completed == 0,
            r.last_completed_date is None,
            r.current_streak == 0,
            r.longest_streak == 0,
    {
        Self {
            difficulty: Difficulty::Medium,
            boss_score: 0,
            challenges_completed: 0,
            last_completed_date: None,
            current_streak: 0,
            longest_streak: 0,
        }
    }
}

impl UserConfig {
    /// Whether the last challenge was solved on `day`.
    pub open spec fn completed(self, day: Seq<char>) -> bool {
        self.last_completed_date matches Some(last) && last@ == day
    }

    /// The streak that a challenge solved today makes, where `yesterday` is
    /// the day before: one day more than the streak so far where the last
    /// challenge was solved yesterday, and one day otherwise.
    pub open spec fn streak_after(self, yesterday: Seq<char>) -> nat {
        if self.completed(yesterday) {
            (self.current_streak + 1) as nat
        } else {
            1
        }
    }

    /// Whether the last challenge was solved on `day`.
    pub fn completed_on(&self, day: &String) -> (r: bool)
        ensures
            r == self.completed(day@),
    {
        match &self.last_completed_date {
            Some(last) => *last == *day,
            None => false,
        }
    }

    /// The streak that a challenge solved today makes.
    pub fn next_streak(&self, yesterday: &String) -> (r: u32)
        requires
            self.completed(yesterday@) ==> self.current_streak < u32::MAX,
        ensures
            r == self.streak_after(yesterday@),
    {
        if self.completed_on(yesterday) {
            self.current_streak + 1
        } else {
            1
        }
    }

    /// Records a challenge solved on the day `today` for `points`, which
    /// makes a streak of `streak` days.
    pub fn record_completion(&mut self, points: u32, today: String, streak: u32)
        requires
            old(self).boss_score + points <= u32::MAX,
            old(self).challenges_completed < u32::MAX,
        ensures
            final(self).difficulty == old(self).difficulty,
            final(self).boss_score == old(self).boss_score + points,
            final(self).challenges_completed == old(self).challenges_completed + 1,
            final(self).last_completed_date == Some(today),
            final(self).current_streak == streak,
            final(self).longest_streak == (if streak > old(self).longest_streak {
                streak
            } else {
                old(self).longest_streak
            }),
    {
        self.boss_score = self.boss_score + points;
        self.challenges_completed = self.challenges_completed + 1;
        self.last_completed_date = Some(today);
        self.current_streak = streak;
        if streak > self.longest_streak {
            self.longest_streak = streak;
        }
    }
}

} // verus!
