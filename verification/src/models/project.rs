//! The record that is kept beside a generated scaffold.
use vstd::prelude::*;
use super::difficulty::Difficulty;
use super::language::Language;

verus! {

/// What a scaffold was generated for, and when.
#[derive(Debug)]
pub struct ProjectMetadata {
    pub challenge_name: String,
    pub language: Language,
    pub difficulty: Difficulty,
    pub function_name: String,
    pub initialized_at: Option<String>,
    pub challenge_difficulty: u8,
}

impl ProjectMetadata {
    /// The record with the given entries.
    pub fn new(
        challenge_name: String,
        language: Language,
        difficulty: Difficulty,
        function_name: String,
        initialized_at: Option<String>,
        challenge_difficulty: u8,
    ) -> (r: Self)
        ensures
            r.challenge_name == challenge_name,
            r.language == language,
            r.difficulty == difficulty,
            r.function_name == function_name,
            r.initialized_at == initialized_at,
            r.challenge_difficulty == challenge_difficulty,
    {
        Self {
            challenge_name,
            language,
            difficulty,
            function_name,
            initialized_at,
            challenge_difficulty,
        }
    }
}

} // verus!
