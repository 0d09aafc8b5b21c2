//! The data that scaffolds are generated from and the records kept of them.
pub mod challenge;
pub mod config;
pub mod difficulty;
pub mod language;
pub mod project;
pub mod signature;
pub mod value;

pub use challenge::{Challenge, TestCase};
pub use config::UserConfig;
pub use difficulty::{calculate_boss_score, Difficulty};
pub use language::Language;
pub use project::ProjectMetadata;
pub use signature::{parse_signature, FunctionSignature, Param, RustType};
pub use value::{Number, Value};
