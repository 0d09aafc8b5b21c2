//! Scaffolds for coding challenges.
//!
//! A challenge names a function in a one-line notation and gives example
//! inputs with the results expected of them. From these the library writes,
//! for each supported language, a solution stub with a generated test suite,
//! and it reads the transcript of that language's test runner back into
//! counts of passed and failed tests.
pub mod display;
pub mod elapsed;
pub mod lang;
pub mod laws;
pub mod models;
pub mod notation;
pub mod testrun;
pub mod text;
