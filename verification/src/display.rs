//! Showing a challenge to the player.
use vstd::prelude::*;
use vstd::string::*;
use crate::models::challenge::{Challenge, ChallengeView};
use crate::text::{decimal, decimal_string};

verus! {

/// The rule that frames the page: sixty equals signs.
pub open spec fn double_rule_text() -> Seq<char> {
    "============================================================"@
}

/// The rule that frames the description: sixty hyphens.
pub open spec fn single_rule_text() -> Seq<char> {
    "------------------------------------------------------------"@
}

/// The rule that frames the page.
fn double_rule() -> (r: &'static str)
    ensures
        r@ == double_rule_text(),
{
    "============================================================"
}

/// The rule that frames the description.
fn single_rule() -> (r: &'static str)
    ensures
        r@ == single_rule_text(),
{
    "------------------------------------------------------------"
}

/// The page that shows a challenge: its name, difficulty and summary, the
/// description, the signature of the function to write, the number of
/// examples, and what to do next.
pub open spec fn challenge_page(challenge: ChallengeView) -> Seq<char> {
    "\n"@
        + double_rule_text()
        + "\n  CODLE - Daily Coding Challenge\n"@
        + double_rule_text()
        + "\n\nChallenge: "@
        + challenge.name
        + "\nDifficulty: "@
        + decimal(challenge.difficulty as nat)
        + "/10\nSummary: "@
        + challenge.short_description
        + "\n\n"@
        + single_rule_text()
        + "\n"@
        + challenge.description
        + "\n"@
        + single_rule_text()
        + "\n\nFunction Signature:\n  "@
        + challenge.function_signature
        + "\n\nTest Cases: "@
        + decimal(challenge.tests.len())
        + " total\n\n"@
        + double_rule_text()
        + "\nRun `codle test` to check your solution\nRun `codle submit` when you're ready to submit\n"@
        + double_rule_text()
        + "\n\n"@
}

/// Writes the page that shows a challenge: its name, difficulty and summary,
/// the description, the signature of the function to write, the number of
/// examples, and what to do next.
pub fn display_challenge(challenge: &Challenge) -> (r: String)
    ensures
        r@ == challenge_page(challenge@),
{
    let mut out = String::from_str("\n");
    out.append(double_rule());
    out.append("\n  CODLE - Daily Coding Challenge\n");
    out.append(double_rule());
    out.append("\n\nChallenge: ");
    out.append(challenge.name.as_str());
    out.append("\nDifficulty: ");
    out.append(decimal_string(challenge.difficulty as u64).as_str());
    out.append("/10\nSummary: ");
    out.append(challenge.short_description.as_str());
    out.append("\n\n");
    out.append(single_rule());
    out.append("\n");
    out.append(challenge.description.as_str());
    out.append("\n");
    out.append(single_rule());
    out.append("\n\nFunction Signature:\n  ");
    out.append(challenge.function_signature.as_str());
    out.append("\n\nTest Cases: ");
    out.append(decimal_string(challenge.tests.len() as u64).as_str());
    out.append(" total\n\n");
    out.append(double_rule());
    out.append("\nRun `codle test` to check your solution\nRun `codle submit` when you're ready to submit\n");
    out.append(double_rule());
    out.append("\n\n");
    out
}

} // verus!
