//! Challenges and their examples.
use vstd::prelude::*;
use vstd::string::*;
use crate::text::{to_chars, views};
use super::value::{Value, ValueView};

verus! {

/// One example: the arguments, as a record keyed by parameter name, and the
/// result expected of them.
#[derive(Debug)]
pub struct TestCase {
    pub input: Value,
    pub expected: Value,
}

/// A challenge as it is loaded: its texts, its difficulty from 0 to 10, the
/// function to write in the signature notation, and the examples.
#[derive(Debug)]
pub struct Challenge {
    pub name: String,
    pub difficulty: u8,
    pub short_description: String,
    pub description: String,
    pub function_signature: String,
    pub tests: Vec<TestCase>,
}

/// An example as a mathematical value.
pub struct TestCaseView {
    pub input: ValueView,
    pub expected: ValueView,
}

impl View for TestCase {
    type V = TestCaseView;

    open spec fn view(&self) -> TestCaseView {
        TestCaseView { input: self.input@, expected: self.expected@ }
    }
}

/// A challenge as a mathematical value.
pub struct ChallengeView {
    pub name: Seq<char>,
    pub difficulty: u8,
    pub short_description: Seq<char>,
    pub description: Seq<char>,
    pub function_signature: Seq<char>,
    pub tests: Seq<TestCaseView>,
}

impl View for Challenge {
    type V = ChallengeView;

    open spec fn view(&self) -> ChallengeView {
        ChallengeView {
            name: self.name@,
            difficulty: self.difficulty,
            short_description: self.short_description@,
            description: self.description@,
            function_signature: self.function_signature@,
            tests: views(self.tests@),
        }
    }
}

/// `s` with each letter that has a lower case turned into it, as Unicode
/// defines it: what `str::to_lowercase` returns.
pub uninterp spec fn lowercased(s: Seq<char>) -> Seq<char>;

/// Whether `c` is a letter or a number, as Unicode defines them: what
/// `char::is_alphanumeric` returns.
pub uninterp spec fn is_letter_or_number(c: char) -> bool;

/// `str::to_lowercase` returns the lower case of the text, which depends on
/// the text alone.
pub assume_specification[ str::to_lowercase ](s: &str) -> (r: std::string::String)
    ensures
        r@ == lowercased(s@),
;

/// `char::is_alphanumeric` tells whether the character is a letter or a
/// number, which depends on the character alone.
pub assume_specification[ char::is_alphanumeric ](ch: char) -> (r: bool)
    ensures
        r == is_letter_or_number(ch),
;

/// What a directory name keeps of the character `c`, where `letter_or_number`
/// says whether it is a letter or a number: a space becomes an underscore,
/// letters, numbers and underscores stay, and everything else is left out.
pub open spec fn kept_char_of(c: char, letter_or_number: bool) -> Option<char> {
    if c == ' ' || c == '_' {
        Some('_')
    } else if letter_or_number {
        Some(c)
    } else {
        None
    }
}

/// What a directory name keeps of the first `n` characters of `s`, in order.
pub open spec fn kept_in_name(s: Seq<char>, n: int) -> Seq<char>
    decreases n,
{
    if n <= 0 || n > s.len() {
        Seq::empty()
    } else {
        match kept_char_of(s[n - 1], is_letter_or_number(s[n - 1])) {
            Some(c) => kept_in_name(s, n - 1).push(c),
            None => kept_in_name(s, n - 1),
        }
    }
}

/// The name of the directory that a scaffold for the challenge named `name`
/// is written to: the name in lower case, with underscores for spaces and
/// without anything that is no letter, number or underscore.
pub open spec fn directory_name_of(name: Seq<char>) -> Seq<char> {
    kept_in_name(lowercased(name), lowercased(name).len() as int)
}

/// What a directory name keeps of the character `c`, where `letter_or_number`
/// says whether it is a letter or a number.
pub fn kept_char(c: char, letter_or_number: bool) -> (r: Option<char>)
    ensures
        r == kept_char_of(c, letter_or_number),
{
    if c == ' ' || c == '_' {
        Some('_')
    } else if letter_or_number {
        Some(c)
    } else {
        None
    }
}

/// What a directory name keeps of a name that is in lower case already.
pub fn kept_name(lower: &[char]) -> (r: String)
    ensures
        r@ == kept_in_name(lower@, lower@.len() as int),
{
    let mut out = String::new();
    let mut i: usize = 0;
    while i < lower.len()
        invariant
            i <= lower@.len(),
            out@ == kept_in_name(lower@, i as int),
        decreases lower@.len() - i,
    {
        let c = lower[i];
        match kept_char(c, c.is_alphanumeric()) {
            Some(kept) => out.push(kept),
            None => {},
        }
        i += 1;
    }
    out
}

impl Challenge {
    /// The name of the directory that a scaffold for the challenge is
    /// written to.
    pub fn directory_name(&self) -> (r: String)
        ensures
            r@ == directory_name_of(self.name@),
    {
        let lower = self.name.as_str().to_lowercase();
        let chars = to_chars(lower.as_str());
        kept_name(chars.as_slice())
    }
}

} // verus!
