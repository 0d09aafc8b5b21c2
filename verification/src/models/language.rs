//! The languages that a scaffold can be written for.
use vstd::prelude::*;
use crate::text::views;

verus! {

/// A language, with the toolchain that builds and tests a scaffold in it.
#[derive(Debug, Clone, Copy, PartialEq, Eq, Structural)]
pub enum Language {
    Rs,
    Py,
    Kt,
    Java,
    C,
    Cpp,
}

impl Language {
    /// The language's name as it is shown to a player.
    pub open spec fn title(self) -> Seq<char> {
        match self {
            Language::Rs => "Rust"@,
            Language::Py => "Python"@,
            Language::Kt => "Kotlin"@,
            Language::Java => "Java"@,
            Language::C => "C"@,
            Language::Cpp => "C++"@,
        }
    }

    /// The ending of the names of the language's source files.
    pub open spec fn file_extension(self) -> Seq<char> {
        match self {
            Language::Rs => "rs"@,
            Language::Py => "py"@,
            Language::Kt => "kt"@,
            Language::Java => "java"@,
            Language::C => "c"@,
            Language::Cpp => "cpp"@,
        }
    }

    /// The program that runs the tests of a scaffold.
    pub open spec fn test_program(self) -> Seq<char> {
        match self {
            Language::Rs => "cargo"@,
            Language::Py => "pytest"@,
            Language::Kt => "./gradlew"@,
            Language::Java => "./gradlew"@,
            Language::C => "make"@,
            Language::Cpp => "make"@,
        }
    }

    /// The arguments that the test program is started with.
    pub open spec fn test_arguments(self) -> Seq<Seq<char>> {
        match self {
            Language::Rs => seq!["test"@],
            Language::Py => seq!["test_solution.py"@, "-v"@],
            Language::Kt => seq!["test"@],
            Language::Java => seq!["test"@],
            Language::C => seq!["test"@],
            Language::Cpp => seq!["test"@],
        }
    }

    /// The language's name as it is shown to a player.
    pub fn display_name(&self) -> (r: &'static str)
        ensures
            r@ == self.title(),
    {
        match self {
            Language::Rs => "Rust",
            Language::Py => "Python",
            Language::Kt => "Kotlin",
            Language::Java => "Java",
            Language::C => "C",
            Language::Cpp => "C++",
        }
    }

    /// The ending of the names of the language's source files.
    pub fn extension(&self) -> (r: &'static str)
        ensures
            r@ == self.file_extension(),
    {
        match self {
            Language::Rs => "rs",
            Language::Py => "py",
            Language::Kt => "kt",
            Language::Java => "java",
            Language::C => "c",
            Language::Cpp => "cpp",
        }
    }

    /// The command that tests a scaffold: the program and its arguments.
    pub fn test_command(&self) -> (r: (&'static str, &'static [&'static str]))
        ensures
            r.0@ == self.test_program(),
            views(r.1@) == self.test_arguments(),
    {
        let r: (&'static str, &'static [&'static str]) = match self {
            Language::Rs => ("cargo", &["test"]),
            Language::Py => ("pytest", &["test_solution.py", "-v"]),
            Language::Kt => ("./gradlew", &["test"]),
            Language::Java => ("./gradlew", &["test"]),
            Language::C => ("make", &["test"]),
            Language::Cpp => ("make", &["test"]),
        };
        assert(views(r.1@) =~= self.test_arguments());
        r
    }
}

} // verus!
