//! The ecosystems the registry knows.

use vstd::prelude::*;

verus! {

/// One of the three supported pairings of a language with its package manager.
#[derive(Clone, Copy, Debug, PartialEq, Eq, Structural)]
pub enum Language {
    Python,
    Rust,
    Go,
}

impl Language {
    /// The lower-case name under which the ecosystem appears in paths and messages.
    pub open spec fn spec_name(self) -> Seq<char> {
        match self {
            Language::Python => "python"@,
            Language::Rust => "rust"@,
            Language::Go => "go"@,
        }
    }

    /// The ecosystem's name, as `spec_name` gives it.
    pub fn name(&self) -> (text: &'static str)
        ensures
            text@ == self.spec_name(),
    {
        match self {
            Language::Python => "python",
            Language::Rust => "rust",
            Language::Go => "go",
        }
    }

    /// The command of the ecosystem's native package manager.
    pub open spec fn spec_manager(self) -> Seq<char> {
        match self {
            Language::Python => "pip"@,
            Language::Rust => "cargo"@,
            Language::Go => "go"@,
        }
    }

    /// The package manager's command, as `spec_manager` gives it.
    pub fn manager(&self) -> (text: &'static str)
        ensures
            text@ == self.spec_manager(),
    {
        match self {
            Language::Python => "pip",
            Language::Rust => "cargo",
            Language::Go => "go",
        }
    }

    /// The ecosystem that goes by `name`, if any. Names are matched exactly.
    pub open spec fn spec_from_name(name: Seq<char>) -> Option<Language> {
        if name == "python"@ {
            Some(Language::Python)
        } else if name == "rust"@ {
            Some(Language::Rust)
        } else if name == "go"@ {
            Some(Language::Go)
        } else {
            None
        }
    }

    /// Reads an ecosystem's name.
    pub fn from_name(name: &str) -> (language: Option<Language>)
        ensures
            language == Language::spec_from_name(name@),
    {
        let wanted = String::from_str(name);
        if wanted == String::from_str("python") {
            Some(Language::Python)
        } else if wanted == String::from_str("rust") {
            Some(Language::Rust)
        } else if wanted == String::from_str("go") {
            Some(Language::Go)
        } else {
            None
        }
    }

    /// The ecosystems in the fixed order in which listings and saves walk them.
    pub open spec fn spec_all() -> Seq<Language> {
        seq![Language::Python, Language::Rust, Language::Go]
    }

    /// All three ecosystems: python, then rust, then go.
    pub fn all() -> (order: Vec<Language>)
        ensures
            order@ == Language::spec_all(),
    {
        let mut order: Vec<Language> = Vec::new();
        order.push(Language::Python);
        order.push(Language::Rust);
        order.push(Language::Go);
        order
    }
}

} // verus!
