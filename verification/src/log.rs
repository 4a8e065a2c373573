use std::io::Write;
use vstd::prelude::*;

verus! {

/// How much progress text the caller wants to see.
#[derive(Copy, Clone, Debug, PartialEq, Eq)]
pub enum Verbosity {
    Silent,
    Info,
    Verbose,
}

impl Verbosity {
    /// Severity rank: a log prints a message whose rank is at most its own.
    pub open spec fn rank_spec(self) -> int {
        match self {
            Verbosity::Silent => 0,
            Verbosity::Info => 1,
            Verbosity::Verbose => 2,
        }
    }

    pub fn rank(&self) -> (r: u8)
        ensures
            r as int == self.rank_spec(),
    {
        match self {
            Verbosity::Silent => 0,
            Verbosity::Info => 1,
            Verbosity::Verbose => 2,
        }
    }
}

/// Relies on std::io::Stdout's write: prints one line of progress text.
#[verifier::external_body]
fn print_line(text: &str) {
    let _ = writeln!(std::io::stdout(), "{}", text);
}

/// Verbosity-gated console logging. Messages carry no machine-checkable
/// contract; they are progress text for a human.
pub struct Log {
    pub verbosity: Verbosity,
}

impl From<u64> for Log {
    /// Zero occurrences of the verbosity flag keep the log silent, one admits
    /// informational text, two or more admit verbose text.
    fn from(other: u64) -> Log {
        Log {
            verbosity: if other == 0 {
                Verbosity::Silent
            } else if other == 1 {
                Verbosity::Info
            } else {
                Verbosity::Verbose
            },
        }
    }
}

impl vstd::std_specs::convert::FromSpecImpl<u64> for Log {
    open spec fn obeys_from_spec() -> bool {
        true
    }

    open spec fn from_spec(other: u64) -> Log {
        Log {
            verbosity: if other == 0 {
                Verbosity::Silent
            } else if other == 1 {
                Verbosity::Info
            } else {
                Verbosity::Verbose
            },
        }
    }
}

impl Log {
    pub fn log(&self, verbosity: Verbosity, text: String) {
        if self.verbosity.rank() >= verbosity.rank() {
            print_line(text.as_str());
        }
    }

    pub fn verbose(&self, text: String) {
        self.log(Verbosity::Verbose, text)
    }

    pub fn info(&self, text: String) {
        self.log(Verbosity::Info, text)
    }
}

} // verus!
