//! The fatal errors a run can end with. Every error aborts the whole run;
//! none is retried or recovered. Each carries the data its message needs,
//! and `message` renders the human-readable text.

use vstd::prelude::*;
use vstd::string::*;

verus! {

/// A fatal condition that aborts the run. `BuildFailed` names the target
/// whose build failed; `AmbiguousDescriptor` carries how many descriptor
/// files were found where exactly one was required.
#[derive(Debug)]
pub enum RunError {
    DirectoryChangeError,
    BuildFailed(String),
    NoPackageDirectory,
    NoDescriptorFound,
    AmbiguousDescriptor(usize),
    MissingVersionFile,
    UnreadableVersionFile,
    PackFailed,
}

/// The decimal digit character for `d`.
pub open spec fn digit_char(d: nat) -> char {
    if d == 0 {
        '0'
    } else if d == 1 {
        '1'
    } else if d == 2 {
        '2'
    } else if d == 3 {
        '3'
    } else if d == 4 {
        '4'
    } else if d == 5 {
        '5'
    } else if d == 6 {
        '6'
    } else if d == 7 {
        '7'
    } else if d == 8 {
        '8'
    } else {
        '9'
    }
}

/// The decimal digits of `n`, most significant first, with no leading zero
/// except for `n == 0` itself.
pub open spec fn dec_digits(n: nat) -> Seq<char>
    decreases n,
{
    if n < 10 {
        seq![digit_char(n)]
    } else {
        dec_digits(n / 10).push(digit_char(n % 10))
    }
}

/// The message text of each error, as shown to the user.
pub open spec fn spec_message(e: RunError) -> Seq<char> {
    match e {
        RunError::DirectoryChangeError => "Failed to set the current directory."@,
        RunError::BuildFailed(t) => "Failed to build '"@ + t@ + "' target!"@,
        RunError::NoPackageDirectory => "No nuget directory found!"@,
        RunError::NoDescriptorFound => "No nuspec files found!"@,
        RunError::AmbiguousDescriptor(n) => "Too many nuspec files found: "@ + dec_digits(n as nat),
        RunError::MissingVersionFile => "Failed to open VERSION file"@,
        RunError::UnreadableVersionFile => "Failed to read VERSION file"@,
        RunError::PackFailed => "nuget pack failed!"@,
    }
}

/// The one-character string spelling the decimal digit `d`.
fn digit_str(d: usize) -> (r: &'static str)
    requires
        d < 10,
    ensures
        r@ == seq![digit_char(d as nat)],
{
    proof {
        reveal_strlit("0");
        reveal_strlit("1");
        reveal_strlit("2");
        reveal_strlit("3");
        reveal_strlit("4");
        reveal_strlit("5");
        reveal_strlit("6");
        reveal_strlit("7");
        reveal_strlit("8");
        reveal_strlit("9");
    }
    let r = if d == 0 {
        "0"
    } else if d == 1 {
        "1"
    } else if d == 2 {
        "2"
    } else if d == 3 {
        "3"
    } else if d == 4 {
        "4"
    } else if d == 5 {
        "5"
    } else if d == 6 {
        "6"
    } else if d == 7 {
        "7"
    } else if d == 8 {
        "8"
    } else {
        "9"
    };
    proof {
        assert(r@ =~= seq![digit_char(d as nat)]);
    }
    r
}

/// Renders `n` in decimal.
pub fn usize_to_string(n: usize) -> (r: String)
    ensures
        r@ == dec_digits(n as nat),
    decreases n,
{
    if n < 10 {
        String::from_str(digit_str(n))
    } else {
        let prefix = usize_to_string(n / 10);
        let r = prefix.concat(digit_str(n % 10));
        proof {
            assert(r@ =~= dec_digits(n as nat));
        }
        r
    }
}

impl RunError {
    /// The human-readable message identifying this fatal condition.
    pub fn message(&self) -> (r: String)
        ensures
            r@ == spec_message(*self),
    {
        match self {
            RunError::DirectoryChangeError => {
                String::from_str("Failed to set the current directory.")
            },
            RunError::BuildFailed(t) => {
                let r = String::from_str("Failed to build '").concat(t.as_str()).concat(
                    "' target!",
                );
                proof {
                    assert(r@ =~= spec_message(*self));
                }
                r
            },
            RunError::NoPackageDirectory => String::from_str("No nuget directory found!"),
            RunError::NoDescriptorFound => String::from_str("No nuspec files found!"),
            RunError::AmbiguousDescriptor(n) => {
                let r = String::from_str("Too many nuspec files found: ").concat(
                    usize_to_string(*n).as_str(),
                );
                proof {
                    assert(r@ =~= spec_message(*self));
                }
                r
            },
            RunError::MissingVersionFile => String::from_str("Failed to open VERSION file"),
            RunError::UnreadableVersionFile => String::from_str("Failed to read VERSION file"),
            RunError::PackFailed => String::from_str("nuget pack failed!"),
        }
    }
}

} // verus!
