//! The closed set of platforms the tool can build for, the parsing of
//! user-supplied platform name tokens, and the mapping from a platform to
//! the toolchain target triple handed to the compiler.

use vstd::prelude::*;

verus! {

broadcast use vstd::string::group_string_axioms;

/// A platform the tool knows how to build for. The set is closed: every
/// value maps to exactly one toolchain target triple, and unknown name
/// tokens are rejected rather than coerced.
#[allow(non_camel_case_types)]
#[derive(Debug, Copy, Clone, PartialEq, Eq, Structural)]
pub enum Platform {
    x64,
    ARM64,
}

/// Error returned when a platform name token is not one of the accepted
/// names (compared case-insensitively).
#[derive(Debug, Copy, Clone, PartialEq, Eq, Structural)]
pub struct ParsePlatformError;

/// The toolchain target triple selected by a platform.
pub open spec fn spec_target(p: Platform) -> Seq<char> {
    match p {
        Platform::x64 => "x86_64-pc-windows-msvc"@,
        Platform::ARM64 => "aarch64-pc-windows-msvc"@,
    }
}

/// The canonical, user-facing name of a platform.
pub open spec fn spec_display_name(p: Platform) -> Seq<char> {
    match p {
        Platform::x64 => "x64"@,
        Platform::ARM64 => "ARM64"@,
    }
}

/// The code point of `c` with an ASCII upper-case letter folded to its
/// lower-case counterpart; every other character is left as it is.
pub open spec fn ascii_lower(c: char) -> int {
    if 'A' as int <= c as int && c as int <= 'Z' as int {
        c as int + 32
    } else {
        c as int
    }
}

/// `s` spells the token `canon` up to ASCII case.
pub open spec fn token_matches(s: Seq<char>, canon: Seq<char>) -> bool {
    s.len() == canon.len() && forall|i: int|
        0 <= i < s.len() ==> ascii_lower(s[i]) == ascii_lower(canon[i])
}

/// What parsing a platform name token yields: the platform whose name the
/// token spells up to case, or an error for any other token.
pub open spec fn spec_parse(s: Seq<char>) -> Result<Platform, ParsePlatformError> {
    if token_matches(s, "x64"@) {
        Ok(Platform::x64)
    } else if token_matches(s, "arm64"@) {
        Ok(Platform::ARM64)
    } else {
        Err(ParsePlatformError)
    }
}

/// Folds an ASCII upper-case letter to lower case, leaving every other
/// character's code point unchanged.
fn fold_char(c: char) -> (r: u32)
    ensures
        r as int == ascii_lower(c),
{
    let u = c as u32;
    if 65 <= u && u <= 90 {
        u + 32
    } else {
        u
    }
}

/// Compares `s` against the token `canon`, ignoring ASCII case.
fn eq_ignore_ascii_case(s: &str, canon: &str) -> (r: bool)
    ensures
        r == token_matches(s@, canon@),
{
    let n = s.unicode_len();
    let m = canon.unicode_len();
    if n != m {
        return false;
    }
    let mut i: usize = 0;
    while i < n
        invariant
            i <= n,
            n == s@.len(),
            n == canon@.len(),
            forall|j: int| 0 <= j < i ==> ascii_lower(s@[j]) == ascii_lower(canon@[j]),
        decreases n - i,
    {
        let a = fold_char(s.get_char(i));
        let b = fold_char(canon.get_char(i));
        if a != b {
            return false;
        }
        i += 1;
    }
    true
}

impl Platform {
    /// Parses a platform name token, case-insensitively. Exactly the
    /// accepted names yield a platform; every other token is an error.
    pub fn parse(s: &str) -> (r: Result<Platform, ParsePlatformError>)
        ensures
            r == spec_parse(s@),
    {
        if eq_ignore_ascii_case(s, "x64") {
            Ok(Platform::x64)
        } else if eq_ignore_ascii_case(s, "arm64") {
            Ok(Platform::ARM64)
        } else {
            Err(ParsePlatformError)
        }
    }

    /// The canonical name of this platform, for user-facing output.
    pub fn display_name(&self) -> (r: &str)
        ensures
            r@ == spec_display_name(*self),
    {
        match self {
            Platform::x64 => "x64",
            Platform::ARM64 => "ARM64",
        }
    }

    /// The target triple handed to the compiler to select this platform.
    pub fn to_rust_target(&self) -> (r: &str)
        ensures
            r@ == spec_target(*self),
    {
        match self {
            Platform::x64 => "x86_64-pc-windows-msvc",
            Platform::ARM64 => "aarch64-pc-windows-msvc",
        }
    }
}

impl core::str::FromStr for Platform {
    type Err = ParsePlatformError;

    fn from_str(s: &str) -> Result<Platform, ParsePlatformError> {
        Platform::parse(s)
    }
}

impl ParsePlatformError {
    /// The message shown to the user, naming the accepted platform names.
    pub fn message(&self) -> (r: &str)
        ensures
            r@ == "Invalid platform value! Expecting: x64 or ARM64."@,
    {
        "Invalid platform value! Expecting: x64 or ARM64."
    }
}

/// No two platforms share a target triple: `spec_target` is injective over
/// the enumeration (and total over it, being defined by an exhaustive match).
pub proof fn lemma_target_injective(p1: Platform, p2: Platform)
    ensures
        spec_target(p1) == spec_target(p2) ==> p1 == p2,
{
    reveal_strlit("x86_64-pc-windows-msvc");
    reveal_strlit("aarch64-pc-windows-msvc");
    assert(spec_target(Platform::x64).len() == 22);
    assert(spec_target(Platform::ARM64).len() == 23);
}

/// Every accepted token spells the display name of the platform it parses
/// to, up to case: parsing round-trips with the canonical display form.
pub proof fn lemma_parse_display(s: Seq<char>, p: Platform)
    requires
        spec_parse(s) == Ok::<Platform, ParsePlatformError>(p),
    ensures
        token_matches(s, spec_display_name(p)),
{
    reveal_strlit("x64");
    reveal_strlit("arm64");
    reveal_strlit("ARM64");
}

/// Parsing a platform's canonical display name yields that platform back.
pub proof fn lemma_display_name_round_trip(p: Platform)
    ensures
        spec_parse(spec_display_name(p)) == Ok::<Platform, ParsePlatformError>(p),
{
    reveal_strlit("x64");
    reveal_strlit("arm64");
    reveal_strlit("ARM64");
    if p == Platform::ARM64 {
        assert(token_matches("ARM64"@, "arm64"@));
        assert(!token_matches("ARM64"@, "x64"@));
    }
}

} // verus!
