use nupack::platform::{ParsePlatformError, Platform};

#[test]
fn parse_accepts_canonical_tokens() {
    assert_eq!(Platform::parse("x64"), Ok(Platform::x64));
    assert_eq!(Platform::parse("arm64"), Ok(Platform::ARM64));
}

#[test]
fn parse_is_case_insensitive() {
    assert_eq!(Platform::parse("X64"), Ok(Platform::x64));
    assert_eq!(Platform::parse("ARM64"), Ok(Platform::ARM64));
    assert_eq!(Platform::parse("Arm64"), Ok(Platform::ARM64));
    assert_eq!(Platform::parse("aRm64"), Ok(Platform::ARM64));
}

#[test]
fn parse_rejects_unknown_tokens() {
    assert_eq!(Platform::parse("x86"), Err(ParsePlatformError));
    assert_eq!(Platform::parse("ARM"), Err(ParsePlatformError));
    assert_eq!(Platform::parse(""), Err(ParsePlatformError));
    assert_eq!(Platform::parse("x644"), Err(ParsePlatformError));
    assert_eq!(Platform::parse(" x64"), Err(ParsePlatformError));
    assert_eq!(Platform::parse("arm-64"), Err(ParsePlatformError));
}

#[test]
fn parse_through_from_str() {
    assert_eq!("X64".parse::<Platform>(), Ok(Platform::x64));
    assert_eq!("potato".parse::<Platform>(), Err(ParsePlatformError));
}

#[test]
fn display_names_are_canonical() {
    assert_eq!(Platform::x64.display_name(), "x64");
    assert_eq!(Platform::ARM64.display_name(), "ARM64");
}

#[test]
fn display_name_round_trips_with_parse() {
    for p in [Platform::x64, Platform::ARM64] {
        assert_eq!(Platform::parse(p.display_name()), Ok(p));
    }
}

#[test]
fn targets_are_fixed_and_distinct() {
    assert_eq!(Platform::x64.to_rust_target(), "x86_64-pc-windows-msvc");
    assert_eq!(Platform::ARM64.to_rust_target(), "aarch64-pc-windows-msvc");
    assert_ne!(
        Platform::x64.to_rust_target(),
        Platform::ARM64.to_rust_target()
    );
    // Pure: repeated calls agree.
    assert_eq!(
        Platform::x64.to_rust_target(),
        Platform::x64.to_rust_target()
    );
}

#[test]
fn parse_error_names_the_accepted_set() {
    assert_eq!(
        ParsePlatformError.message(),
        "Invalid platform value! Expecting: x64 or ARM64."
    );
}
