//! File-name sanitizing: characters and names that are not safe in a file
//! name are replaced.
use vstd::prelude::*;
use crate::pattern::{regex_accepts, regex_compiles, regex_replace_all, regex_replace_all_text, regex_replace_first, regex_replace_first_text};

verus! {

/// Characters that are illegal in file names.
pub const ILLEGAL_PATTERN: &'static str = r#"[/\?<>\\:\*\|":]"#;

/// Control characters (C0 and C1).
pub const CONTROL_PATTERN: &'static str = r#"[\x00-\x1f\x80-\x9f]"#;

/// Names made of dots only (`.`, `..`, ...).
pub const RESERVED_PATTERN: &'static str = r#"^\.+$"#;

/// Device names that Windows reserves, with or without an extension.
pub const WINDOWS_RESERVED_PATTERN: &'static str = r#"(?i)^(con|prn|aux|nul|com[0-9]|lpt[0-9])(\..*)?$"#;

/// Names made of dots only, checked again for Windows.
pub const WINDOWS_TRAILING_PATTERN: &'static str = r#"^\.+$"#;

/// How to sanitize: whether the Windows rules apply, and what replaces each
/// offending piece of the name.
#[derive(Clone)]
pub struct SanitizeOption<'a> {
    pub windows: bool,
    pub replacement: &'a str,
}

/// Whether the program was built for Windows: `std::path::is_separator`
/// accepts a backslash only there. Nothing is claimed: the answer is the
/// platform's.
#[verifier::external_body]
fn platform_is_windows() -> bool {
    std::path::is_separator('\\')
}

impl<'a> Default for SanitizeOption<'a> {
    /// The platform's rules and `_` as the replacement.
    fn default() -> (r: Self)
        ensures
            r.replacement@ == "_"@,
    {
        SanitizeOption { windows: platform_is_windows(), replacement: "_" }
    }
}

/// Whether every pattern that a sanitize pass with these rules uses compiles.
pub open spec fn sanitize_patterns_accepted(windows: bool) -> bool {
    &&& regex_accepts(ILLEGAL_PATTERN@)
    &&& regex_accepts(CONTROL_PATTERN@)
    &&& regex_accepts(RESERVED_PATTERN@)
    &&& windows ==> regex_accepts(WINDOWS_RESERVED_PATTERN@) && regex_accepts(
        WINDOWS_TRAILING_PATTERN@,
    )
}

/// The sanitized name: illegal and control characters replaced everywhere,
/// then a dots-only name replaced, then (for Windows) a reserved device name
/// and a dots-only name replaced.
pub open spec fn sanitized(name: Seq<char>, windows: bool, replacement: Seq<char>) -> Seq<char> {
    let n1 = regex_replace_all_text(ILLEGAL_PATTERN@, name, replacement);
    let n2 = regex_replace_all_text(CONTROL_PATTERN@, n1, replacement);
    let n3 = regex_replace_first_text(RESERVED_PATTERN@, n2, replacement);
    if windows {
        let n4 = regex_replace_first_text(WINDOWS_RESERVED_PATTERN@, n3, replacement);
        regex_replace_first_text(WINDOWS_TRAILING_PATTERN@, n4, replacement)
    } else {
        n3
    }
}

/// Whether the patterns of a sanitize pass with these rules compile.
pub fn sanitize_patterns_compile(windows: bool) -> (r: bool)
    ensures
        r == sanitize_patterns_accepted(windows),
{
    let common = regex_compiles(ILLEGAL_PATTERN) && regex_compiles(CONTROL_PATTERN)
        && regex_compiles(RESERVED_PATTERN);
    if windows {
        common && regex_compiles(WINDOWS_RESERVED_PATTERN) && regex_compiles(WINDOWS_TRAILING_PATTERN)
    } else {
        common
    }
}

/// Sanitizes `name` with the platform's rules and `_` as the replacement.
pub fn sanitize(name: &str) -> (r: String)
    requires
        sanitize_patterns_accepted(true),
    ensures
        exists|windows: bool| r@ == sanitized(name@, windows, "_"@),
{
    let options = SanitizeOption::default();
    sanitize_with_options(name, options)
}

/// Sanitizes `name` with the given rules.
pub fn sanitize_with_options(name: &str, options: SanitizeOption) -> (r: String)
    requires
        sanitize_patterns_accepted(options.windows),
    ensures
        r@ == sanitized(name@, options.windows, options.replacement@),
{
    let SanitizeOption { windows, replacement } = options;
    let n1 = regex_replace_all(ILLEGAL_PATTERN, name, replacement).unwrap();
    let n2 = regex_replace_all(CONTROL_PATTERN, n1.as_str(), replacement).unwrap();
    let n3 = regex_replace_first(RESERVED_PATTERN, n2.as_str(), replacement).unwrap();
    if windows {
        let n4 = regex_replace_first(WINDOWS_RESERVED_PATTERN, n3.as_str(), replacement).unwrap();
        regex_replace_first(WINDOWS_TRAILING_PATTERN, n4.as_str(), replacement).unwrap()
    } else {
        n3
    }
}

/// Sanitizes `name` with the platform's rules, or `None` when one of the
/// patterns does not compile.
pub fn try_sanitize(name: &str) -> (r: Option<String>)
    ensures
        r is None <==> !sanitize_patterns_accepted(true),
        r matches Some(s) ==> exists|windows: bool| s@ == sanitized(name@, windows, "_"@),
{
    if sanitize_patterns_compile(true) {
        Some(sanitize(name))
    } else {
        None
    }
}

/// Sanitizes `name` with the given rules, or `None` when one of their
/// patterns does not compile.
pub fn try_sanitize_with_options(name: &str, options: SanitizeOption) -> (r: Option<String>)
    ensures
        r is None <==> !sanitize_patterns_accepted(options.windows),
        r matches Some(s) ==> s@ == sanitized(name@, options.windows, options.replacement@),
{
    if sanitize_patterns_compile(options.windows) {
        Some(sanitize_with_options(name, options))
    } else {
        None
    }
}

} // verus!
