//! Reading a `Version` out of text.
use vstd::prelude::*;
use crate::decimal::{parse_u32, parse_unsigned};
use crate::pattern::{regex_accepts, regex_captures, regex_captures_named, regex_compiles};
use crate::version::Version;
use vstd::std_specs::convert::TryFromSpecImpl;

verus! {

/// Three runs of digits separated by any single characters; the first such
/// run in the text is the version.
pub const VERSION_PATTERN: &'static str = r#"(?P<major>\d+).(?P<minor>\d+).(?P<patch>\d+)"#;

/// The group names of `VERSION_PATTERN`, in the order major, minor, patch.
pub open spec fn version_group_names() -> Seq<Seq<char>> {
    seq!["major"@, "minor"@, "patch"@]
}

/// A version component read as `u32`.
pub open spec fn component_value(text: Seq<char>) -> Option<u32> {
    match parse_unsigned(text, u32::MAX as nat) {
        Some(v) => Some(v as u32),
        None => None,
    }
}

/// The message for a component that does not read as `u32`.
pub open spec fn invalid_component_message(label: Seq<char>, text: Seq<char>) -> Seq<char> {
    label + " "@ + text + " is not valid"@
}

/// The version made of three component texts, or the message for the first
/// one that is not a valid `u32`.
pub open spec fn version_from_components(
    major: Seq<char>,
    minor: Seq<char>,
    patch: Seq<char>,
) -> Result<Version, Seq<char>> {
    match (component_value(major), component_value(minor), component_value(patch)) {
        (Some(a), Some(b), Some(c)) => Ok(Version { major: a, minor: b, patch: c }),
        (None, _, _) => Err(invalid_component_message("major"@, major)),
        (_, None, _) => Err(invalid_component_message("minor"@, minor)),
        (_, _, None) => Err(invalid_component_message("patch"@, patch)),
    }
}

/// The result of reading a version out of `text` with `VERSION_PATTERN`.
pub open spec fn version_from_text(text: Seq<char>) -> Result<Version, Seq<char>> {
    if !regex_accepts(VERSION_PATTERN@) {
        Err("version pattern is not valid"@)
    } else {
        match regex_captures_named(VERSION_PATTERN@, text, version_group_names()) {
            None => Err("pattern not matched"@),
            Some(groups) => if groups.len() != 3 || groups[0] is None {
                Err("cannot find major version"@)
            } else if groups[1] is None {
                Err("cannot find minor version"@)
            } else if groups[2] is None {
                Err("cannot find patch version"@)
            } else {
                version_from_components(
                    groups[0]->Some_0,
                    groups[1]->Some_0,
                    groups[2]->Some_0,
                )
            },
        }
    }
}

fn invalid_component(label: &str, text: &str) -> (r: String)
    ensures
        r@ == invalid_component_message(label@, text@),
{
    let mut message = label.to_owned();
    message.append(" ");
    message.append(text);
    message.append(" is not valid");
    message
}

/// Builds a version from the texts of its three components; each must read
/// as `u32`, else the message names the first component that does not.
pub fn version_from_parts(major: &str, minor: &str, patch: &str) -> (r: Result<Version, String>)
    ensures
        match version_from_components(major@, minor@, patch@) {
            Ok(v) => r == Ok::<Version, String>(v),
            Err(m) => r matches Err(e) && e@ == m,
        },
{
    let a = match parse_u32(major) {
        Some(v) => v,
        None => return Err(invalid_component("major", major)),
    };
    let b = match parse_u32(minor) {
        Some(v) => v,
        None => return Err(invalid_component("minor", minor)),
    };
    let c = match parse_u32(patch) {
        Some(v) => v,
        None => return Err(invalid_component("patch", patch)),
    };
    Ok(Version { major: a, minor: b, patch: c })
}

/// Reads the first `major.minor.patch` in `text`, once the pattern is known
/// to compile.
pub(crate) fn parse_version(text: &str) -> (r: Result<Version, String>)
    requires
        regex_accepts(VERSION_PATTERN@),
    ensures
        match version_from_text(text@) {
            Ok(v) => r == Ok::<Version, String>(v),
            Err(m) => r matches Err(e) && e@ == m,
        },
{
    let names: [&str; 3] = ["major", "minor", "patch"];
    let found = regex_captures(VERSION_PATTERN, text, &names).unwrap();
    assert(names.deep_view() =~= version_group_names());
    let groups = match found {
        None => return Err("pattern not matched".to_owned()),
        Some(groups) => groups,
    };
    assert(groups.deep_view().len() == groups.len());
    let major = match &groups[0] {
        Some(s) => s,
        None => return Err("cannot find major version".to_owned()),
    };
    let minor = match &groups[1] {
        Some(s) => s,
        None => return Err("cannot find minor version".to_owned()),
    };
    let patch = match &groups[2] {
        Some(s) => s,
        None => return Err("cannot find patch version".to_owned()),
    };
    version_from_parts(major.as_str(), minor.as_str(), patch.as_str())
}

impl TryFrom<String> for Version {
    type Error = String;

    /// Reads the first `major.minor.patch` in the text; the error says so
    /// when the pattern does not compile.
    fn try_from(text: String) -> (r: Result<Version, String>)
        ensures
            match version_from_text(text@) {
                Ok(v) => r == Ok::<Version, String>(v),
                Err(m) => r matches Err(e) && e@ == m,
            },
    {
        if regex_compiles(VERSION_PATTERN) {
            parse_version(text.as_str())
        } else {
            Err("version pattern is not valid".to_owned())
        }
    }
}

/// Whether `r` is what reading `text` gives: the version, or an error whose
/// text is the message for `text`.
pub open spec fn read_result(text: Seq<char>, r: Result<Version, String>) -> bool {
    match version_from_text(text) {
        Ok(v) => r == Ok::<Version, String>(v),
        Err(m) => r matches Err(e) && e@ == m,
    }
}

impl TryFromSpecImpl<String> for Version {
    /// `try_from` is described by its own `ensures`: a `String` is known
    /// here only by its characters, so the error value is not pinned down.
    open spec fn obeys_try_from_spec() -> bool {
        false
    }

    /// A result of reading `text`: the version, or an error whose text is
    /// the message for `text`.
    open spec fn try_from_spec(text: String) -> Result<Version, String> {
        choose|r: Result<Version, String>| #[trigger] read_result(text@, r)
    }
}

} // verus!
