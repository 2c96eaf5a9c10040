use std::cmp::Ordering;
use std::convert::TryInto;

use qrt_rust_utils::version::Version;
use qrt_rust_utils::version_text::version_from_parts;

#[test]
fn parse() {
    let version1: Version = String::from("1.2.3").try_into().unwrap();
    println!("{:?}", &version1);
    let version2: Version = String::from("1.2.4").try_into().unwrap();
    println!("{:?}", &version2);
    assert!(version1.cmp(&version2).is_lt());
    assert!(version2.cmp(&version1).is_gt());
}

#[test]
fn version_partial_order_is_none_for_equal_versions() {
    let a = Version { major: 1, minor: 2, patch: 3 };
    let b = Version { major: 1, minor: 2, patch: 3 };
    assert_eq!(a.partial_cmp(&b), None);
    let c = Version { major: 1, minor: 3, patch: 0 };
    assert_eq!(a.partial_cmp(&c), Some(Ordering::Less));
    assert_eq!(c.partial_cmp(&a), Some(Ordering::Greater));
    let d = Version { major: 2, minor: 0, patch: 0 };
    assert_eq!(d.partial_cmp(&c), Some(Ordering::Greater));
}

#[test]
fn version_found_inside_text() {
    let v: Version = String::from("release v10.20.30-beta").try_into().unwrap();
    assert_eq!(v, Version { major: 10, minor: 20, patch: 30 });
    // the separators match any single character
    let v: Version = String::from("7x8y9").try_into().unwrap();
    assert_eq!(v, Version { major: 7, minor: 8, patch: 9 });
}

#[test]
fn version_without_pattern_is_an_error() {
    let r: Result<Version, String> = String::from("1.2").try_into();
    assert_eq!(r, Err(String::from("pattern not matched")));
}

#[test]
fn version_component_too_large_is_reported() {
    let r: Result<Version, String> = String::from("99999999999.1.2").try_into();
    assert_eq!(r, Err(String::from("major 99999999999 is not valid")));
    assert_eq!(
        version_from_parts("1", "4294967296", "0"),
        Err(String::from("minor 4294967296 is not valid"))
    );
    assert_eq!(
        version_from_parts("4294967295", "0", "+7"),
        Ok(Version { major: 4294967295, minor: 0, patch: 7 })
    );
}
