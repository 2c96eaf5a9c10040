//! Semantic versions `major.minor.patch` and their order.
use vstd::prelude::*;
use std::cmp::Ordering;
use vstd::std_specs::cmp::PartialOrdSpecImpl;

verus! {

/// A version number `major.minor.patch`.
#[derive(Clone, Debug, PartialEq, Eq, Structural, Ord, Hash)]
pub struct Version {
    pub major: u32,
    pub minor: u32,
    pub patch: u32,
}

/// Compares two components: `Less`, `Greater`, or `None` when they are equal.
pub open spec fn component_order(a: u32, b: u32) -> Option<Ordering> {
    if a < b {
        Some(Ordering::Less)
    } else if a > b {
        Some(Ordering::Greater)
    } else {
        None
    }
}

/// Versions are compared by major, then minor, then patch; two equal versions
/// have no order (`None`).
pub open spec fn version_order(a: Version, b: Version) -> Option<Ordering> {
    match component_order(a.major, b.major) {
        Some(o) => Some(o),
        None => match component_order(a.minor, b.minor) {
            Some(o) => Some(o),
            None => component_order(a.patch, b.patch),
        },
    }
}

fn order_components(a: u32, b: u32) -> (r: Option<Ordering>)
    ensures
        r == component_order(a, b),
{
    if a < b {
        Some(Ordering::Less)
    } else if a > b {
        Some(Ordering::Greater)
    } else {
        None
    }
}

impl PartialOrd for Version {
    fn partial_cmp(&self, other: &Self) -> (r: Option<Ordering>) {
        let major_order = order_components(self.major, other.major);
        if major_order.is_some() {
            return major_order;
        }
        let minor_order = order_components(self.minor, other.minor);
        if minor_order.is_some() {
            return minor_order;
        }
        let patch_order = order_components(self.patch, other.patch);
        if patch_order.is_some() {
            return patch_order;
        }
        None
    }
}

impl PartialOrdSpecImpl for Version {
    open spec fn obeys_partial_cmp_spec() -> bool {
        true
    }

    open spec fn partial_cmp_spec(&self, other: &Self) -> Option<Ordering> {
        version_order(*self, *other)
    }
}

/// Versions are ordered lexicographically by major, minor, then patch
/// number, smaller numbers first: `a` is older than `b` exactly when its
/// major number is smaller, or the majors agree and its minor number is
/// smaller, or both agree and its patch number is smaller.
pub proof fn lemma_order_is_lexicographic(a: Version, b: Version)
    ensures
        version_order(a, b) == Some(Ordering::Less) <==> (a.major < b.major || (a.major == b.major
            && (a.minor < b.minor || (a.minor == b.minor && a.patch < b.patch)))),
        version_order(a, b) == Some(Ordering::Greater) <==> (a.major > b.major || (a.major
            == b.major && (a.minor > b.minor || (a.minor == b.minor && a.patch > b.patch)))),
{
}

/// Two versions have no order exactly when they are equal.
pub proof fn lemma_unordered_iff_equal(a: Version, b: Version)
    ensures
        version_order(a, b) is None <==> a == b,
{
}

/// Swapping the operands reverses the order.
pub proof fn lemma_order_antisymmetric(a: Version, b: Version)
    ensures
        version_order(a, b) == Some(Ordering::Less) <==> version_order(b, a) == Some(
            Ordering::Greater,
        ),
        version_order(a, b) == Some(Ordering::Greater) <==> version_order(b, a) == Some(
            Ordering::Less,
        ),
{
}

/// "Older than" is transitive.
pub proof fn lemma_order_transitive(a: Version, b: Version, c: Version)
    requires
        version_order(a, b) == Some(Ordering::Less),
        version_order(b, c) == Some(Ordering::Less),
    ensures
        version_order(a, c) == Some(Ordering::Less),
{
}

/// Two distinct versions are always ordered one way or the other.
pub proof fn lemma_order_total(a: Version, b: Version)
    requires
        a != b,
    ensures
        version_order(a, b) == Some(Ordering::Less) || version_order(a, b) == Some(
            Ordering::Greater,
        ),
{
}

} // verus!
