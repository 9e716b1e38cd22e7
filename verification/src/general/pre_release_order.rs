//! The order of pre-release tags.
use vstd::prelude::*;

use crate::general::version::PreRelease;

verus! {

/// True when pre-release `a` comes before `b`: its tag byte is smaller, or
/// the tags are the same and its number is smaller.
pub open spec fn pre_release_before(a: PreRelease, b: PreRelease) -> bool {
    a.release_type < b.release_type || (a.release_type == b.release_type && a.version
        < b.version)
}

/// The ordering of `a` against `b`: by tag byte, then by number.
pub open spec fn pre_release_ordering(a: PreRelease, b: PreRelease) -> Option<std::cmp::Ordering> {
    if a.release_type < b.release_type {
        Some(std::cmp::Ordering::Less)
    } else if a.release_type > b.release_type {
        Some(std::cmp::Ordering::Greater)
    } else if a.version < b.version {
        Some(std::cmp::Ordering::Less)
    } else if a.version > b.version {
        Some(std::cmp::Ordering::Greater)
    } else {
        Some(std::cmp::Ordering::Equal)
    }
}

/// The pre-release order is a total order: two tags always compare, they
/// compare `Equal` exactly when they are the same tag, swapping them turns
/// `Less` into `Greater`, and `before` is transitive.
pub proof fn law_pre_release_order_is_total(a: PreRelease, b: PreRelease, c: PreRelease)
    ensures
        pre_release_ordering(a, b) is Some,
        pre_release_ordering(a, b) == Some(std::cmp::Ordering::Equal) <==> a == b,
        pre_release_ordering(a, b) == Some(std::cmp::Ordering::Less) <==> pre_release_before(a, b),
        pre_release_ordering(a, b) == Some(std::cmp::Ordering::Less) <==> pre_release_ordering(b, a)
            == Some(std::cmp::Ordering::Greater),
        pre_release_before(a, b) && pre_release_before(b, c) ==> pre_release_before(a, c),
        !(pre_release_before(a, b) && pre_release_before(b, a)),
{
}

impl PartialOrd for PreRelease {
    fn partial_cmp(&self, other: &Self) -> (r: Option<std::cmp::Ordering>) {
        if self.release_type < other.release_type {
            Some(std::cmp::Ordering::Less)
        } else if self.release_type > other.release_type {
            Some(std::cmp::Ordering::Greater)
        } else if self.version < other.version {
            Some(std::cmp::Ordering::Less)
        } else if self.version > other.version {
            Some(std::cmp::Ordering::Greater)
        } else {
            Some(std::cmp::Ordering::Equal)
        }
    }
}

impl vstd::std_specs::cmp::PartialOrdSpecImpl for PreRelease {
    open spec fn obeys_partial_cmp_spec() -> bool {
        true
    }

    open spec fn partial_cmp_spec(&self, other: &Self) -> Option<std::cmp::Ordering> {
        pre_release_ordering(*self, *other)
    }
}

} // verus!
