//! Statuses are compared by their severity.

use core::cmp::Ordering;
use vstd::prelude::*;
use vstd::std_specs::cmp::PartialOrdSpecImpl;
use crate::status::{ServiceStatus, severity};

verus! {

/// Compares two statuses by severity.
pub open spec fn severity_order(a: ServiceStatus, b: ServiceStatus) -> Option<Ordering> {
    if severity(a) < severity(b) {
        Some(Ordering::Less)
    } else if severity(a) == severity(b) {
        Some(Ordering::Equal)
    } else {
        Some(Ordering::Greater)
    }
}

impl PartialOrd for ServiceStatus {
    fn partial_cmp(&self, other: &Self) -> (r: Option<Ordering>) {
        let a = self.severity();
        let b = other.severity();
        if a < b {
            Some(Ordering::Less)
        } else if a == b {
            Some(Ordering::Equal)
        } else {
            Some(Ordering::Greater)
        }
    }
}

impl PartialOrdSpecImpl for ServiceStatus {
    open spec fn obeys_partial_cmp_spec() -> bool {
        true
    }

    open spec fn partial_cmp_spec(&self, other: &Self) -> Option<Ordering> {
        severity_order(*self, *other)
    }
}

/// Comparing statuses only ever says equal for the same status, and swapping the
/// arguments flips the answer.
pub proof fn severity_order_is_antisymmetric(a: ServiceStatus, b: ServiceStatus)
    ensures
        severity_order(a, b) == Some(Ordering::Equal) <==> a == b,
        severity_order(a, b) == Some(Ordering::Less) <==> severity_order(b, a) == Some(
            Ordering::Greater,
        ),
{
}

/// Ordering by severity is transitive.
pub proof fn severity_order_is_transitive(a: ServiceStatus, b: ServiceStatus, c: ServiceStatus)
    requires
        severity_order(a, b) == Some(Ordering::Less),
        severity_order(b, c) == Some(Ordering::Less),
    ensures
        severity_order(a, c) == Some(Ordering::Less),
{
}

} // verus!
