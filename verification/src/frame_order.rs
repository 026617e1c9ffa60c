//! Ordering a frame against a plain frame number.
use vstd::prelude::*;

use crate::frame::Frame;
use std::cmp::Ordering;
use vstd::std_specs::cmp::PartialOrdSpec;
use vstd::std_specs::cmp::PartialOrdSpecImpl;

verus! {

broadcast use crate::frame::group_frame_view;

impl PartialOrd for Frame {
    /// Compares the frame numbers.
    fn partial_cmp(&self, other: &Frame) -> (r: Option<Ordering>) {
        let a = self.as_i32();
        let b = other.as_i32();
        if a < b {
            Some(Ordering::Less)
        } else if a > b {
            Some(Ordering::Greater)
        } else {
            Some(Ordering::Equal)
        }
    }
}

impl PartialOrdSpecImpl for Frame {
    open spec fn obeys_partial_cmp_spec() -> bool {
        true
    }

    open spec fn partial_cmp_spec(&self, other: &Frame) -> Option<Ordering> {
        if self@ < other@ {
            Some(Ordering::Less)
        } else if self@ > other@ {
            Some(Ordering::Greater)
        } else {
            Some(Ordering::Equal)
        }
    }
}

impl PartialOrd<i32> for Frame {
    /// Compares the frame's number with `other`.
    fn partial_cmp(&self, other: &i32) -> (r: Option<Ordering>) {
        let n = self.as_i32();
        if n < *other {
            Some(Ordering::Less)
        } else if n > *other {
            Some(Ordering::Greater)
        } else {
            Some(Ordering::Equal)
        }
    }
}

impl PartialOrdSpecImpl<i32> for Frame {
    open spec fn obeys_partial_cmp_spec() -> bool {
        true
    }

    open spec fn partial_cmp_spec(&self, other: &i32) -> Option<Ordering> {
        if self@ < *other {
            Some(Ordering::Less)
        } else if self@ > *other {
            Some(Ordering::Greater)
        } else {
            Some(Ordering::Equal)
        }
    }
}

/// Frames are ordered as their numbers, and frames with equal numbers are
/// the same frame.
pub proof fn law_frame_order_matches_numbers(a: Frame, b: Frame)
    ensures
        (a@ < b@) == (PartialOrdSpec::partial_cmp_spec(&a, &b) == Some(Ordering::Less)),
        (a@ > b@) == (PartialOrdSpec::partial_cmp_spec(&a, &b) == Some(Ordering::Greater)),
        (a@ == b@) == (PartialOrdSpec::partial_cmp_spec(&a, &b) == Some(Ordering::Equal)),
        (a@ == b@) == (a == b),
{
}

} // verus!
