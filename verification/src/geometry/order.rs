//! The orders in which the corners of a polygon are sorted.
//!
//! Sorting compares two corners at a time. What is compared is a difference
//! or an angle, which the caller works out; the order that follows from it
//! is decided here.

use crate::scalar::Scalar;
use std::cmp::Ordering;
use vstd::prelude::*;

verus! {

/// The order of two corners by their angles about a common centre: corners
/// whose angles are nearly the same are equal, otherwise the corner with the
/// smaller angle comes first. An angle that is no number comes after
/// everything it is not near to.
pub fn angle_order(angle_a: Scalar, angle_b: Scalar) -> (order: Ordering)
    ensures
        order == if angle_a.nearly(angle_b) {
            Ordering::Equal
        } else if angle_a.lt(angle_b) {
            Ordering::Less
        } else {
            Ordering::Greater
        },
{
    if angle_a.nearly(angle_b) {
        Ordering::Equal
    } else if angle_a.lt(angle_b) {
        Ordering::Less
    } else {
        Ordering::Greater
    }
}

/// What two corners are told apart by in the walk of a hull: how far apart
/// they are from left to right, or, where that is nearly nothing, how far
/// apart they are from bottom to top.
pub open spec fn walk_gap(delta_x: Scalar, delta_y: Scalar) -> Scalar {
    if delta_x.nearly(Scalar::zero()) {
        delta_y
    } else {
        delta_x
    }
}

/// The order of two corners in the walk of a hull, from the first corner
/// minus the second: the first comes first where the gap is below zero, and
/// last in every other case. Two corners are never equal in this order.
pub fn walk_order(delta_x: Scalar, delta_y: Scalar) -> (order: Ordering)
    ensures
        order == if walk_gap(delta_x, delta_y).lt(Scalar::zero()) {
            Ordering::Less
        } else {
            Ordering::Greater
        },
{
    let gap = if delta_x.nearly(Scalar::zero()) {
        delta_y
    } else {
        delta_x
    };
    if gap.lt(Scalar::zero()) {
        Ordering::Less
    } else {
        Ordering::Greater
    }
}

} // verus!
