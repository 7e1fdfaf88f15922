//! Integer 2D vectors as `cgmath` provides them, and the unbounded integer
//! plane in which the contracts of this crate speak of them.

use cgmath::Vector2;
use vstd::prelude::*;

verus! {

/// `cgmath::Vector2`, taken as `cgmath` declares it: a struct of two public
/// components, `x` and `y`, and nothing else.
#[verifier::external_type_specification]
#[verifier::reject_recursive_types(S)]
pub struct ExVector2<S>(Vector2<S>);

/// A point, or a displacement, of the unbounded integer plane.
pub struct Offset {
    pub x: int,
    pub y: int,
}

impl Offset {
    /// The origin, and the displacement that leads nowhere.
    pub open spec fn zero() -> Offset {
        Offset { x: 0, y: 0 }
    }

    /// The sum, component by component.
    pub open spec fn plus(self, other: Offset) -> Offset {
        Offset { x: self.x + other.x, y: self.y + other.y }
    }

    /// The difference, component by component: the displacement that leads
    /// from `other` to `self`.
    pub open spec fn minus(self, other: Offset) -> Offset {
        Offset { x: self.x - other.x, y: self.y - other.y }
    }

    /// Both components can be held by an `i32`.
    pub open spec fn fits(self) -> bool {
        &&& i32::MIN <= self.x <= i32::MAX
        &&& i32::MIN <= self.y <= i32::MAX
    }
}

/// The point of the plane that a vector of `i32` components stands for.
pub open spec fn offset_of(v: Vector2<i32>) -> Offset {
    Offset { x: v.x as int, y: v.y as int }
}

/// `cgmath::Vector2::new` stores its two arguments as the `x` and the `y`
/// component of the vector it returns.
pub assume_specification<S>[ Vector2::<S>::new ](x: S, y: S) -> (v: Vector2<S>)
    ensures
        v.x == x,
        v.y == y,
;

/// `Add::add` of `cgmath` for `Vector2<S>`, at `S = i32`: each component of
/// the result is the primitive `i32` sum of the operands' components.
/// Operands whose sum leaves the range of `i32` are left out, since the
/// primitive `+` may panic on them.
#[verifier::external_body]
pub(crate) fn vector_sum(a: Vector2<i32>, b: Vector2<i32>) -> (sum: Vector2<i32>)
    requires
        offset_of(a).plus(offset_of(b)).fits(),
    ensures
        offset_of(sum) == offset_of(a).plus(offset_of(b)),
{
    a + b
}

/// `Sub::sub` of `cgmath` for `Vector2<S>`, at `S = i32`: each component of
/// the result is the primitive `i32` difference of the operands' components.
/// Operands whose difference leaves the range of `i32` are left out, since
/// the primitive `-` may panic on them.
#[verifier::external_body]
pub(crate) fn vector_difference(a: Vector2<i32>, b: Vector2<i32>) -> (difference: Vector2<i32>)
    requires
        offset_of(a).minus(offset_of(b)).fits(),
    ensures
        offset_of(difference) == offset_of(a).minus(offset_of(b)),
{
    a - b
}

/// Tells whether `a + b` can be formed without leaving the range of `i32`.
pub fn sum_fits(a: Vector2<i32>, b: Vector2<i32>) -> (fits: bool)
    ensures
        fits == offset_of(a).plus(offset_of(b)).fits(),
{
    a.x.checked_add(b.x).is_some() && a.y.checked_add(b.y).is_some()
}

/// Tells whether `a - b` can be formed without leaving the range of `i32`.
pub fn difference_fits(a: Vector2<i32>, b: Vector2<i32>) -> (fits: bool)
    ensures
        fits == offset_of(a).minus(offset_of(b)).fits(),
{
    a.x.checked_sub(b.x).is_some() && a.y.checked_sub(b.y).is_some()
}

} // verus!
