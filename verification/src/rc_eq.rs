//! A shared value, compared by identity rather than by contents.

use std::rc::Rc;
use vstd::prelude::*;

verus! {

/// `Rc::ptr_eq`: whether two handles share one allocation. That depends on where values were
/// allocated, so all that is stated is that handles sharing one allocation share its value.
#[verifier::external_body]
fn rc_ptr_eq<T>(a: &Rc<T>, b: &Rc<T>) -> (r: bool)
    ensures
        r ==> **a == **b,
{
    Rc::ptr_eq(a, b)
}

/// A shared value; two handles are the same when they share one allocation.
pub struct RcEq<T>(pub Rc<T>);

impl<T> RcEq<T> {
    /// Shares a new value.
    pub fn new(val: T) -> (r: Self)
        ensures
            *r.0 == val,
    {
        RcEq(Rc::new(val))
    }

    /// Whether the two handles share one allocation, the equality of this type. Which handles
    /// share one depends on how they were made; sharing handles hold the same value.
    pub fn same(&self, other: &Self) -> (r: bool)
        ensures
            r ==> *self.0 == *other.0,
    {
        rc_ptr_eq(&self.0, &other.0)
    }

    /// The shared value.
    pub fn get(&self) -> (r: &T)
        ensures
            *r == *self.0,
    {
        &*self.0
    }
}

} // verus!
