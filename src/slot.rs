use std::sync::Arc;

use vstd::prelude::*;

verus! {

/// The shared container of one request's resource.
///
/// The broker keeps one reference and the request's context another; any
/// stage that reaches the context can reach the resource. When the request is
/// done, the broker reclaims the resource, which only succeeds if its
/// reference is the last one left.
pub struct SharedSlot<H> {
    inner: Arc<H>,
}

impl<H> View for SharedSlot<H> {
    type V = H;

    /// The value held in the slot.
    closed spec fn view(&self) -> H {
        *self.inner
    }
}

/// Relies on `Arc::try_unwrap`: it returns the inner value when no other
/// `Arc` points to it, and otherwise hands back the same `Arc`.
#[verifier::external_body]
fn arc_try_unwrap<H>(a: Arc<H>) -> (r: Result<H, Arc<H>>)
    ensures
        match r {
            Ok(h) => h == *a,
            Err(b) => *b == *a,
        },
{
    Arc::try_unwrap(a)
}

impl<H> SharedSlot<H> {
    /// A slot that holds `handle`, with one reference to it.
    pub fn new(handle: H) -> (r: SharedSlot<H>)
        ensures
            r@ == handle,
    {
        SharedSlot { inner: Arc::new(handle) }
    }

    /// Another reference to the same slot.
    pub fn share(&self) -> (r: SharedSlot<H>)
        ensures
            r@ == self@,
    {
        SharedSlot { inner: self.inner.clone() }
    }

    /// The value held in the slot.
    pub fn get(&self) -> (r: &H)
        ensures
            *r == self@,
    {
        &*self.inner
    }

    /// Takes the value out of the slot if this is the last reference to it;
    /// otherwise hands the slot back unchanged.
    pub fn reclaim(self) -> (r: Result<H, SharedSlot<H>>)
        ensures
            match r {
                Ok(h) => h == self@,
                Err(s) => s@ == self@,
            },
    {
        match arc_try_unwrap(self.inner) {
            Ok(h) => Ok(h),
            Err(a) => Err(SharedSlot { inner: a }),
        }
    }
}

} // verus!
