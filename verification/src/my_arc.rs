use vstd::prelude::*;

verus! {

/// A shared, reference-counted pointer to a value.
pub struct MyArc<T> {
    inner: std::sync::Arc<T>,
}

impl<T> View for MyArc<T> {
    type V = T;

    closed spec fn view(&self) -> T {
        *self.inner
    }
}

/// The number of pointers that share the allocation (`Arc::strong_count`).
/// Trusted: while the given pointer lives the count is at least one; the exact count
/// depends on other threads and is not stated.
#[verifier::external_body]
fn arc_strong_count<T>(a: &std::sync::Arc<T>) -> (n: usize)
    ensures
        n >= 1,
{
    std::sync::Arc::strong_count(a)
}

/// Another pointer to the same allocation (`Arc::clone`).
/// Trusted: the new pointer points to the same value.
#[verifier::external_body]
fn arc_clone<T>(a: &std::sync::Arc<T>) -> (r: std::sync::Arc<T>)
    ensures
        *r == **a,
{
    std::sync::Arc::clone(a)
}

/// A reference to the shared value (`Arc::as_ref`).
/// Trusted: the reference is to the value the pointer holds.
#[verifier::external_body]
fn arc_get<T>(a: &std::sync::Arc<T>) -> (r: &T)
    ensures
        *r == **a,
{
    a.as_ref()
}

impl<T> MyArc<T> {
    /// A new pointer to `value`, the only one to it.
    pub fn new(value: T) -> (r: Self)
        ensures
            r@ == value,
    {
        MyArc { inner: std::sync::Arc::new(value) }
    }

    /// The number of pointers that share this one's value.
    pub fn strong_count(this: &Self) -> (n: usize)
        ensures
            n >= 1,
    {
        arc_strong_count(&this.inner)
    }

    /// The shared value.
    pub fn get(&self) -> (r: &T)
        ensures
            *r == self@,
    {
        arc_get(&self.inner)
    }
}

impl<T> Clone for MyArc<T> {
    fn clone(&self) -> (r: Self)
        ensures
            r@ == self@,
    {
        MyArc { inner: arc_clone(&self.inner) }
    }
}

} // verus!
