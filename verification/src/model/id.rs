//! Identifiers: team numbers and the typed string keys that reference
//! remote resources.

use vstd::prelude::*;
use core::marker::PhantomData;
use crate::text::{dec_str, fmt_u64};

verus! {

/// A team number that uniquely identifies an FRC [`Team`](super::team::Team).
#[derive(Clone, Copy, Debug, PartialEq, Eq, Hash, Structural)]
pub struct TeamNumber(u32);

impl View for TeamNumber {
    type V = u32;

    closed spec fn view(&self) -> u32 {
        self.0
    }
}

impl TeamNumber {
    /// Create a new `TeamNumber` with the given value.
    pub fn new(n: u32) -> (r: Self)
        ensures
            r@ == n,
    {
        TeamNumber(n)
    }

    /// Get the team number from this wrapper structure.
    pub fn val(&self) -> (r: u32)
        ensures
            r == self@,
    {
        self.0
    }

    /// The number as decimal text.
    pub fn text(&self) -> (r: String)
        ensures
            r@ == dec_str(self@ as nat),
    {
        fmt_u64(self.0 as u64)
    }
}

/// A key that references a resource of type `T`: an opaque lookup token
/// with no ownership relationship to the resource itself.
#[derive(Debug)]
pub struct Key<T> {
    key: String,
    kind: PhantomData<T>,
}

impl<T> View for Key<T> {
    type V = Seq<char>;

    closed spec fn view(&self) -> Seq<char> {
        self.key@
    }
}

impl<T> Key<T> {
    /// Wrap a raw key string.
    pub fn new(key: String) -> (r: Self)
        ensures
            r@ == key@,
    {
        Key { key, kind: PhantomData }
    }

    /// The raw key text, as substituted into request paths.
    pub fn text(&self) -> (r: &str)
        ensures
            r@ == self@,
    {
        self.key.as_str()
    }
}

impl<T> Clone for Key<T> {
    fn clone(&self) -> (r: Self)
        ensures
            r@ == self@,
    {
        Key { key: self.key.clone(), kind: PhantomData }
    }
}

impl<T> PartialEq for Key<T> {
    fn eq(&self, other: &Self) -> (r: bool) {
        self.key == other.key
    }
}

impl<T> Eq for Key<T> {

}

impl<T> core::hash::Hash for Key<T> {
    #[verifier::external_body]
    fn hash<H: core::hash::Hasher>(&self, state: &mut H) {
        self.key.hash(state)
    }
}

impl<T> vstd::std_specs::cmp::PartialEqSpecImpl for Key<T> {
    open spec fn obeys_eq_spec() -> bool {
        true
    }

    open spec fn eq_spec(&self, other: &Self) -> bool {
        self@ == other@
    }
}

} // verus!
