//! Heterogeneous lists whose length and element types are known at compile time.
//!
//! A list is built from [`Cons`] cells ending in [`Nil`]: a two-element list is
//! `Cons(a, Cons(b, Nil))`.
use vstd::prelude::*;

verus! {

/// The empty list.
#[derive(Debug, Clone, Copy)]
pub struct Nil;

/// A non-empty list: a head element and the rest of the list.
#[derive(Debug, Clone, Copy)]
pub struct Cons<Head, Tail>(pub Head, pub Tail);

/// Head element type of a list.
pub trait KnownHead {
    type Head;
}

/// Shared access to the head element.
pub trait GetHead: KnownHead {
    /// The head element.
    spec fn head_spec(&self) -> Self::Head;

    fn head(&self) -> (r: &Self::Head)
        ensures
            *r == self.head_spec(),
    ;
}

impl<H, T> KnownHead for Cons<H, T> {
    type Head = H;
}

impl<H, T> GetHead for Cons<H, T> {
    open spec fn head_spec(&self) -> H {
        self.0
    }

    fn head(&self) -> (r: &H) {
        &self.0
    }
}

/// Exclusive access to the head element.
pub trait GetHeadMut: GetHead + Sized {
    /// This list with its head replaced by `h`.
    spec fn with_head_spec(&self, h: Self::Head) -> Self;

    fn head_mut(&mut self) -> (r: &mut Self::Head)
        ensures
            *r == old(self).head_spec(),
            *final(self) == old(self).with_head_spec(*final(r)),
    ;
}

impl<H, T> GetHeadMut for Cons<H, T> {
    open spec fn with_head_spec(&self, h: H) -> Self {
        Cons(h, self.1)
    }

    fn head_mut(&mut self) -> (r: &mut H) {
        &mut self.0
    }
}

/// Tail type of a list.
pub trait KnownTail {
    type Tail;
}

/// Shared access to the tail.
pub trait GetTail: KnownTail {
    /// The tail.
    spec fn tail_spec(&self) -> Self::Tail;

    fn tail(&self) -> (r: &Self::Tail)
        ensures
            *r == self.tail_spec(),
    ;
}

/// Exclusive access to the tail.
pub trait GetTailMut: GetTail + Sized {
    /// This list with its tail replaced by `t`.
    spec fn with_tail_spec(&self, t: Self::Tail) -> Self;

    fn tail_mut(&mut self) -> (r: &mut Self::Tail)
        ensures
            *r == old(self).tail_spec(),
            *final(self) == old(self).with_tail_spec(*final(r)),
    ;
}

impl<H, T> KnownTail for Cons<H, T> {
    type Tail = T;
}

impl<H, T> GetTail for Cons<H, T> {
    open spec fn tail_spec(&self) -> T {
        self.1
    }

    fn tail(&self) -> (r: &T) {
        &self.1
    }
}

impl<H, T> GetTailMut for Cons<H, T> {
    open spec fn with_tail_spec(&self, t: T) -> Self {
        Cons(self.0, t)
    }

    fn tail_mut(&mut self) -> (r: &mut T) {
        &mut self.1
    }
}

/// A type with a list representation of its fields, in order.
pub trait HasHListRepr {
    type HListRepr;
}

/// Conversion of a value into the list of its fields.
pub trait IntoHList: HasHListRepr + Sized {
    /// The list of the fields of `self`.
    spec fn hlist_spec(self) -> Self::HListRepr;

    fn into_hlist(self) -> (r: Self::HListRepr)
        ensures
            r == self.hlist_spec(),
    ;
}

/// A list of shared references to the fields of a value.
pub trait AsHList<'a> {
    type Refs;

    /// The list of (references to) the fields of `self`.
    spec fn as_hlist_spec(&'a self) -> Self::Refs;

    fn as_hlist(&'a self) -> (r: Self::Refs)
        ensures
            r == self.as_hlist_spec(),
    ;
}

/// A list of exclusive references to the fields of a value.
pub trait AsHListMut<'a> {
    type RefsMut;

    /// `r` refers to the fields of `self`, in order, as they are now.
    spec fn refers_to(&self, r: &Self::RefsMut) -> bool;

    fn as_hlist_mut(&'a mut self) -> (r: Self::RefsMut)
        ensures
            old(self).refers_to(&r),
    ;
}

} // verus!
