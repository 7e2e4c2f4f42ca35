//! Tuples as a family of heterogeneous lists: each tuple converts to the list of its fields and
//! back, lends its fields as a list of references, and gives access to a field by position.
use vstd::prelude::*;

use crate::hlist::AsHList;
use crate::hlist::AsHListMut;
use crate::hlist::Cons;
use crate::hlist::HasHListRepr;
use crate::hlist::IntoHList;
use crate::hlist::Nil;

verus! {

/// The tuple family.
#[derive(Clone, Copy, Debug)]
pub struct Tuple;

/// Conversion of a list into the tuple of its elements.
pub trait IntoTuple: Sized {
    type Output;

    /// The tuple of the elements of `self`.
    spec fn tuple_spec(self) -> Self::Output;

    fn into_tuple(self) -> (r: Self::Output)
        ensures
            r == self.tuple_spec(),
    ;
}

/// The field at position `N`.
pub trait HasFieldAt<const N: usize> {
    type Field;

    /// The field at position `N` of `self`.
    spec fn field_at_spec(&self) -> Self::Field;

    fn get_field_at(&self) -> (r: &Self::Field)
        ensures
            *r == self.field_at_spec(),
    ;
}

/// Access to a field by its position, written `t.field_at::<N>()`.
pub trait FieldAt {
    fn field_at<const N: usize>(&self) -> (r: &<Self as HasFieldAt<N>>::Field) where
        Self: HasFieldAt<N>,
        ensures
            *r == self.field_at_spec(),
    {
        self.get_field_at()
    }
}

/// Splitting off the last field.
pub trait PopLastField: Sized {
    type Last;
    type Init;

    /// The last field of `self`.
    spec fn last_spec(self) -> Self::Last;

    /// All fields of `self` but the last.
    spec fn init_spec(self) -> Self::Init;

    fn pop_last_field(self) -> (r: (Self::Last, Self::Init))
        ensures
            r.0 == self.last_spec(),
            r.1 == self.init_spec(),
    ;
}

// Arity 0.

impl HasHListRepr for () {
    type HListRepr = Nil;
}

impl IntoHList for () {
    open spec fn hlist_spec(self) -> Nil {
        Nil
    }

    fn into_hlist(self) -> (r: Nil) {
        Nil
    }
}

impl IntoTuple for Nil {
    type Output = ();

    open spec fn tuple_spec(self) -> () {
        ()
    }

    fn into_tuple(self) -> (r: ()) {
        ()
    }
}

// Arity 1.

impl<A> HasHListRepr for (A,) {
    type HListRepr = Cons<A, Nil>;
}

impl<A> IntoHList for (A,) {
    open spec fn hlist_spec(self) -> Cons<A, Nil> {
        Cons(self.0, Nil)
    }

    fn into_hlist(self) -> (r: Cons<A, Nil>) {
        Cons(self.0, Nil)
    }
}

impl<A> IntoTuple for Cons<A, Nil> {
    type Output = (A,);

    open spec fn tuple_spec(self) -> (A,) {
        (self.0,)
    }

    fn into_tuple(self) -> (r: (A,)) {
        (self.0,)
    }
}

impl<'a, A: 'a> AsHList<'a> for (A,) {
    type Refs = Cons<&'a A, Nil>;

    open spec fn as_hlist_spec(&'a self) -> Cons<&'a A, Nil> {
        Cons(&self.0, Nil)
    }

    fn as_hlist(&'a self) -> (r: Cons<&'a A, Nil>) {
        Cons(&self.0, Nil)
    }
}

impl<'a, A: 'a> AsHListMut<'a> for (A,) {
    type RefsMut = Cons<&'a mut A, Nil>;

    open spec fn refers_to(&self, r: &Cons<&'a mut A, Nil>) -> bool {
        *r.0 == self.0
    }

    fn as_hlist_mut(&'a mut self) -> (r: Cons<&'a mut A, Nil>) {
        let (a,) = self;
        Cons(a, Nil)
    }
}

impl<A> HasFieldAt<0> for (A,) {
    type Field = A;

    open spec fn field_at_spec(&self) -> A {
        self.0
    }

    fn get_field_at(&self) -> (r: &A) {
        &self.0
    }
}

impl<A> FieldAt for (A,) {
}

impl<A> PopLastField for (A,) {
    type Last = A;
    type Init = ();

    open spec fn last_spec(self) -> A {
        self.0
    }

    open spec fn init_spec(self) -> () {
        ()
    }

    fn pop_last_field(self) -> (r: (A, ())) {
        (self.0, ())
    }
}

// Arity 2.
impl<A, B> HasHListRepr for (A, B) {
    type HListRepr = Cons<A, Cons<B, Nil>>;
}

impl<A, B> IntoHList for (A, B) {
    open spec fn hlist_spec(self) -> Cons<A, Cons<B, Nil>> {
        Cons(self.0, Cons(self.1, Nil))
    }

    fn into_hlist(self) -> (r: Cons<A, Cons<B, Nil>>) {
        Cons(self.0, Cons(self.1, Nil))
    }
}

impl<A, B> IntoTuple for Cons<A, Cons<B, Nil>> {
    type Output = (A, B);

    open spec fn tuple_spec(self) -> (A, B) {
        (self.0, self.1.0)
    }

    fn into_tuple(self) -> (r: (A, B)) {
        let Cons(a, Cons(b, Nil)) = self;
        (a, b)
    }
}

impl<'a, A: 'a, B: 'a> AsHList<'a> for (A, B) {
    type Refs = Cons<&'a A, Cons<&'a B, Nil>>;

    open spec fn as_hlist_spec(&'a self) -> Cons<&'a A, Cons<&'a B, Nil>> {
        Cons(&self.0, Cons(&self.1, Nil))
    }

    fn as_hlist(&'a self) -> (r: Cons<&'a A, Cons<&'a B, Nil>>) {
        Cons(&self.0, Cons(&self.1, Nil))
    }
}

impl<'a, A: 'a, B: 'a> AsHListMut<'a> for (A, B) {
    type RefsMut = Cons<&'a mut A, Cons<&'a mut B, Nil>>;

    open spec fn refers_to(&self, r: &Cons<&'a mut A, Cons<&'a mut B, Nil>>) -> bool {
        *r.0 == self.0 && *r.1.0 == self.1
    }

    fn as_hlist_mut(&'a mut self) -> (r: Cons<&'a mut A, Cons<&'a mut B, Nil>>) {
        let (a, b) = self;
        Cons(a, Cons(b, Nil))
    }
}

impl<A, B> HasFieldAt<0> for (A, B) {
    type Field = A;

    open spec fn field_at_spec(&self) -> A {
        self.0
    }

    fn get_field_at(&self) -> (r: &A) {
        &self.0
    }
}

impl<A, B> HasFieldAt<1> for (A, B) {
    type Field = B;

    open spec fn field_at_spec(&self) -> B {
        self.1
    }

    fn get_field_at(&self) -> (r: &B) {
        &self.1
    }
}

impl<A, B> FieldAt for (A, B) {
}

impl<A, B> PopLastField for (A, B) {
    type Last = B;
    type Init = (A,);

    open spec fn last_spec(self) -> B {
        self.1
    }

    open spec fn init_spec(self) -> (A,) {
        (self.0,)
    }

    fn pop_last_field(self) -> (r: (B, (A,))) {
        (self.1, (self.0,))
    }
}

// Arity 3.
impl<A, B, C> HasHListRepr for (A, B, C) {
    type HListRepr = Cons<A, Cons<B, Cons<C, Nil>>>;
}

impl<A, B, C> IntoHList for (A, B, C) {
    open spec fn hlist_spec(self) -> Cons<A, Cons<B, Cons<C, Nil>>> {
        Cons(self.0, Cons(self.1, Cons(self.2, Nil)))
    }

    fn into_hlist(self) -> (r: Cons<A, Cons<B, Cons<C, Nil>>>) {
        Cons(self.0, Cons(self.1, Cons(self.2, Nil)))
    }
}

impl<A, B, C> IntoTuple for Cons<A, Cons<B, Cons<C, Nil>>> {
    type Output = (A, B, C);

    open spec fn tuple_spec(self) -> (A, B, C) {
        (self.0, self.1.0, self.1.1.0)
    }

    fn into_tuple(self) -> (r: (A, B, C)) {
        let Cons(a, Cons(b, Cons(c, Nil))) = self;
        (a, b, c)
    }
}

impl<'a, A: 'a, B: 'a, C: 'a> AsHList<'a> for (A, B, C) {
    type Refs = Cons<&'a A, Cons<&'a B, Cons<&'a C, Nil>>>;

    open spec fn as_hlist_spec(&'a self) -> Cons<&'a A, Cons<&'a B, Cons<&'a C, Nil>>> {
        Cons(&self.0, Cons(&self.1, Cons(&self.2, Nil)))
    }

    fn as_hlist(&'a self) -> (r: Cons<&'a A, Cons<&'a B, Cons<&'a C, Nil>>>) {
        Cons(&self.0, Cons(&self.1, Cons(&self.2, Nil)))
    }
}

impl<'a, A: 'a, B: 'a, C: 'a> AsHListMut<'a> for (A, B, C) {
    type RefsMut = Cons<&'a mut A, Cons<&'a mut B, Cons<&'a mut C, Nil>>>;

    open spec fn refers_to(&self, r: &Cons<&'a mut A, Cons<&'a mut B, Cons<&'a mut C, Nil>>>) -> bool {
        *r.0 == self.0 && *r.1.0 == self.1 && *r.1.1.0 == self.2
    }

    fn as_hlist_mut(&'a mut self) -> (r: Cons<&'a mut A, Cons<&'a mut B, Cons<&'a mut C, Nil>>>) {
        let (a, b, c) = self;
        Cons(a, Cons(b, Cons(c, Nil)))
    }
}

impl<A, B, C> HasFieldAt<0> for (A, B, C) {
    type Field = A;

    open spec fn field_at_spec(&self) -> A {
        self.0
    }

    fn get_field_at(&self) -> (r: &A) {
        &self.0
    }
}

impl<A, B, C> HasFieldAt<1> for (A, B, C) {
    type Field = B;

    open spec fn field_at_spec(&self) -> B {
        self.1
    }

    fn get_field_at(&self) -> (r: &B) {
        &self.1
    }
}

impl<A, B, C> HasFieldAt<2> for (A, B, C) {
    type Field = C;

    open spec fn field_at_spec(&self) -> C {
        self.2
    }

    fn get_field_at(&self) -> (r: &C) {
        &self.2
    }
}

impl<A, B, C> FieldAt for (A, B, C) {
}

impl<A, B, C> PopLastField for (A, B, C) {
    type Last = C;
    type Init = (A, B);

    open spec fn last_spec(self) -> C {
        self.2
    }

    open spec fn init_spec(self) -> (A, B) {
        (self.0, self.1)
    }

    fn pop_last_field(self) -> (r: (C, (A, B))) {
        (self.2, (self.0, self.1))
    }
}

} // verus!
