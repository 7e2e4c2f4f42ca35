use enso_anim::tuple::FieldAt;
use enso_anim::tuple::PopLastField;

#[test]
fn test_field_at() {
    let tuple = (1, "hello", 1);
    println!("{:?}", (1, 2, 3).pop_last_field());

    assert_eq!(tuple.field_at::<0>(), &1);
    assert_eq!(tuple.field_at::<1>(), &"hello");
    assert_eq!(tuple.field_at::<2>(), &1);
}

use enso_anim::hlist::Cons;
use enso_anim::hlist::GetHead;
use enso_anim::hlist::GetHeadMut;
use enso_anim::hlist::GetTail;
use enso_anim::hlist::GetTailMut;
use enso_anim::hlist::IntoHList;
use enso_anim::hlist::Nil;
use enso_anim::tuple::IntoTuple;
use enso_anim::hlist::AsHList;
use enso_anim::hlist::AsHListMut;

#[test]
fn tuple_to_hlist_and_back() {
    let list = (1, "two", 3u8).into_hlist();
    assert_eq!(*list.head(), 1);
    assert_eq!(*list.tail().head(), "two");
    assert_eq!(*list.tail().tail().head(), 3u8);
    let back = list.into_tuple();
    assert_eq!(back, (1, "two", 3u8));
}

#[test]
fn hlist_mutable_access() {
    let mut list = Cons(1, Cons(2, Nil));
    *list.head_mut() = 10;
    *list.tail_mut().head_mut() = 20;
    assert_eq!(list.into_tuple(), (10, 20));
}

#[test]
fn tuple_lends_its_fields() {
    let mut t = (1, 2);
    {
        let refs = t.as_hlist();
        assert_eq!(*refs.0, 1);
        assert_eq!(*refs.1 .0, 2);
    }
    {
        let refs = t.as_hlist_mut();
        *refs.0 = 5;
        *refs.1 .0 = 6;
    }
    assert_eq!(t, (5, 6));
}

#[test]
fn pop_last_field_splits_tuple() {
    assert_eq!((1, 2, 3).pop_last_field(), (3, (1, 2)));
    assert_eq!((1, 2).pop_last_field(), (2, (1,)));
    assert_eq!((7,).pop_last_field(), (7, ()));
}
