use core::cell::Cell;
use core::marker::PhantomData;
use std::rc::Rc;
use valrow::ByClone;
use valrow::ByCopy;
use valrow::ByDiscard;
use valrow::ByOpaque;
use valrow::ByRef;
use valrow::IntoExclusiveBorrow;
use valrow::IntoSharedBorrow;
use valrow::Opaque;

#[test]
fn by_clone_snapshot() {
    let field = ByClone(Cell::new(5u32));
    let snapshot: u32 = IntoSharedBorrow::into(&field);
    assert_eq!(snapshot, 5);
    field.0.set(9);
    // The earlier snapshot is frozen; a new adaptation sees the write.
    assert_eq!(snapshot, 5);
    let fresh: u32 = IntoSharedBorrow::into(&field);
    assert_eq!(fresh, 9);
}

#[test]
fn by_copy_snapshot() {
    let mut field = ByCopy(Cell::new(3u8));
    let shared: u8 = IntoSharedBorrow::into(&field);
    assert_eq!(shared, 3);
    let exclusive: u8 = IntoExclusiveBorrow::into(&mut field);
    assert_eq!(exclusive, 3);
}

#[test]
fn by_opaque_keeps_layout_only() {
    let field = ByOpaque(Cell::new(11u64));
    let placeholder: Opaque<u64> = IntoSharedBorrow::into(&field);
    let _ = placeholder;
}

#[test]
fn by_discard_collapses() {
    let mut field = ByDiscard(String::from("unseen"));
    let shared: Opaque<PhantomData<()>> = IntoSharedBorrow::into(&field);
    let exclusive: Opaque<PhantomData<()>> = IntoExclusiveBorrow::into(&mut field);
    let _ = (shared, exclusive);
    assert_eq!(field.0, "unseen");
}

#[test]
fn by_ref_passes_references_through() {
    let mut field = ByRef(8u32);
    {
        let shared: &u32 = IntoSharedBorrow::into(&field);
        assert_eq!(*shared, 8);
    }
    {
        let exclusive: &mut u32 = IntoExclusiveBorrow::into(&mut field);
        *exclusive = 21;
    }
    assert_eq!(field.0, 21);
}

#[test]
fn plain_values_copy_out() {
    let mut x: u32 = 17;
    let shared: u32 = IntoSharedBorrow::into(&x);
    assert_eq!(shared, 17);
    let exclusive: u32 = IntoExclusiveBorrow::into(&mut x);
    assert_eq!(exclusive, 17);
}

#[test]
fn marker_fields_are_re_wrapped() {
    let mut marker: PhantomData<String> = PhantomData;
    let shared: PhantomData<String> = IntoSharedBorrow::into(&marker);
    assert_eq!(shared, PhantomData::<String>);
    let exclusive: PhantomData<String> = IntoExclusiveBorrow::into(&mut marker);
    assert_eq!(exclusive, PhantomData::<String>);
}

#[test]
fn boxed_fields_reborrow_contents() {
    let mut handle = Box::new(40u32);
    {
        let shared: &u32 = IntoSharedBorrow::into(&handle);
        assert_eq!(*shared, 40);
    }
    {
        let exclusive: &mut u32 = IntoExclusiveBorrow::into(&mut handle);
        *exclusive = 41;
    }
    assert_eq!(*handle, 41);
}

#[test]
fn vec_fields_reborrow_elements() {
    let mut buffer = vec![1u8, 2, 3];
    {
        let shared: &[u8] = IntoSharedBorrow::into(&buffer);
        assert_eq!(shared, &[1, 2, 3]);
    }
    {
        let exclusive: &mut [u8] = IntoExclusiveBorrow::into(&mut buffer);
        exclusive[0] = 10;
    }
    assert_eq!(buffer, vec![10u8, 2, 3]);
}

#[test]
fn optional_handle_composes() {
    let empty: Option<Rc<u32>> = None;
    let adapted = IntoSharedBorrow::into(&empty);
    assert!(adapted.is_none());

    let full: Option<Rc<u32>> = Some(Rc::new(7));
    let adapted = IntoSharedBorrow::into(&full);
    let token = adapted.expect("a present handle adapts to a present token");
    assert_eq!(*token.as_ref(), 7);
}

#[test]
fn result_fields_compose() {
    let ok: Result<u32, Rc<u32>> = Ok(3);
    let adapted = IntoSharedBorrow::into(&ok);
    match adapted {
        Ok(v) => assert_eq!(v, 3),
        Err(_) => panic!("an ok field adapts to an ok field"),
    }

    let err: Result<u32, Rc<u32>> = Err(Rc::new(12));
    let adapted = IntoSharedBorrow::into(&err);
    match adapted {
        Ok(_) => panic!("an err field adapts to an err field"),
        Err(token) => assert_eq!(*token.as_ref(), 12),
    }
}

#[test]
fn free_functions_adapt_fields() {
    let mut plain: u32 = 9;
    let s: u32 = valrow::shared(&plain);
    assert_eq!(s, 9);
    let e: u32 = valrow::exclusive(&mut plain);
    assert_eq!(e, 9);

    let handle = Rc::new(5u32);
    let token = valrow::shared(&handle);
    assert_eq!(*token.as_ref(), 5);
}
