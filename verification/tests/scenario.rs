use core::cell::Cell;
use std::rc::Rc;
use std::sync::Arc;
use valrow::ArcValrow;
use valrow::RcValrow;
use valrow::Valrow;

struct Pair {
    shared_handle: Rc<u32>,
    plain: u32,
}

#[derive(Clone, Copy)]
struct PairView<'a> {
    shared_handle: RcValrow<'a, u32>,
    plain: u32,
}

fn pair_view<'a>(pair: &'a Pair) -> PairView<'a> {
    PairView {
        shared_handle: valrow::shared(&pair.shared_handle),
        plain: valrow::shared(&pair.plain),
    }
}

#[test]
fn pair_end_to_end() {
    let pair = Pair { shared_handle: Rc::new(5), plain: 9 };
    let view = {
        // The reference taken here is gone once the view is built; the
        // view stays valid because it addresses the still-live backing
        // allocation, not the reference it was built through.
        let reference = &pair;
        pair_view(reference)
    };
    assert_eq!(*view.shared_handle.as_ref(), 5);
    assert_eq!(view.plain, 9);
    let again = view;
    assert_eq!(*again.shared_handle.as_ref(), 5);
}

#[test]
fn refcounts_untouched_by_tokens() {
    let handle = Rc::new(5u32);
    let weak = Rc::downgrade(&handle);
    assert_eq!(Rc::strong_count(&handle), 1);
    assert_eq!(Rc::weak_count(&handle), 1);

    {
        let token = RcValrow::new(&handle);
        let copy = token;
        assert_eq!(*token.as_ref(), 5);
        assert_eq!(*copy.as_ref(), 5);
        assert_eq!(Rc::strong_count(&handle), 1);
        assert_eq!(Rc::weak_count(&handle), 1);
    }

    assert_eq!(Rc::strong_count(&handle), 1);
    assert_eq!(Rc::weak_count(&handle), 1);
    drop(weak);
}

#[test]
fn arc_refcounts_untouched_by_tokens() {
    let handle = Arc::new(33u64);
    assert_eq!(Arc::strong_count(&handle), 1);
    {
        let token = ArcValrow::new(&handle);
        assert_eq!(*token.as_ref(), 33);
        assert_eq!(Arc::strong_count(&handle), 1);
    }
    assert_eq!(Arc::strong_count(&handle), 1);
}

#[test]
fn tokens_of_reference_fields() {
    let x: u32 = 64;
    let r: &u32 = &x;
    let token = Valrow::new(&r);
    assert_eq!(**token.as_ref(), 64);
}

#[test]
fn try_to_break_box_valrows() {
    let a = Rc::new(Cell::new(42u32));
    let b = RcValrow::new(&a);
    let c = &a;
    a.set(1);
    b.as_ref().set(2);
    c.set(3);
    a.set(4);
    b.as_ref().set(5);
    c.set(6);
    let fmt = format!("{:?}", (a.get(), b.as_ref().get(), c.get()));
    println!("{fmt}");

    let b: &Cell<u32> = b.as_ref();
    a.set(7);
    b.set(8);
    c.set(9);
    a.set(10);
    b.set(11);
    c.set(12);
    let fmt = format!("{:?}", (a.get(), b.get(), c.get()));
    println!("{fmt}");
}
