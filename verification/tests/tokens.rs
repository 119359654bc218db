use core::marker::PhantomData;
use valrow::Borrowable;
use valrow::Opaque;
use valrow::Valrow;
use valrow::ValrowMut;

#[test]
fn round_trip_u32() {
    let x: u32 = 42;
    let token = Valrow::new(&x);
    assert_eq!(*token.as_ref(), 42);
}

#[test]
fn round_trip_other_primitives() {
    let b = true;
    assert!(*Valrow::new(&b).as_ref());
    let c = 'q';
    assert_eq!(*Valrow::new(&c).as_ref(), 'q');
    let i: i64 = -7;
    assert_eq!(*Valrow::new(&i).as_ref(), -7);
    let u: u128 = 1 << 100;
    assert_eq!(*Valrow::new(&u).as_ref(), 1 << 100);
}

#[test]
fn copy_independence() {
    let x: u32 = 1234;
    let token = Valrow::new(&x);
    let first = token;
    let second = token;
    assert_eq!(*first.as_ref(), 1234);
    assert_eq!(*second.as_ref(), 1234);
    let third = second.clone();
    assert_eq!(*third.as_ref(), 1234);
    assert_eq!(*first.as_ref(), *second.as_ref());
}

#[test]
fn layout_equalities_of_builtin_instances() {
    assert_eq!(
        core::mem::size_of::<bool>(),
        core::mem::size_of::<<bool as Borrowable>::Abi>()
    );
    assert_eq!(
        core::mem::align_of::<bool>(),
        core::mem::align_of::<<bool as Borrowable>::Abi>()
    );
    assert_eq!(
        core::mem::size_of::<Option<bool>>(),
        core::mem::size_of::<Option<<bool as Borrowable>::Abi>>()
    );
    assert_eq!(
        core::mem::align_of::<Option<bool>>(),
        core::mem::align_of::<Option<<bool as Borrowable>::Abi>>()
    );
    assert_eq!(
        core::mem::size_of::<char>(),
        core::mem::size_of::<<char as Borrowable>::Abi>()
    );
    assert_eq!(
        core::mem::align_of::<char>(),
        core::mem::align_of::<<char as Borrowable>::Abi>()
    );
    assert_eq!(
        core::mem::size_of::<Option<char>>(),
        core::mem::size_of::<Option<<char as Borrowable>::Abi>>()
    );
    assert_eq!(
        core::mem::align_of::<Option<char>>(),
        core::mem::align_of::<Option<<char as Borrowable>::Abi>>()
    );
    assert_eq!(
        core::mem::size_of::<i8>(),
        core::mem::size_of::<<i8 as Borrowable>::Abi>()
    );
    assert_eq!(
        core::mem::align_of::<i8>(),
        core::mem::align_of::<<i8 as Borrowable>::Abi>()
    );
    assert_eq!(
        core::mem::size_of::<Option<i8>>(),
        core::mem::size_of::<Option<<i8 as Borrowable>::Abi>>()
    );
    assert_eq!(
        core::mem::align_of::<Option<i8>>(),
        core::mem::align_of::<Option<<i8 as Borrowable>::Abi>>()
    );
    assert_eq!(
        core::mem::size_of::<i16>(),
        core::mem::size_of::<<i16 as Borrowable>::Abi>()
    );
    assert_eq!(
        core::mem::align_of::<i16>(),
        core::mem::align_of::<<i16 as Borrowable>::Abi>()
    );
    assert_eq!(
        core::mem::size_of::<Option<i16>>(),
        core::mem::size_of::<Option<<i16 as Borrowable>::Abi>>()
    );
    assert_eq!(
        core::mem::align_of::<Option<i16>>(),
        core::mem::align_of::<Option<<i16 as Borrowable>::Abi>>()
    );
    assert_eq!(
        core::mem::size_of::<i32>(),
        core::mem::size_of::<<i32 as Borrowable>::Abi>()
    );
    assert_eq!(
        core::mem::align_of::<i32>(),
        core::mem::align_of::<<i32 as Borrowable>::Abi>()
    );
    assert_eq!(
        core::mem::size_of::<Option<i32>>(),
        core::mem::size_of::<Option<<i32 as Borrowable>::Abi>>()
    );
    assert_eq!(
        core::mem::align_of::<Option<i32>>(),
        core::mem::align_of::<Option<<i32 as Borrowable>::Abi>>()
    );
    assert_eq!(
        core::mem::size_of::<i64>(),
        core::mem::size_of::<<i64 as Borrowable>::Abi>()
    );
    assert_eq!(
        core::mem::align_of::<i64>(),
        core::mem::align_of::<<i64 as Borrowable>::Abi>()
    );
    assert_eq!(
        core::mem::size_of::<Option<i64>>(),
        core::mem::size_of::<Option<<i64 as Borrowable>::Abi>>()
    );
    assert_eq!(
        core::mem::align_of::<Option<i64>>(),
        core::mem::align_of::<Option<<i64 as Borrowable>::Abi>>()
    );
    assert_eq!(
        core::mem::size_of::<i128>(),
        core::mem::size_of::<<i128 as Borrowable>::Abi>()
    );
    assert_eq!(
        core::mem::align_of::<i128>(),
        core::mem::align_of::<<i128 as Borrowable>::Abi>()
    );
    assert_eq!(
        core::mem::size_of::<Option<i128>>(),
        core::mem::size_of::<Option<<i128 as Borrowable>::Abi>>()
    );
    assert_eq!(
        core::mem::align_of::<Option<i128>>(),
        core::mem::align_of::<Option<<i128 as Borrowable>::Abi>>()
    );
    assert_eq!(
        core::mem::size_of::<isize>(),
        core::mem::size_of::<<isize as Borrowable>::Abi>()
    );
    assert_eq!(
        core::mem::align_of::<isize>(),
        core::mem::align_of::<<isize as Borrowable>::Abi>()
    );
    assert_eq!(
        core::mem::size_of::<Option<isize>>(),
        core::mem::size_of::<Option<<isize as Borrowable>::Abi>>()
    );
    assert_eq!(
        core::mem::align_of::<Option<isize>>(),
        core::mem::align_of::<Option<<isize as Borrowable>::Abi>>()
    );
    assert_eq!(
        core::mem::size_of::<u8>(),
        core::mem::size_of::<<u8 as Borrowable>::Abi>()
    );
    assert_eq!(
        core::mem::align_of::<u8>(),
        core::mem::align_of::<<u8 as Borrowable>::Abi>()
    );
    assert_eq!(
        core::mem::size_of::<Option<u8>>(),
        core::mem::size_of::<Option<<u8 as Borrowable>::Abi>>()
    );
    assert_eq!(
        core::mem::align_of::<Option<u8>>(),
        core::mem::align_of::<Option<<u8 as Borrowable>::Abi>>()
    );
    assert_eq!(
        core::mem::size_of::<u16>(),
        core::mem::size_of::<<u16 as Borrowable>::Abi>()
    );
    assert_eq!(
        core::mem::align_of::<u16>(),
        core::mem::align_of::<<u16 as Borrowable>::Abi>()
    );
    assert_eq!(
        core::mem::size_of::<Option<u16>>(),
        core::mem::size_of::<Option<<u16 as Borrowable>::Abi>>()
    );
    assert_eq!(
        core::mem::align_of::<Option<u16>>(),
        core::mem::align_of::<Option<<u16 as Borrowable>::Abi>>()
    );
    assert_eq!(
        core::mem::size_of::<u32>(),
        core::mem::size_of::<<u32 as Borrowable>::Abi>()
    );
    assert_eq!(
        core::mem::align_of::<u32>(),
        core::mem::align_of::<<u32 as Borrowable>::Abi>()
    );
    assert_eq!(
        core::mem::size_of::<Option<u32>>(),
        core::mem::size_of::<Option<<u32 as Borrowable>::Abi>>()
    );
    assert_eq!(
        core::mem::align_of::<Option<u32>>(),
        core::mem::align_of::<Option<<u32 as Borrowable>::Abi>>()
    );
    assert_eq!(
        core::mem::size_of::<u64>(),
        core::mem::size_of::<<u64 as Borrowable>::Abi>()
    );
    assert_eq!(
        core::mem::align_of::<u64>(),
        core::mem::align_of::<<u64 as Borrowable>::Abi>()
    );
    assert_eq!(
        core::mem::size_of::<Option<u64>>(),
        core::mem::size_of::<Option<<u64 as Borrowable>::Abi>>()
    );
    assert_eq!(
        core::mem::align_of::<Option<u64>>(),
        core::mem::align_of::<Option<<u64 as Borrowable>::Abi>>()
    );
    assert_eq!(
        core::mem::size_of::<u128>(),
        core::mem::size_of::<<u128 as Borrowable>::Abi>()
    );
    assert_eq!(
        core::mem::align_of::<u128>(),
        core::mem::align_of::<<u128 as Borrowable>::Abi>()
    );
    assert_eq!(
        core::mem::size_of::<Option<u128>>(),
        core::mem::size_of::<Option<<u128 as Borrowable>::Abi>>()
    );
    assert_eq!(
        core::mem::align_of::<Option<u128>>(),
        core::mem::align_of::<Option<<u128 as Borrowable>::Abi>>()
    );
    assert_eq!(
        core::mem::size_of::<usize>(),
        core::mem::size_of::<<usize as Borrowable>::Abi>()
    );
    assert_eq!(
        core::mem::align_of::<usize>(),
        core::mem::align_of::<<usize as Borrowable>::Abi>()
    );
    assert_eq!(
        core::mem::size_of::<Option<usize>>(),
        core::mem::size_of::<Option<<usize as Borrowable>::Abi>>()
    );
    assert_eq!(
        core::mem::align_of::<Option<usize>>(),
        core::mem::align_of::<Option<<usize as Borrowable>::Abi>>()
    );
    assert_eq!(
        core::mem::size_of::<Opaque<u32>>(),
        core::mem::size_of::<<Opaque<u32> as Borrowable>::Abi>()
    );
    assert_eq!(
        core::mem::align_of::<Opaque<u32>>(),
        core::mem::align_of::<<Opaque<u32> as Borrowable>::Abi>()
    );
}

#[test]
fn exclusive_token_zero_sized_only() {
    let mut marker: PhantomData<u32> = PhantomData;
    let mut token = ValrowMut::new(&mut marker);
    assert_eq!(*token.as_ref(), PhantomData::<u32>);
    let inner = token.as_mut();
    assert_eq!(*inner, PhantomData::<u32>);
}

#[test]
fn opaque_holds_without_exposing() {
    // The wrapper deliberately has no accessor that returns the value:
    // everything one can do with it is copy it, clone it, or wrap anew.
    let o = Opaque::new(5u32);
    let copied = o;
    let cloned = copied.clone();
    let from = Opaque::from(7u32);
    let _ = (cloned, from);
}

#[test]
fn opaque_token_round_trip() {
    let o = Opaque::new(9u8);
    let token = Valrow::new(&o);
    let _back: &Opaque<u8> = token.as_ref();
}

#[test]
fn copyable_static_assertions() {
    valrow::copyable::<u32>();
    valrow::copyable::<char>();
    valrow::copyable::<Opaque<u8>>();
}
