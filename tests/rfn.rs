use std::cell::{Cell, RefCell};
use std::sync::atomic::{AtomicU8, Ordering};
use std::sync::Arc;

use stable_fn::{RBoxFn, RFn, RRefFn};

struct Foo(u8, Arc<AtomicU8>);

impl Foo {
    fn bar(&self) -> u8 {
        self.0
    }
}

impl Drop for Foo {
    fn drop(&mut self) {
        self.1.store(self.0, Ordering::SeqCst);
    }
}

struct Counted(Arc<AtomicU8>);

impl Drop for Counted {
    fn drop(&mut self) {
        self.0.fetch_add(1, Ordering::SeqCst);
    }
}

#[test]
fn rfn_execute_lambda() {
    let cell = &RefCell::new(0);
    let lambda = &move |_| *cell.borrow_mut() += 1;
    let i = RRefFn::from(lambda);
    i.call(());
    assert_eq!(1, cell.take());
}

fn foo<'a>(inner: &'a String) -> RBoxFn<'a, (), &'a str> {
    (|_| inner.as_ref()).into()
}

#[test]
fn return_captured_ref() {
    let inner = "Value".to_owned();
    let inner = foo(&inner);
    let a = inner.call(());
    let b = inner.call(());

    assert_eq!(a, b);
    assert_eq!(a, "Value");
}

fn move_from_stack(a: String) -> RBoxFn<'static, (), usize> {
    (move |_| a.len()).into()
}

#[test]
fn rfn_move_value() {
    let boxed = move_from_stack("foo".to_owned());
    assert_eq!(3, boxed.call(()));
}

fn capture_from_stack(a: Foo) -> RBoxFn<'static, (), usize> {
    let b = "test".to_owned();
    (move |_| {
        println!("Never called, but transferred to closure: {}", a.bar());
        b.len() + 1
    })
    .into()
}

#[test]
fn rfn_drop_box_fn() {
    let event = Arc::new(AtomicU8::new(0));
    let closure = capture_from_stack(Foo(42, event.clone()));
    assert_eq!(0, event.load(Ordering::SeqCst));
    drop(closure);
    assert_eq!(42, event.load(Ordering::SeqCst));
}

#[test]
fn borrowed_counter_reaches_call_count() {
    let counter = Cell::new(0u32);
    let lambda = |step: u32| counter.set(counter.get() + step);
    let adapter = RRefFn::from(&lambda);
    for _ in 0..7 {
        adapter.call(1);
    }
    assert_eq!(7, counter.get());
    let direct = Cell::new(0u32);
    let plain = |step: u32| direct.set(direct.get() + step);
    for _ in 0..7 {
        plain(1);
    }
    assert_eq!(direct.get(), counter.get());
}

#[test]
fn borrowed_counter_untouched_without_calls() {
    let counter = Cell::new(0u32);
    let lambda = |_: ()| counter.set(counter.get() + 1);
    let adapter = RRefFn::from(&lambda);
    drop(adapter);
    assert_eq!(0, counter.get());
    lambda(());
    assert_eq!(1, counter.get());
}

#[test]
fn boxed_fn_passes_argument_through() {
    let offset = 10u64;
    let boxed: RBoxFn<'static, u64, u64> = RBoxFn::from(move |x: u64| x * 2 + offset);
    assert_eq!(10, boxed.call(0));
    assert_eq!(16, boxed.call(3));
    assert_eq!(16, boxed.call(3));
}

#[test]
fn boxed_fn_passes_errors_through() {
    let boxed: RBoxFn<'static, i32, Result<i32, String>> = RBoxFn::from(|x: i32| {
        if x < 0 {
            Err(format!("negative: {}", x))
        } else {
            Ok(x + 1)
        }
    });
    assert_eq!(Ok(5), boxed.call(4));
    assert_eq!(Err("negative: -2".to_string()), boxed.call(-2));
}

#[test]
fn boxed_fn_releases_environment_once() {
    let drops = Arc::new(AtomicU8::new(0));
    let held = Counted(drops.clone());
    let boxed: RBoxFn<'static, (), u8> = RBoxFn::from(move |_: ()| {
        let _keep = &held;
        1u8
    });
    assert_eq!(1, boxed.call(()));
    assert_eq!(0, drops.load(Ordering::SeqCst));
    drop(boxed);
    assert_eq!(1, drops.load(Ordering::SeqCst));
}

#[test]
fn new_ref_fn_forwards_argument() {
    let base = 100i64;
    let lambda = move |x: i64| base - x;
    let adapter = RRefFn::new(&lambda);
    assert_eq!(58, adapter.call(42));
    assert_eq!(lambda(42), adapter.call(42));
}

#[test]
fn new_box_fn_returns_captured_text() {
    let text = "Value".to_owned();
    let adapter: RBoxFn<'static, (), String> = RBoxFn::new(move |_: ()| text.clone());
    assert_eq!("Value", adapter.call(()));
    assert_eq!(adapter.call(()), adapter.call(()));
}
