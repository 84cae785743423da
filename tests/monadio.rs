use fp_rust::monadio::{delivery_plan, of, Delivery, MonadIO};
use std::cell::Cell;

#[test]
fn monadio_just_runs_to_value() {
    let m = MonadIO::just(3);
    assert_eq!(3, m.run());
}

#[test]
fn monadio_cold_each_subscription_runs_again() {
    let m = MonadIO::just(3).map(|x| x * 3);
    let first = Cell::new(0);
    let second = Cell::new(0);
    m.subscribe_fn(|x| first.set(x));
    m.subscribe_fn(|x| second.set(x));
    assert_eq!(9, first.get());
    assert_eq!(9, second.get());
}

#[test]
fn monadio_effect_called_once_per_run() {
    let calls = Cell::new(0u32);
    let m = MonadIO::new(|| {
        calls.set(calls.get() + 1);
        calls.get()
    });
    assert_eq!(1, m.run());
    assert_eq!(2, m.run());
    let mapped = m.map(|x| x * 10);
    assert_eq!(30, mapped.run());
    assert_eq!(3, calls.get());
}

#[test]
fn monadio_fmap_flattens() {
    let m = MonadIO::just(1)
        .fmap(|x| MonadIO::new(move || x * 4))
        .map(|x| x * 3)
        .map(|x| x * 3);
    let got = Cell::new(0u16);
    m.subscribe_fn(|x| got.set(x));
    assert_eq!(36, got.get());
}

#[test]
fn monadio_map_changes_type() {
    let m = MonadIO::new(|| String::from("ok")).map(|s: String| s.len());
    assert_eq!(2, m.run());
    let c = m.clone();
    assert_eq!(2, c.run());
}

#[test]
fn of_hands_out_clones() {
    let f = of(String::from("abc"));
    assert_eq!("abc", f());
    assert_eq!("abc", f());
}

#[test]
fn delivery_without_observe_is_inline() {
    assert_eq!(Delivery::Inline, delivery_plan(false, false));
    assert_eq!(Delivery::Inline, delivery_plan(false, true));
}

#[test]
fn delivery_with_observe() {
    assert_eq!(Delivery::ObserveThenInline, delivery_plan(true, false));
    assert_eq!(Delivery::ObserveThenSubscribe, delivery_plan(true, true));
}
