//! `MonadIO`: a lazy, cold computation built from an effect and composed with
//! `map` and `fmap`, and the rule that decides where it runs and where its
//! result is delivered.

use std::sync::Arc;
use vstd::prelude::*;

verus! {

/// A function that hands out a clone of `r` on every call.
pub fn of<Z: Clone>(r: Z) -> (f: impl Fn() -> Z)
    ensures
        f.requires(()),
        forall|z: Z| #[trigger] f.ensures((), z) ==> cloned(r, z),
{
    move || -> (z: Z)
        ensures
            cloned(r, z),
        { r.clone() }
}

/// A lazy computation around an effect `F`: nothing runs until `run` or
/// `subscribe_fn`, and each such call runs the whole chain again; no result
/// is kept between calls.
pub struct MonadIO<F> {
    effect: Arc<F>,
}

impl<F> MonadIO<F> {
    /// The effect that each run calls.
    pub closed spec fn effect(&self) -> F {
        *self.effect
    }

    /// The computation that calls `effect` on every run.
    pub fn new(effect: F) -> (m: MonadIO<F>)
        ensures
            m.effect() == effect,
    {
        MonadIO { effect: Arc::new(effect) }
    }
}

impl<Y: Clone> MonadIO<Y> {
    /// The computation that yields a clone of `r` on every run.
    pub fn just(r: Y) -> (m: MonadIO<impl Fn() -> Y>)
        ensures
            m.effect().requires(()),
            forall|y: Y| #[trigger] m.effect().ensures((), y) ==> cloned(r, y),
    {
        MonadIO::new(of(r))
    }
}

impl<F> MonadIO<F> {
    /// Runs the effect chain once, from the innermost effect outward.
    pub fn run<Y>(&self) -> (y: Y)
        where
            F: Fn() -> Y,
        requires
            self.effect().requires(()),
        ensures
            self.effect().ensures((), y),
    {
        let e = &*self.effect;
        e()
    }

    /// The computation that applies `func` to what this one yields.
    pub fn map<Y, Z, G>(&self, func: G) -> (m: MonadIO<impl Fn() -> Z>)
        where
            F: Fn() -> Y,
            G: Fn(Y) -> Z,
        ensures
            self.effect().requires(()) && (forall|y: Y|
                #[trigger] self.effect().ensures((), y) ==> func.requires((y,)))
                ==> m.effect().requires(()),
            forall|z: Z|
                #[trigger] m.effect().ensures((), z) ==> exists|y: Y|
                    #[trigger] self.effect().ensures((), y) && func.ensures((y,), z),
    {
        let inner = self.effect.clone();
        let r = then_apply(inner, func);
        proof {
            assert forall|z: Z| #[trigger] r.ensures((), z) implies exists|y: Y|
                #[trigger] self.effect().ensures((), y) && func.ensures((y,), z) by {
                let y = choose|y: Y| #[trigger] inner.ensures((), y) && func.ensures((y,), z);
                assert(self.effect().ensures((), y));
            }
        }
        MonadIO::new(r)
    }

    /// The computation that builds a `MonadIO` from what this one yields and
    /// at once runs that one's effect: only the effect of the inner
    /// computation is used.
    pub fn fmap<Y, Z, F2, G>(&self, func: G) -> (m: MonadIO<impl Fn() -> Z>)
        where
            F: Fn() -> Y,
            F2: Fn() -> Z,
            G: Fn(Y) -> MonadIO<F2>,
        ensures
            self.effect().requires(()) && (forall|y: Y|
                #[trigger] self.effect().ensures((), y) ==> func.requires((y,))) && (forall|
                y: Y,
                k: MonadIO<F2>,
            |
                #[trigger] self.effect().ensures((), y) && #[trigger] func.ensures((y,), k)
                    ==> k.effect().requires(())) ==> m.effect().requires(()),
            forall|z: Z|
                #[trigger] m.effect().ensures((), z) ==> exists|y: Y, k: MonadIO<F2>|
                    #[trigger] self.effect().ensures((), y) && #[trigger] func.ensures((y,), k)
                        && k.effect().ensures((), z),
    {
        let inner = self.effect.clone();
        let r = then_flatten(inner, func);
        proof {
            assert forall|z: Z| #[trigger] r.ensures((), z) implies exists|y: Y, k: MonadIO<F2>|
                #[trigger] self.effect().ensures((), y) && #[trigger] func.ensures((y,), k)
                    && k.effect().ensures((), z) by {
                let (y, k) = choose|y: Y, k: MonadIO<F2>|
                    #[trigger] inner.ensures((), y) && #[trigger] func.ensures((y,), k)
                        && k.effect().ensures((), z);
                assert(self.effect().ensures((), y));
            }
        }
        MonadIO::new(r)
    }

    /// Runs the chain on the calling thread and hands the result to `func`
    /// before returning.
    pub fn subscribe_fn<Y, S>(&self, func: S)
        where
            F: Fn() -> Y,
            S: FnOnce(Y),
        requires
            self.effect().requires(()),
            forall|y: Y| #[trigger] self.effect().ensures((), y) ==> func.requires((y,)),
        ensures
            exists|y: Y| #[trigger] self.effect().ensures((), y) && func.ensures((y,), ()),
    {
        let y = self.run();
        func(y);
    }
}

/// A function that calls `inner` and hands its result to `func`.
fn then_apply<Y, Z, F, G>(inner: Arc<F>, func: G) -> (r: impl Fn() -> Z)
    where
        F: Fn() -> Y,
        G: Fn(Y) -> Z,
    ensures
        inner.requires(()) && (forall|y: Y| #[trigger] inner.ensures((), y) ==> func.requires((y,)))
            ==> r.requires(()),
        forall|z: Z|
            #[trigger] r.ensures((), z) ==> exists|y: Y|
                #[trigger] inner.ensures((), y) && func.ensures((y,), z),
{
    move || -> (z: Z)
        requires
            inner.requires(()),
            forall|y: Y| #[trigger] inner.ensures((), y) ==> func.requires((y,)),
        ensures
            exists|y: Y| #[trigger] inner.ensures((), y) && func.ensures((y,), z),
        {
            let e = &*inner;
            let y = e();
            func(y)
        }
}

/// A function that calls `inner`, builds a `MonadIO` from its result with
/// `func`, and runs that one's effect.
fn then_flatten<Y, Z, F, F2, G>(inner: Arc<F>, func: G) -> (r: impl Fn() -> Z)
    where
        F: Fn() -> Y,
        F2: Fn() -> Z,
        G: Fn(Y) -> MonadIO<F2>,
    ensures
        inner.requires(()) && (forall|y: Y| #[trigger] inner.ensures((), y) ==> func.requires((y,)))
            && (forall|y: Y, k: MonadIO<F2>|
            #[trigger] inner.ensures((), y) && #[trigger] func.ensures((y,), k)
                ==> k.effect().requires(())) ==> r.requires(()),
        forall|z: Z|
            #[trigger] r.ensures((), z) ==> exists|y: Y, k: MonadIO<F2>|
                #[trigger] inner.ensures((), y) && #[trigger] func.ensures((y,), k)
                    && k.effect().ensures((), z),
{
    move || -> (z: Z)
        requires
            inner.requires(()),
            forall|y: Y| #[trigger] inner.ensures((), y) ==> func.requires((y,)),
            forall|y: Y, k: MonadIO<F2>|
                #[trigger] inner.ensures((), y) && #[trigger] func.ensures((y,), k)
                    ==> k.effect().requires(()),
        ensures
            exists|y: Y, k: MonadIO<F2>|
                #[trigger] inner.ensures((), y) && #[trigger] func.ensures((y,), k)
                    && k.effect().ensures((), z),
        {
            let e = &*inner;
            let y = e();
            let k = func(y);
            k.run()
        }
}

impl<F> Clone for MonadIO<F> {
    /// Another handle on the same effect.
    fn clone(&self) -> (m: Self)
        ensures
            m.effect() == self.effect(),
    {
        MonadIO { effect: self.effect.clone() }
    }
}

/// Where a subscription computes and where it delivers.
#[derive(PartialEq, Eq, Structural, Debug, Clone, Copy)]
pub enum Delivery {
    /// Compute and deliver on the calling thread before `subscribe` returns.
    Inline,
    /// Post one task to the observe handler that computes, then delivers there.
    ObserveThenInline,
    /// Post one task to the observe handler that computes, then posts the
    /// delivery to the subscribe handler.
    ObserveThenSubscribe,
}

/// The delivery for the handlers attached: without an observe handler all
/// runs inline and the subscribe handler is not used.
pub fn delivery_plan(has_observe: bool, has_subscribe: bool) -> (d: Delivery)
    ensures
        !has_observe ==> d == Delivery::Inline,
        has_observe && !has_subscribe ==> d == Delivery::ObserveThenInline,
        has_observe && has_subscribe ==> d == Delivery::ObserveThenSubscribe,
{
    if !has_observe {
        Delivery::Inline
    } else if has_subscribe {
        Delivery::ObserveThenSubscribe
    } else {
        Delivery::ObserveThenInline
    }
}

} // verus!
