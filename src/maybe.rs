//! `Maybe`: an immutable optional value with map / chain / unwrap style combinators.

use vstd::prelude::*;

verus! {

/// Wraps an `Option<T>`; every combinator hands back a new `Maybe`.
#[derive(Clone)]
pub struct Maybe<T> {
    r: Option<T>,
}

impl<T> View for Maybe<T> {
    type V = Option<T>;

    closed spec fn view(&self) -> Option<T> {
        self.r
    }
}

impl<T: Clone> Maybe<T> {
    /// A copy of the wrapped option.
    pub fn option(&self) -> (res: Option<T>)
        ensures
            res.is_some() == self@.is_some(),
            res.is_some() ==> cloned(self@.unwrap(), res.unwrap()),
    {
        self.r.clone()
    }

    /// A copy of the wrapped value; there must be one.
    pub fn unwrap(&self) -> (res: T)
        requires
            self@.is_some(),
        ensures
            cloned(self@.unwrap(), res),
    {
        match &self.r {
            Some(x) => x.clone(),
            None => vstd::pervasive::unreached(),
        }
    }

    /// A copy of the wrapped value, or `val` where there is none.
    pub fn or(&self, val: T) -> (res: T)
        ensures
            self@.is_none() ==> res == val,
            self@.is_some() ==> cloned(self@.unwrap(), res),
    {
        match &self.r {
            Some(x) => x.clone(),
            None => val,
        }
    }
}

impl<T> Maybe<T> {
    pub fn just(r: Option<T>) -> (m: Maybe<T>)
        ensures
            m@ == r,
    {
        Maybe { r }
    }

    pub fn of(r: Option<T>) -> (m: Maybe<T>)
        ensures
            m@ == r,
    {
        Maybe::just(r)
    }

    pub fn val(r: T) -> (m: Maybe<T>)
        ensures
            m@ == Some(r),
    {
        Maybe::just(Some(r))
    }

    pub fn present(&self) -> (res: bool)
        ensures
            res == self@.is_some(),
    {
        match &self.r {
            Some(_x) => true,
            None => false,
        }
    }

    pub fn null(&self) -> (res: bool)
        ensures
            res == self@.is_none(),
    {
        match &self.r {
            Some(_x) => false,
            None => true,
        }
    }

    /// Calls `func` on the wrapped value, if there is one.
    pub fn let_do<F>(&self, func: F)
        where
            F: FnOnce(&T),
        requires
            self@.is_some() ==> func.requires((&self@.unwrap(),)),
        ensures
            self@.is_some() ==> func.ensures((&self@.unwrap(),), ()),
    {
        match &self.r {
            Some(x) => func(x),
            None => (),
        }
    }

    /// The `Maybe` that `func` builds from the wrapped option.
    pub fn fmap<F, G>(&self, func: F) -> (res: Maybe<G>)
        where
            F: FnOnce(&Option<T>) -> Maybe<G>,
        requires
            func.requires((&self@,)),
        ensures
            func.ensures((&self@,), res),
    {
        func(&self.r)
    }

    /// Wraps the option that `func` computes from the wrapped option.
    pub fn map<F, G>(&self, func: F) -> (res: Maybe<G>)
        where
            F: FnOnce(&Option<T>) -> Option<G>,
        requires
            func.requires((&self@,)),
        ensures
            func.ensures((&self@,), res@),
    {
        Maybe::just(func(&self.r))
    }

    /// Same as `map`.
    pub fn bind<F, G>(&self, func: F) -> (res: Maybe<G>)
        where
            F: FnOnce(&Option<T>) -> Option<G>,
        requires
            func.requires((&self@,)),
        ensures
            func.ensures((&self@,), res@),
    {
        self.map(func)
    }

    /// Same as `map`.
    pub fn then_map<F, G>(&self, func: F) -> (res: Maybe<G>)
        where
            F: FnOnce(&Option<T>) -> Option<G>,
        requires
            func.requires((&self@,)),
        ensures
            func.ensures((&self@,), res@),
    {
        self.map(func)
    }

    /// Same as `fmap`.
    pub fn chain<F, G>(&self, func: F) -> (res: Maybe<G>)
        where
            F: FnOnce(&Option<T>) -> Maybe<G>,
        requires
            func.requires((&self@,)),
        ensures
            func.ensures((&self@,), res),
    {
        self.fmap(func)
    }

    /// Applies the function held by `maybe_func` (there must be one) to the
    /// wrapped option, as `map` does.
    pub fn ap<F, G>(&self, maybe_func: Maybe<F>) -> (res: Maybe<G>)
        where
            F: FnOnce(&Option<T>) -> Option<G>,
        requires
            maybe_func@.is_some(),
            maybe_func@.unwrap().requires((&self@,)),
        ensures
            maybe_func@.unwrap().ensures((&self@,), res@),
    {
        match maybe_func.r {
            Some(f) => self.map(f),
            None => vstd::pervasive::unreached(),
        }
    }
}

} // verus!
