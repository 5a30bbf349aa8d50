//! Conversion shorthands for `Result` and `Option`: convert the error, the
//! value, or both, through `Into`, without spelling out a mapping closure.
//!
//! A conversion through `Into` is modelled by `converts_to(a, b)`: `b` is a
//! value that `a.into()` may return. Every operation here keeps the variant of
//! its input and converts exactly the payload that the operation names.
use vstd::prelude::*;

verus! {

/// `b` is a possible result of `a.into()`.
pub open spec fn converts_to<A: Into<B>, B>(a: A, b: B) -> bool {
    call_ensures(A::into, (a,), b)
}

/// `r` is `x` with its error converted and its value left as it is.
pub open spec fn err_converted<T, F: Into<E>, E>(x: Result<T, F>, r: Result<T, E>) -> bool {
    match x {
        Ok(t) => r == Ok::<T, E>(t),
        Err(f) => r.is_err() && converts_to(f, r->Err_0),
    }
}

/// `r` is `x` with its value and its error both converted.
pub open spec fn both_converted<U: Into<T>, F: Into<E>, T, E>(
    x: Result<U, F>,
    r: Result<T, E>,
) -> bool {
    match x {
        Ok(u) => r.is_ok() && converts_to(u, r->Ok_0),
        Err(f) => r.is_err() && converts_to(f, r->Err_0),
    }
}

/// `r` is `x` with its value converted and its error left as it is.
pub open spec fn ok_converted<T: Into<U>, U, E>(x: Result<T, E>, r: Result<U, E>) -> bool {
    match x {
        Ok(t) => r.is_ok() && converts_to(t, r->Ok_0),
        Err(e) => r == Err::<U, E>(e),
    }
}

/// `r` is `x` with its value converted; `None` stays `None`.
pub open spec fn some_converted<T: Into<U>, U>(x: Option<T>, r: Option<U>) -> bool {
    match x {
        Some(t) => r.is_some() && converts_to(t, r->Some_0),
        None => r == None::<U>,
    }
}

/// Maps an error using `Into::into`; the value of `Ok` passes through.
pub trait ErrorInto<T, E>: Sized {
    fn err_into(self) -> Result<T, E>;
}

impl<T, E, F> ErrorInto<T, E> for Result<T, F> where F: Into<E> {
    fn err_into(self) -> (r: Result<T, E>)
        ensures
            err_converted(self, r),
            r.is_ok() == self.is_ok(),
    {
        self.map_err(Into::into)
    }
}

/// Maps both the value and the error of a `Result` using `Into::into`.
pub trait ResultInto<T, E>: Sized {
    fn res_into(self) -> Result<T, E>;
}

/// Maps the value of a `Result` or an `Option` using `Into::into`; an error or
/// `None` passes through.
pub trait MapInto<T>: Sized {
    fn map_into(self) -> T;
}

impl<T, U, E, F> ResultInto<T, E> for Result<U, F> where F: Into<E>, U: Into<T> {
    fn res_into(self) -> (r: Result<T, E>)
        ensures
            both_converted(self, r),
            r.is_ok() == self.is_ok(),
    {
        self.map(Into::into).map_err(Into::into)
    }
}

impl<T, U, E> MapInto<Result<U, E>> for Result<T, E> where T: Into<U> {
    fn map_into(self) -> (r: Result<U, E>)
        ensures
            ok_converted(self, r),
            r.is_ok() == self.is_ok(),
    {
        self.map(Into::into)
    }
}

impl<T, U> MapInto<Option<U>> for Option<T> where T: Into<U> {
    fn map_into(self) -> (r: Option<U>)
        ensures
            some_converted(self, r),
            r.is_some() == self.is_some(),
    {
        self.map(Into::into)
    }
}

/// Converting both channels at once is the same as converting the value and
/// then the error, or the error and then the value: the two channels are
/// independent, so the results reachable each way are the same.
pub proof fn lemma_channels_commute<T, U, E, F>(x: Result<U, F>, r: Result<T, E>) where
    U: Into<T>,
    F: Into<E>,
    ensures
        both_converted(x, r) <==> (exists|m: Result<T, F>| ok_converted(x, m) && err_converted(m, r)),
        both_converted(x, r) <==> (exists|m: Result<U, E>| err_converted(x, m) && ok_converted(m, r)),
{
    match x {
        Ok(u) => {
            if both_converted(x, r) {
                let m1 = Ok::<T, F>(r->Ok_0);
                assert(ok_converted(x, m1) && err_converted(m1, r));
                let m2 = Ok::<U, E>(u);
                assert(err_converted(x, m2) && ok_converted(m2, r));
            }
        },
        Err(f) => {
            if both_converted(x, r) {
                let m1 = Err::<T, F>(f);
                assert(ok_converted(x, m1) && err_converted(m1, r));
                let m2 = Err::<U, E>(r->Err_0);
                assert(err_converted(x, m2) && ok_converted(m2, r));
            }
        },
    }
}

/// A conversion that hands back its argument.
pub open spec fn is_identity<A: Into<A>>() -> bool {
    forall|a: A, b: A| #[trigger] converts_to(a, b) ==> b == a
}

/// Where each conversion used is the identity, every operation on a `Result`
/// gives back its input.
pub proof fn lemma_identity_result<T, E>(x: Result<T, E>, r: Result<T, E>)
    requires
        is_identity::<T>(),
        is_identity::<E>(),
    ensures
        err_converted(x, r) ==> r == x,
        ok_converted(x, r) ==> r == x,
        both_converted(x, r) ==> r == x,
{
}

/// Where the conversion used is the identity, `map_into` on an `Option` gives
/// back its input.
pub proof fn lemma_identity_option<T>(x: Option<T>, r: Option<T>)
    requires
        is_identity::<T>(),
    ensures
        some_converted(x, r) ==> r == x,
{
}

} // verus!
