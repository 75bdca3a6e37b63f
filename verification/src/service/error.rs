//! Errors of a service: either a business error, which the caller is meant to see,
//! or an internal one.
use vstd::prelude::*;

verus! {

/// The error can be either business or internal.
pub enum ServiceError<B, I> {
    Business(B),
    Internal(I),
}

impl<B, I> From<I> for ServiceError<B, I> {
    fn from(i: I) -> (r: Self) {
        ServiceError::Internal(i)
    }
}

impl<B, I> vstd::std_specs::convert::FromSpecImpl<I> for ServiceError<B, I> {
    open spec fn obeys_from_spec() -> bool {
        true
    }

    /// An error of the service's own turns into an internal error.
    open spec fn from_spec(v: I) -> Self {
        ServiceError::Internal(v)
    }
}

/// Only results of services can take the extension methods below.
pub trait Sealed {}

impl<T, B, I> Sealed for Result<T, ServiceError<B, I>> {}

/// Maps the two kinds of error of a service result separately.
pub trait ResultExt<T, B, I>: Sealed + Sized {
    /// The result seen as a plain `Result` of a `ServiceError`.
    spec fn as_service_result(&self) -> Result<T, ServiceError<B, I>>;

    /// Maps a business error with `business` and an internal error with `internal`;
    /// a success and the kind of error are kept.
    fn map_errs<BN, IN, FB: FnOnce(B) -> BN, FI: FnOnce(I) -> IN>(
        self,
        business: FB,
        internal: FI,
    ) -> (r: Result<T, ServiceError<BN, IN>>)
        requires
            self.as_service_result() matches Err(ServiceError::Business(b)) ==> business.requires((b,)),
            self.as_service_result() matches Err(ServiceError::Internal(i)) ==> internal.requires((i,)),
        ensures
            self.as_service_result() matches Ok(t) ==> r == Ok::<T, ServiceError<BN, IN>>(t),
            self.as_service_result() matches Err(ServiceError::Business(b)) ==> (r matches Err(ServiceError::Business(bn)) && business.ensures((b,), bn)),
            self.as_service_result() matches Err(ServiceError::Internal(i)) ==> (r matches Err(ServiceError::Internal(inn)) && internal.ensures((i,), inn)),
    ;

    /// Maps a business error with `business`; everything else is kept.
    fn map_business<BN, FB: FnOnce(B) -> BN>(self, business: FB) -> (r: Result<T, ServiceError<BN, I>>)
        requires
            self.as_service_result() matches Err(ServiceError::Business(b)) ==> business.requires((b,)),
        ensures
            self.as_service_result() matches Ok(t) ==> r == Ok::<T, ServiceError<BN, I>>(t),
            self.as_service_result() matches Err(ServiceError::Business(b)) ==> (r matches Err(ServiceError::Business(bn)) && business.ensures((b,), bn)),
            self.as_service_result() matches Err(ServiceError::Internal(i)) ==> r == Err::<T, ServiceError<BN, I>>(ServiceError::Internal(i)),
    ;

    /// Maps an internal error with `internal`; everything else is kept.
    fn map_internal<IN, FI: FnOnce(I) -> IN>(self, internal: FI) -> (r: Result<T, ServiceError<B, IN>>)
        requires
            self.as_service_result() matches Err(ServiceError::Internal(i)) ==> internal.requires((i,)),
        ensures
            self.as_service_result() matches Ok(t) ==> r == Ok::<T, ServiceError<B, IN>>(t),
            self.as_service_result() matches Err(ServiceError::Business(b)) ==> r == Err::<T, ServiceError<B, IN>>(ServiceError::Business(b)),
            self.as_service_result() matches Err(ServiceError::Internal(i)) ==> (r matches Err(ServiceError::Internal(inn)) && internal.ensures((i,), inn)),
    ;
}

impl<T, B, I> ResultExt<T, B, I> for Result<T, ServiceError<B, I>> {
    open spec fn as_service_result(&self) -> Result<T, ServiceError<B, I>> {
        *self
    }

    fn map_errs<BN, IN, FB: FnOnce(B) -> BN, FI: FnOnce(I) -> IN>(
        self,
        business: FB,
        internal: FI,
    ) -> (r: Result<T, ServiceError<BN, IN>>) {
        match self {
            Ok(t) => Ok(t),
            Err(ServiceError::Business(b)) => Err(ServiceError::Business(business(b))),
            Err(ServiceError::Internal(i)) => Err(ServiceError::Internal(internal(i))),
        }
    }

    fn map_business<BN, FB: FnOnce(B) -> BN>(self, business: FB) -> (r: Result<T, ServiceError<BN, I>>) {
        match self {
            Ok(t) => Ok(t),
            Err(ServiceError::Business(b)) => Err(ServiceError::Business(business(b))),
            Err(ServiceError::Internal(i)) => Err(ServiceError::Internal(i)),
        }
    }

    fn map_internal<IN, FI: FnOnce(I) -> IN>(self, internal: FI) -> (r: Result<T, ServiceError<B, IN>>) {
        match self {
            Ok(t) => Ok(t),
            Err(ServiceError::Business(b)) => Err(ServiceError::Business(b)),
            Err(ServiceError::Internal(i)) => Err(ServiceError::Internal(internal(i))),
        }
    }
}

/// Turns a missing value or a false condition into a business error.
pub trait OptionExt<T>: Sized {
    /// The value this holds, if it holds one.
    spec fn held(&self) -> Option<T>;

    /// Gives the value if there is one, else the business error `err`.
    fn ok_or_business<B, I>(self, err: B) -> (r: Result<T, ServiceError<B, I>>)
        ensures
            self.held() matches Some(t) ==> r == Ok::<T, ServiceError<B, I>>(t),
            self.held() is None ==> r == Err::<T, ServiceError<B, I>>(ServiceError::Business(err)),
    ;

    /// Gives the value if there is one, else the business error that `err` makes.
    fn ok_or_else_business<B, I, F: FnOnce() -> B>(self, err: F) -> (r: Result<T, ServiceError<B, I>>)
        requires
            self.held() is None ==> err.requires(()),
        ensures
            self.held() matches Some(t) ==> r == Ok::<T, ServiceError<B, I>>(t),
            self.held() is None ==> (r matches Err(ServiceError::Business(b)) && err.ensures((), b)),
    ;
}

impl OptionExt<()> for bool {
    open spec fn held(&self) -> Option<()> {
        if *self { Some(()) } else { None }
    }

    fn ok_or_business<B, I>(self, err: B) -> (r: Result<(), ServiceError<B, I>>) {
        if self { Ok(()) } else { Err(ServiceError::Business(err)) }
    }

    fn ok_or_else_business<B, I, F: FnOnce() -> B>(self, err: F) -> (r: Result<(), ServiceError<B, I>>) {
        if self { Ok(()) } else { Err(ServiceError::Business(err())) }
    }
}

impl<T> OptionExt<T> for Option<T> {
    open spec fn held(&self) -> Option<T> {
        *self
    }

    fn ok_or_business<B, I>(self, err: B) -> (r: Result<T, ServiceError<B, I>>) {
        match self {
            Some(t) => Ok(t),
            None => Err(ServiceError::Business(err)),
        }
    }

    fn ok_or_else_business<B, I, F: FnOnce() -> B>(self, err: F) -> (r: Result<T, ServiceError<B, I>>) {
        match self {
            Some(t) => Ok(t),
            None => Err(ServiceError::Business(err())),
        }
    }
}

} // verus!
