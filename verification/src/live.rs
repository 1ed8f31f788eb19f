//! Contracts for the `refreshable` crate, which delivers new versions of the
//! configuration.
//!
//! What these calls answer depends on what has been refreshed meanwhile, so
//! none of the contracts promises a value.

use vstd::prelude::*;

verus! {

/// `refreshable::Refreshable`: a value that changes over time. Nothing is known of it.
#[verifier::external_type_specification]
#[verifier::external_body]
#[verifier::reject_recursive_types(T)]
#[verifier::reject_recursive_types(E)]
pub struct ExRefreshable<T, E>(refreshable::Refreshable<T, E>);

/// `refreshable::Subscription`: the guard of a subscription, which ends when the guard is dropped.
#[verifier::external_type_specification]
#[verifier::external_body]
#[verifier::reject_recursive_types(T)]
#[verifier::reject_recursive_types(E)]
pub struct ExSubscription<T, E>(refreshable::Subscription<T, E>);

/// `refreshable::Guard`: a snapshot of a refreshable value.
#[verifier::external_type_specification]
#[verifier::external_body]
#[verifier::reject_recursive_types(T)]
pub struct ExGuard<'a, T>(refreshable::Guard<'a, T>);

/// `Refreshable::get` gives a snapshot of the current value.
pub assume_specification<'a, T, E>[ refreshable::Refreshable::<T, E>::get ](
    r: &'a refreshable::Refreshable<T, E>,
) -> (g: refreshable::Guard<'a, T>)
    where T: PartialEq + 'static + Sync + Send, E: 'static
;

/// `Guard::deref` gives the value of the snapshot.
#[verifier::external_body]
pub(crate) fn guard_value<'a, 'b, T>(g: &'a refreshable::Guard<'b, T>) -> (v: &'a T) {
    core::ops::Deref::deref(g)
}

} // verus!
