//! Shared ownership of state that several threads work on.

use vstd::prelude::*;
use std::sync::Arc;
use std::sync::Mutex;

verus! {

/// A value behind a lock, shared by reference count.
pub type AM<T> = Arc<Mutex<T>>;

/// A vector behind a lock, shared by reference count.
pub type AMV<T> = Arc<Mutex<Vec<T>>>;

/// `std::sync::Mutex`, carried through as an opaque value.
#[verifier::external_type_specification]
#[verifier::external_body]
#[verifier::reject_recursive_types(T)]
pub struct ExMutex<T: ?Sized>(Mutex<T>);

/// `Mutex::new` puts a value behind a new lock. What the lock holds later is
/// up to whoever locks it, so nothing is promised of the result.
pub assume_specification<T>[ Mutex::<T>::new ](t: T) -> Mutex<T>;

/// Puts `obj` behind a lock that any number of threads can share.
pub fn sync<T>(obj: T) -> AM<T> {
    Arc::new(Mutex::new(obj))
}

/// Puts a vector behind a lock that any number of threads can share.
pub fn sync_vec<T>(obj: Vec<T>) -> AMV<T> {
    Arc::new(Mutex::new(obj))
}

} // verus!
