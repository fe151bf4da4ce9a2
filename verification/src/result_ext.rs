//! Small extensions on `Result` used by the surrounding service code:
//! peeking at the value for logging without disturbing it, and collapsing
//! a `Result` whose two sides carry the same type.

use vstd::prelude::*;

verus! {

/// Run a side action on the contained value when the result is `Ok`,
/// handing the result itself back unchanged.
pub trait LogExtensionOk<T>: Sized {
    fn log_if_ok<F: FnOnce(&T)>(self, if_ok: F) -> (r: Self)
        requires
            forall|t: &T| #[trigger] call_requires(if_ok, (t,)),
        ensures
            r == self,
    ;
}

/// Run a side action on the contained error when the result is `Err`,
/// handing the result itself back unchanged.
pub trait LogExtensionErr<E>: Sized {
    fn log_if_err<F: FnOnce(&E)>(self, if_err: F) -> (r: Self)
        requires
            forall|e: &E| #[trigger] call_requires(if_err, (e,)),
        ensures
            r == self,
    ;
}

/// Collapse a `Result` whose `Ok` and `Err` sides carry the same type.
pub trait TakeDefined<T> {
    fn take_defined(self) -> T;
}

impl<T, E> LogExtensionOk<T> for Result<T, E> {
    fn log_if_ok<F: FnOnce(&T)>(self, if_ok: F) -> (r: Self) {
        if let Ok(ok) = &self {
            if_ok(ok);
        }
        self
    }
}

impl<T, E> LogExtensionErr<E> for Result<T, E> {
    fn log_if_err<F: FnOnce(&E)>(self, if_err: F) -> (r: Self) {
        if let Err(err) = &self {
            if_err(err);
        }
        self
    }
}

impl<T> TakeDefined<T> for Result<T, T> {
    fn take_defined(self) -> (r: T)
        ensures
            match self {
                Ok(t) => r == t,
                Err(t) => r == t,
            },
    {
        match self {
            Ok(ok) => ok,
            Err(err) => err,
        }
    }
}

} // verus!
