//! Calls whose arguments and result a contract can speak of.
use vstd::prelude::*;

verus! {

/// Calls `f`. What comes back is a result of that call.
pub(crate) fn call_with_none<R, F: FnOnce() -> R>(f: F) -> (result: R)
    requires
        call_requires(f, ()),
    ensures
        call_ensures(f, (), result),
{
    f()
}

/// Calls `f` with one argument. What comes back is a result of that call.
pub(crate) fn call_with_one<A, R, F: FnOnce(A) -> R>(f: F, argument: A) -> (result: R)
    requires
        call_requires(f, (argument,)),
    ensures
        call_ensures(f, (argument,), result),
{
    f(argument)
}

/// Calls `f` with two arguments. What comes back is a result of that call.
pub(crate) fn call_with_two<A, B, R, F: FnOnce(A, B) -> R>(
    f: F,
    first: A,
    second: B,
) -> (result: R)
    requires
        call_requires(f, (first, second)),
    ensures
        call_ensures(f, (first, second), result),
{
    f(first, second)
}

} // verus!
