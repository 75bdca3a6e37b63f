//! Values that live for the rest of the program, such as the services a server
//! hands to its request handlers.
use vstd::prelude::*;

verus! {

/// Leaks the box through `Box::leak`, which gives a reference to its contents that
/// is never freed.
#[verifier::external_body]
fn leak<T: 'static>(b: Box<T>) -> (r: &'static T)
    ensures
        *r == *b,
{
    Box::leak(b)
}

/// A value moved to the heap for the rest of the program.
pub trait Leaked: Sized + 'static {
    fn leaked(self) -> (r: &'static Self)
        ensures
            *r == self,
    ;
}

impl<T: 'static> Leaked for T {
    fn leaked(self) -> (r: &'static Self) {
        leak(Box::new(self))
    }
}

} // verus!
