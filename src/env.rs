use vstd::prelude::*;

verus! {

/// A configuration struct that can build itself, typically by reading its
/// fields through an [`EnvGetter`](crate::EnvGetter).
pub trait Env: Sized {
    fn new() -> Self;
}

} // verus!
