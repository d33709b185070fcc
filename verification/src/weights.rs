//! The weight table of the user operations.

use std::marker::PhantomData;
use vstd::prelude::*;

verus! {

/// Names the weight table measured on reference hardware for the runtime
/// `T`. It holds no data: the costs themselves are supplied by the host.
pub struct SubstrateWeight<T>(PhantomData<T>);

} // verus!
