//! Keeps the capability and element-type traits closed to this crate.
use vstd::prelude::*;

verus! {

pub trait Sealed {
}

} // verus!
