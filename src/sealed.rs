//! A marker that only this crate can give a type, so that the traits built on
//! it cannot be implemented elsewhere.

use vstd::prelude::*;

verus! {

pub trait Sealed {}

impl Sealed for reqwest::Response {}

} // verus!
