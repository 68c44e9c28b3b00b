//! The platforms of peer connections whose settings are checked when they are built.

use vstd::prelude::*;

pub mod native;
pub mod web;

verus! {

/// Platform marker.
pub trait Platform {

}

} // verus!
