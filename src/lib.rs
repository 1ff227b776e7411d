use vstd::prelude::*;

pub mod error;
pub mod port;
pub mod pin;
pub mod led;
pub mod blinker;
pub mod mco;
pub mod program;

verus! {

} // verus!
