use vstd::prelude::*;

pub mod app;
pub mod display;
pub mod package;
pub mod parse;
pub mod risk;
pub mod text;

verus! {

} // verus!
