use vstd::prelude::*;

pub mod trials;
pub mod lemmas;
pub mod duration;
pub mod time_input;

verus! {

} // verus!
