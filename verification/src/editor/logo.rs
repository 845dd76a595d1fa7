use vstd::prelude::*;

verus! {

/// The product logo shown centred above the controls.
pub struct Logo;

} // verus!
