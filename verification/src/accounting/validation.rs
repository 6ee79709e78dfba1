use vstd::prelude::*;

verus! {

/// The setting a strategy's outcomes were recorded in.
#[derive(Clone, Copy, Debug, PartialEq, Eq, Hash, Structural)]
pub enum ValidationMode {
    Shadow,
    Paper,
    Live,
}

} // verus!
