use vstd::prelude::*;

verus! {

/// The market-data source the pipeline reads from.
#[derive(Clone, Copy, Debug, PartialEq, Eq, Structural)]
pub enum Exchange {
    Binance,
    Mock,
}

} // verus!
