use crate::types::Side;
use std::collections::VecDeque;
use vstd::prelude::*;

verus! {

/// Whether a fill added liquidity to the book or took it.
#[derive(Clone, Copy, Debug, Default, PartialEq, Eq, Structural)]
pub enum LiquidityFlag {
    Maker,
    #[default]
    Taker,
}

/// Which open lot an opposite fill closes first.
#[derive(Clone, Copy, Debug, Default, PartialEq, Eq, Structural)]
pub enum LotMatchingMethod {
    #[default]
    Fifo,
    Lifo,
}

/// Lot `i` of a book whose lots have the sides `lot_sides` can be closed by a fill on `side`.
pub open spec fn closes_lot(lot_sides: Seq<Side>, i: int, side: Side) -> bool {
    0 <= i < lot_sides.len() && lot_sides[i] != side
}

/// The lot that a fill on `side` closes next: the oldest opposite lot under
/// FIFO, the newest under LIFO, none when every lot is on the fill's side.
pub fn opposite_lot_index(lot_sides: &[Side], side: Side, method: LotMatchingMethod) -> (index:
    Option<usize>)
    ensures
        index matches Some(i) ==> closes_lot(lot_sides@, i as int, side),
        index matches Some(i) ==> (method == LotMatchingMethod::Fifo ==> forall|j: int|
            0 <= j < i ==> !closes_lot(lot_sides@, j, side)),
        index matches Some(i) ==> (method == LotMatchingMethod::Lifo ==> forall|j: int|
            i < j < lot_sides@.len() ==> !closes_lot(lot_sides@, j, side)),
        index is None ==> forall|j: int|
            0 <= j < lot_sides@.len() ==> !closes_lot(lot_sides@, j, side),
{
    let n = lot_sides.len();
    match method {
        LotMatchingMethod::Fifo => {
            let mut i: usize = 0;
            while i < n
                invariant
                    n == lot_sides@.len(),
                    method == LotMatchingMethod::Fifo,
                    i <= n,
                    forall|j: int| 0 <= j < i ==> !closes_lot(lot_sides@, j, side),
                decreases n - i,
            {
                if lot_sides[i] != side {
                    return Some(i);
                }
                i = i + 1;
            }
            None
        },
        LotMatchingMethod::Lifo => {
            let mut i: usize = n;
            while i > 0
                invariant
                    n == lot_sides@.len(),
                    method == LotMatchingMethod::Lifo,
                    i <= n,
                    forall|j: int| i <= j < n ==> !closes_lot(lot_sides@, j, side),
                decreases i,
            {
                if lot_sides[i - 1] != side {
                    return Some(i - 1);
                }
                i = i - 1;
            }
            None
        },
    }
}

/// Opens a new lot: under either matching method it goes to the back of the book.
pub fn push_lot<L>(lots: &mut VecDeque<L>, lot: L, method: LotMatchingMethod)
    ensures
        final(lots)@ == old(lots)@.push(lot),
{
    match method {
        LotMatchingMethod::Fifo | LotMatchingMethod::Lifo => lots.push_back(lot),
    }
}

} // verus!
