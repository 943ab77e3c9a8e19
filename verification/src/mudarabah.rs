//! The AAOIFI admission rule for a Mudarabah offered on the command line.
use vstd::prelude::*;

verus! {

/// Highest share of the profit that the Mudarib may take, in basis points (90%).
pub const MAX_MUDARIB_RATIO_BP: u16 = 9000;

/// A Mudarabah is admissible when the Mudarib's profit ratio (in basis points)
/// is at most 90% and the capital is not nil. The loss provision does not
/// enter the decision.
pub fn validate_mudarabah(profit_ratio: u16, capital: u64, loss_provision: &str) -> (ok: bool)
    ensures
        ok == (profit_ratio <= MAX_MUDARIB_RATIO_BP && capital > 0),
{
    profit_ratio <= MAX_MUDARIB_RATIO_BP && capital > 0
}

} // verus!
