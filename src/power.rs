use vstd::prelude::*;
use crate::error::ErrorCode;

verus! {

/// The largest voting power a ballot can hold.
pub const MAX_VOTING_POWER: u8 = 255;

/// `floor(contribution * rights / total)`, clamped to what a ballot can hold.
pub open spec fn proportional_power(contribution: int, rights: int, total: int) -> int {
    let q = contribution * rights / total;
    if q > MAX_VOTING_POWER as int {
        MAX_VOTING_POWER as int
    } else {
        q
    }
}

/// What `voting_power` returns: an overflowing product fails first, then a zero
/// total, and otherwise the clamped proportional power.
pub open spec fn voting_power_result(contribution: u64, rights: u8, total: u64) -> Result<u8, ErrorCode> {
    if contribution * rights > u64::MAX {
        Err(ErrorCode::ArithmeticOverflow)
    } else if total == 0 {
        Err(ErrorCode::DivisionByZero)
    } else {
        Ok(proportional_power(contribution as int, rights as int, total as int) as u8)
    }
}

/// A participant's power, proportional to their share `contribution` of
/// `total`, scaled by the rights percentage `rights`.
pub fn voting_power(contribution: u64, rights: u8, total: u64) -> (r: Result<u8, ErrorCode>)
    ensures
        r == voting_power_result(contribution, rights, total),
{
    let product = match contribution.checked_mul(rights as u64) {
        Some(p) => p,
        None => {
            return Err(ErrorCode::ArithmeticOverflow);
        },
    };
    if total == 0 {
        return Err(ErrorCode::DivisionByZero);
    }
    let q = product / total;
    if q > MAX_VOTING_POWER as u64 {
        Ok(MAX_VOTING_POWER)
    } else {
        Ok(q as u8)
    }
}

} // verus!
