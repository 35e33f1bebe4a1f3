//! Risk checks applied to an entry signal before an order is placed, in the
//! order the risk manager applies them.

use vstd::prelude::*;
use crate::types::ExecutionMode;

verus! {

/// Outcome of each risk limit on a signal. The values compared are USD
/// amounts and ratios with fractions, compared by the caller.
#[derive(Debug, Clone, Copy)]
pub struct RiskChecks {
    /// The position's value (entry price times size) is above the maximum.
    pub exceeds_position_limit: bool,
    /// Open exposure plus the position's value, over the account balance,
    /// is above the maximum leverage.
    pub exceeds_leverage_limit: bool,
    /// The current drawdown is above the maximum.
    pub exceeds_drawdown_limit: bool,
    /// A position is already open for the signal's symbol.
    pub has_position: bool,
}

/// The limit a signal breaks.
#[derive(Debug, Clone, Copy, PartialEq, Eq, Structural)]
pub enum RiskRejection {
    PositionTooLarge,
    LeverageTooHigh,
    DrawdownExceeded,
    PositionExists,
}

/// The first limit broken, in the order: position size, leverage,
/// drawdown, existing position.
pub open spec fn spec_validate_signal(checks: RiskChecks) -> Result<(), RiskRejection> {
    if checks.exceeds_position_limit {
        Err(RiskRejection::PositionTooLarge)
    } else if checks.exceeds_leverage_limit {
        Err(RiskRejection::LeverageTooHigh)
    } else if checks.exceeds_drawdown_limit {
        Err(RiskRejection::DrawdownExceeded)
    } else if checks.has_position {
        Err(RiskRejection::PositionExists)
    } else {
        Ok(())
    }
}

/// Accepts a signal, or names the first risk limit it breaks.
pub fn validate_signal(checks: &RiskChecks) -> (r: Result<(), RiskRejection>)
    ensures
        r == spec_validate_signal(*checks),
{
    if checks.exceeds_position_limit {
        return Err(RiskRejection::PositionTooLarge);
    }
    if checks.exceeds_leverage_limit {
        return Err(RiskRejection::LeverageTooHigh);
    }
    if checks.exceeds_drawdown_limit {
        return Err(RiskRejection::DrawdownExceeded);
    }
    if checks.has_position {
        return Err(RiskRejection::PositionExists);
    }
    Ok(())
}

/// A signal passes exactly when it breaks none of the four limits.
pub proof fn lemma_accepted_iff_within_limits(checks: RiskChecks)
    ensures
        spec_validate_signal(checks) is Ok <==> (!checks.exceeds_position_limit
            && !checks.exceeds_leverage_limit && !checks.exceeds_drawdown_limit
            && !checks.has_position),
{
}

/// The message given when the account balance is asked of the exchange,
/// which is not supported: `Account balance fetch not implemented for
/// <MODE> mode. API URL: <url>`.
pub fn balance_fetch_error(mode: ExecutionMode, api_url: &str) -> (m: String)
    ensures
        m@ == "Account balance fetch not implemented for "@ + mode.spec_label() + " mode. API URL: "@
            + api_url@,
{
    let mut m = "Account balance fetch not implemented for ".to_owned();
    m.append(mode.label());
    m.append(" mode. API URL: ");
    m.append(api_url);
    m
}

} // verus!
