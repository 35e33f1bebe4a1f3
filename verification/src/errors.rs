//! Errors of order execution, with the rules that decide which of them are
//! worth retrying and after how long.

use vstd::prelude::*;
use crate::text::{
    bool_text, decimal_text, signed_decimal_text, spec_bool_text, spec_decimal, spec_signed_decimal,
};

verus! {

/// Errors that can occur during order execution.
///
/// The amounts of `InsufficientBalance` are USD values carried as the
/// IEEE-754 bit patterns of `f64` numbers (`f64::to_bits`); the library
/// only carries them.
#[derive(Debug, Clone)]
pub enum ExecutionError {
    /// Network connectivity issues.
    Network { message: String, retryable: bool },
    /// Order validation failed (not retryable).
    Validation { message: String },
    /// Exchange API error (may be retryable depending on the error code).
    Exchange { code: i64, message: String, retryable: bool },
    /// Request timeout (retryable).
    Timeout { message: String },
    /// Rate limited by the exchange (retryable after backoff).
    RateLimited { retry_after_secs: u64 },
    /// Insufficient balance (not retryable).
    InsufficientBalance { required_bits: u64, available_bits: u64 },
    /// Order rejected by the exchange (not retryable).
    Rejected { reason: String },
    /// Position not found (not retryable).
    PositionNotFound { symbol: String },
    /// Order not found (not retryable).
    OrderNotFound { order_id: String },
}

impl ExecutionError {
    /// Whether the error is worth retrying: timeouts and rate limits always
    /// are, network and exchange errors when they say so, the rest never.
    pub open spec fn spec_is_retryable(&self) -> bool {
        match self {
            ExecutionError::Network { retryable, .. } => *retryable,
            ExecutionError::Validation { .. } => false,
            ExecutionError::Exchange { retryable, .. } => *retryable,
            ExecutionError::Timeout { .. } => true,
            ExecutionError::RateLimited { .. } => true,
            ExecutionError::InsufficientBalance { .. } => false,
            ExecutionError::Rejected { .. } => false,
            ExecutionError::PositionNotFound { .. } => false,
            ExecutionError::OrderNotFound { .. } => false,
        }
    }

    /// Seconds to wait before a retry, given only for a retryable error:
    /// what the exchange asked for when rate limited, 1 after a timeout, 2
    /// after a retryable network error, 5 after a retryable exchange error.
    pub open spec fn spec_retry_delay_secs(&self) -> Option<u64> {
        match self {
            ExecutionError::RateLimited { retry_after_secs } => Some(*retry_after_secs),
            ExecutionError::Timeout { .. } => Some(1),
            ExecutionError::Network { retryable, .. } => if *retryable {
                Some(2)
            } else {
                None
            },
            ExecutionError::Exchange { retryable, .. } => if *retryable {
                Some(5)
            } else {
                None
            },
            _ => None,
        }
    }

    /// Check if this error is retryable.
    pub fn is_retryable(&self) -> (b: bool)
        ensures
            b == self.spec_is_retryable(),
    {
        match self {
            ExecutionError::Network { retryable, .. } => *retryable,
            ExecutionError::Validation { .. } => false,
            ExecutionError::Exchange { retryable, .. } => *retryable,
            ExecutionError::Timeout { .. } => true,
            ExecutionError::RateLimited { .. } => true,
            ExecutionError::InsufficientBalance { .. } => false,
            ExecutionError::Rejected { .. } => false,
            ExecutionError::PositionNotFound { .. } => false,
            ExecutionError::OrderNotFound { .. } => false,
        }
    }

    /// Get the retry delay in seconds (if any).
    pub fn retry_delay_secs(&self) -> (d: Option<u64>)
        ensures
            d == self.spec_retry_delay_secs(),
    {
        match self {
            ExecutionError::RateLimited { retry_after_secs } => Some(*retry_after_secs),
            ExecutionError::Timeout { .. } => Some(1),
            ExecutionError::Network { retryable: true, .. } => Some(2),
            ExecutionError::Exchange { retryable: true, .. } => Some(5),
            _ => None,
        }
    }

    /// The error's display text; none is given here for an insufficient
    /// balance, whose amounts are fractional numbers.
    pub open spec fn spec_message(&self) -> Option<Seq<char>> {
        match self {
            ExecutionError::Network { message, retryable } => Some(
                "Network error: "@ + message@ + " (retryable: "@ + spec_bool_text(*retryable) + ")"@,
            ),
            ExecutionError::Validation { message } => Some("Validation error: "@ + message@),
            ExecutionError::Exchange { code, message, retryable } => Some(
                "Exchange error "@ + spec_signed_decimal(*code as int) + ": "@ + message@
                    + " (retryable: "@ + spec_bool_text(*retryable) + ")"@,
            ),
            ExecutionError::Timeout { message } => Some("Timeout: "@ + message@),
            ExecutionError::RateLimited { retry_after_secs } => Some(
                "Rate limited, retry after "@ + spec_decimal(*retry_after_secs as nat) + " seconds"@,
            ),
            ExecutionError::InsufficientBalance { .. } => None,
            ExecutionError::Rejected { reason } => Some("Order rejected: "@ + reason@),
            ExecutionError::PositionNotFound { symbol } => Some(
                "Position not found for symbol: "@ + symbol@,
            ),
            ExecutionError::OrderNotFound { order_id } => Some("Order not found: "@ + order_id@),
        }
    }

    /// The error's display text, such as `Timeout: request timed out`
    /// (`None` for an insufficient balance).
    pub fn message(&self) -> (m: Option<String>)
        ensures
            m matches Some(t) ==> self.spec_message() == Some(t@),
            m is None ==> self.spec_message() is None,
    {
        match self {
            ExecutionError::Network { message, retryable } => {
                let mut t = "Network error: ".to_owned();
                t.append(message.as_str());
                t.append(" (retryable: ");
                t.append(bool_text(*retryable));
                t.append(")");
                Some(t)
            },
            ExecutionError::Validation { message } => {
                let mut t = "Validation error: ".to_owned();
                t.append(message.as_str());
                Some(t)
            },
            ExecutionError::Exchange { code, message, retryable } => {
                let mut t = "Exchange error ".to_owned();
                let c = signed_decimal_text(*code);
                t.append(c.as_str());
                t.append(": ");
                t.append(message.as_str());
                t.append(" (retryable: ");
                t.append(bool_text(*retryable));
                t.append(")");
                Some(t)
            },
            ExecutionError::Timeout { message } => {
                let mut t = "Timeout: ".to_owned();
                t.append(message.as_str());
                Some(t)
            },
            ExecutionError::RateLimited { retry_after_secs } => {
                let mut t = "Rate limited, retry after ".to_owned();
                let d = decimal_text(*retry_after_secs);
                t.append(d.as_str());
                t.append(" seconds");
                Some(t)
            },
            ExecutionError::InsufficientBalance { .. } => None,
            ExecutionError::Rejected { reason } => {
                let mut t = "Order rejected: ".to_owned();
                t.append(reason.as_str());
                Some(t)
            },
            ExecutionError::PositionNotFound { symbol } => {
                let mut t = "Position not found for symbol: ".to_owned();
                t.append(symbol.as_str());
                Some(t)
            },
            ExecutionError::OrderNotFound { order_id } => {
                let mut t = "Order not found: ".to_owned();
                t.append(order_id.as_str());
                Some(t)
            },
        }
    }

    /// Classifies a failed HTTP request from what the transport reported:
    /// a timeout when the request timed out, otherwise a network error that
    /// is retryable exactly when the connection could not be made.
    pub fn from_transport(timed_out: bool, connect_failed: bool, message: String) -> (e:
        ExecutionError)
        ensures
            timed_out ==> (e matches ExecutionError::Timeout { message: m } && m@ == message@),
            !timed_out ==> (e matches ExecutionError::Network { message: m, retryable } && m@
                == message@ && retryable == connect_failed),
    {
        if timed_out {
            ExecutionError::Timeout { message }
        } else if connect_failed {
            ExecutionError::Network { message, retryable: true }
        } else {
            ExecutionError::Network { message, retryable: false }
        }
    }

    /// Converts an HTTP client error, classified as `from_transport` does
    /// from what the error reports of itself.
    pub fn from_reqwest(err: &reqwest::Error) -> (e: ExecutionError)
        ensures
            http_timed_out(*err) ==> (e matches ExecutionError::Timeout { message: m } && m@
                == http_text(*err)),
            !http_timed_out(*err) ==> (e matches ExecutionError::Network { message: m, retryable }
                && m@ == http_text(*err) && retryable == http_connect_failed(*err)),
    {
        let timed_out = http_error_timed_out(err);
        let connect_failed = http_error_connect_failed(err);
        let message = http_error_text(err);
        Self::from_transport(timed_out, connect_failed, message)
    }
}

/// The HTTP client's error type.
#[verifier::external_type_specification]
#[verifier::external_body]
pub struct ExHttpError(reqwest::Error);

/// Whether a timeout is in an HTTP client error's chain of causes
/// (`reqwest::Error::is_timeout`), a function of the error alone.
pub uninterp spec fn http_timed_out(err: reqwest::Error) -> bool;

/// Whether a failed connection is in an HTTP client error's chain of
/// causes (`reqwest::Error::is_connect`), a function of the error alone.
pub uninterp spec fn http_connect_failed(err: reqwest::Error) -> bool;

/// Display text of an HTTP client error (reqwest's `Display`), a function
/// of the error alone.
pub uninterp spec fn http_text(err: reqwest::Error) -> Seq<char>;

/// `reqwest::Error::is_timeout`: walks the error's chain of causes for a
/// timeout. The contract claims only that the answer is `http_timed_out`
/// of the error; what that is on a given error is not stated.
#[verifier::external_body]
fn http_error_timed_out(err: &reqwest::Error) -> (b: bool)
    ensures
        b == http_timed_out(*err),
{
    err.is_timeout()
}

/// `reqwest::Error::is_connect`: walks the error's chain of causes for a
/// failed connection. The contract claims only that the answer is
/// `http_connect_failed` of the error.
#[verifier::external_body]
fn http_error_connect_failed(err: &reqwest::Error) -> (b: bool)
    ensures
        b == http_connect_failed(*err),
{
    err.is_connect()
}

/// The error's display text (`to_string` through reqwest's `Display`). The
/// contract claims only that the text is `http_text` of the error.
#[verifier::external_body]
fn http_error_text(err: &reqwest::Error) -> (t: String)
    ensures
        t@ == http_text(*err),
{
    err.to_string()
}

/// A retry delay is given exactly for the errors worth retrying: a rate
/// limit waits what the exchange asked for, a timeout 1 second, a retryable
/// network error 2 seconds and a retryable exchange error 5 seconds;
/// timeouts and rate limits are always worth retrying, validation errors,
/// insufficient balances, rejections and missing positions or orders never.
pub proof fn lemma_delay_exactly_when_retryable(e: ExecutionError)
    ensures
        e.spec_retry_delay_secs() is Some <==> e.spec_is_retryable(),
        e matches ExecutionError::RateLimited { retry_after_secs } ==> e.spec_retry_delay_secs()
            == Some(retry_after_secs) && e.spec_is_retryable(),
        e is Timeout ==> e.spec_retry_delay_secs() == Some(1u64) && e.spec_is_retryable(),
        e matches ExecutionError::Network { retryable, .. } ==> (e.spec_is_retryable() == retryable
            && (retryable ==> e.spec_retry_delay_secs() == Some(2u64))),
        e matches ExecutionError::Exchange { retryable, .. } ==> (e.spec_is_retryable() == retryable
            && (retryable ==> e.spec_retry_delay_secs() == Some(5u64))),
        (e is Validation || e is InsufficientBalance || e is Rejected || e is PositionNotFound
            || e is OrderNotFound) ==> !e.spec_is_retryable() && e.spec_retry_delay_secs() is None,
{
}


} // verus!
