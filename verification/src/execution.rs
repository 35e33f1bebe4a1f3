//! Order life-cycle decisions: which side an order takes, how fills and
//! replies move an order's status, and when an order has outlived its
//! time to live.

use vstd::prelude::*;
use crate::types::{ExecutionMode, OrderSide, OrderStatus, Signal, same_text};

verus! {

/// The order side that carries out a signal: buy for a long, sell for a
/// short, and none for no signal.
pub open spec fn spec_order_side_for(signal: Signal) -> Option<OrderSide> {
    match signal {
        Signal::Long => Some(OrderSide::Buy),
        Signal::Short => Some(OrderSide::Sell),
        Signal::NoSignal => None,
    }
}

/// The order side that carries out a signal (`None` for no signal, which is
/// refused with `Invalid signal: None`).
pub fn order_side_for(signal: Signal) -> (s: Option<OrderSide>)
    ensures
        s == spec_order_side_for(signal),
{
    match signal {
        Signal::Long => Some(OrderSide::Buy),
        Signal::Short => Some(OrderSide::Sell),
        Signal::NoSignal => None,
    }
}

/// Whether a signal can be traded: it has a direction and a size above 0.
pub fn signal_is_valid(signal: Signal, size_positive: bool) -> (b: bool)
    ensures
        b == (signal != Signal::NoSignal && size_positive),
{
    signal != Signal::NoSignal && size_positive
}

/// Whether orders are filled on the spot without reaching the exchange
/// (only in dry-run mode).
pub fn fills_locally(mode: ExecutionMode) -> (b: bool)
    ensures
        b == (mode == ExecutionMode::DryRun),
{
    match mode {
        ExecutionMode::DryRun => true,
        _ => false,
    }
}

/// Status of an order after a fill report: filled once the filled size
/// covers the order's size, partially filled once anything is filled, and
/// unchanged otherwise.
pub open spec fn spec_status_after_fill(
    current: OrderStatus,
    covers_order: bool,
    any_filled: bool,
) -> OrderStatus {
    if covers_order {
        OrderStatus::Filled
    } else if any_filled {
        OrderStatus::PartiallyFilled
    } else {
        current
    }
}

/// Status of an order after a fill report.
pub fn status_after_fill(current: OrderStatus, covers_order: bool, any_filled: bool) -> (s:
    OrderStatus)
    ensures
        s == spec_status_after_fill(current, covers_order, any_filled),
{
    if covers_order {
        OrderStatus::Filled
    } else if any_filled {
        OrderStatus::PartiallyFilled
    } else {
        current
    }
}

/// How the exchange answered an order.
#[derive(Debug, Clone, Copy, PartialEq, Eq, Structural)]
pub enum OrderAck {
    /// The order rests on the book: its status becomes `Pending`.
    Accepted,
    /// The request failed or the reply's status is not `ok`: the order is
    /// `Rejected` and the placement fails.
    Rejected,
}

/// Reads the exchange's answer to an order from the HTTP outcome and the
/// `status` field of the reply.
pub fn order_ack(http_success: bool, reply_status: &str) -> (a: OrderAck)
    ensures
        a == (if http_success && reply_status@ == "ok"@ {
            OrderAck::Accepted
        } else {
            OrderAck::Rejected
        }),
{
    if http_success && same_text(reply_status, "ok") {
        OrderAck::Accepted
    } else {
        OrderAck::Rejected
    }
}

/// The status an answer gives the order.
pub fn status_after_ack(ack: OrderAck) -> (s: OrderStatus)
    ensures
        s == (match ack {
            OrderAck::Accepted => OrderStatus::Pending,
            OrderAck::Rejected => OrderStatus::Rejected,
        }),
{
    match ack {
        OrderAck::Accepted => OrderStatus::Pending,
        OrderAck::Rejected => OrderStatus::Rejected,
    }
}

/// Whether an order that has lived `elapsed_secs` whole seconds has
/// outlived a time to live of `ttl_seconds`.
pub fn is_expired(elapsed_secs: i64, ttl_seconds: i64) -> (b: bool)
    ensures
        b == (elapsed_secs > ttl_seconds),
{
    elapsed_secs > ttl_seconds
}

/// Whether the time-to-live sweep cancels an order: it is still pending
/// and has outlived its time to live.
pub open spec fn spec_cancels_for_ttl(status: OrderStatus, elapsed_secs: i64, ttl_seconds: i64) -> bool {
    status == OrderStatus::Pending && elapsed_secs > ttl_seconds
}

/// Whether the time-to-live sweep cancels an order.
pub fn cancels_for_ttl(status: OrderStatus, elapsed_secs: i64, ttl_seconds: i64) -> (b: bool)
    ensures
        b == spec_cancels_for_ttl(status, elapsed_secs, ttl_seconds),
        b <==> (status == OrderStatus::Pending && elapsed_secs > ttl_seconds),
{
    status == OrderStatus::Pending && is_expired(elapsed_secs, ttl_seconds)
}

/// Number of pending statuses among `statuses[..n]`.
pub open spec fn spec_count_pending(statuses: Seq<OrderStatus>, n: int) -> nat
    decreases n,
{
    if n <= 0 {
        0
    } else {
        spec_count_pending(statuses, n - 1) + if statuses[n - 1] == OrderStatus::Pending {
            1nat
        } else {
            0nat
        }
    }
}

/// Number of pending orders among the given statuses.
pub fn count_pending(statuses: &[OrderStatus]) -> (n: usize)
    ensures
        n == spec_count_pending(statuses@, statuses@.len() as int),
{
    let mut count: usize = 0;
    let mut i: usize = 0;
    while i < statuses.len()
        invariant
            i <= statuses@.len(),
            count == spec_count_pending(statuses@, i as int),
            count <= i,
        decreases statuses@.len() - i,
    {
        if statuses[i] == OrderStatus::Pending {
            count = count + 1;
        }
        i = i + 1;
    }
    count
}

/// The sweep cancels an order exactly when it is pending and has lived
/// longer than its time to live: never while its age is at most the TTL,
/// and, once cancelled at some age, at every greater age too.
pub proof fn lemma_sweep_cancels_only_expired(
    status: OrderStatus,
    elapsed_secs: i64,
    older: i64,
    ttl_seconds: i64,
)
    requires
        elapsed_secs <= older,
    ensures
        spec_cancels_for_ttl(status, elapsed_secs, ttl_seconds) <==> (status
            == OrderStatus::Pending && elapsed_secs > ttl_seconds),
        elapsed_secs <= ttl_seconds ==> !spec_cancels_for_ttl(status, elapsed_secs, ttl_seconds),
        spec_cancels_for_ttl(status, elapsed_secs, ttl_seconds) ==> spec_cancels_for_ttl(
            status,
            older,
            ttl_seconds,
        ),
{
}

/// The sweep leaves alone every order that is not pending, and an order it
/// cancels stays cancelled by later sweeps (a cancelled order is never
/// pending).
pub proof fn lemma_sweep_touches_only_pending(status: OrderStatus, elapsed_secs: i64, ttl_seconds: i64)
    ensures
        spec_cancels_for_ttl(status, elapsed_secs, ttl_seconds) ==> status == OrderStatus::Pending,
        !spec_cancels_for_ttl(OrderStatus::Cancelled, elapsed_secs, ttl_seconds),
{
}

/// A fill report never takes an order back to pending from a filled state:
/// a full fill gives `Filled`, a partial one `PartiallyFilled`.
pub proof fn lemma_fill_moves_forward(current: OrderStatus, covers_order: bool, any_filled: bool)
    ensures
        covers_order ==> spec_status_after_fill(current, covers_order, any_filled) == OrderStatus::Filled,
        !covers_order && any_filled ==> spec_status_after_fill(current, covers_order, any_filled)
            == OrderStatus::PartiallyFilled,
        !covers_order && !any_filled ==> spec_status_after_fill(current, covers_order, any_filled)
            == current,
{
}

/// An order trades in the signal's direction: a long buys, a short sells,
/// no signal gives no order; opposite signals give opposite sides.
pub proof fn lemma_order_side_follows_signal(signal: Signal)
    ensures
        (spec_order_side_for(signal) == Some(OrderSide::Buy)) <==> signal == Signal::Long,
        (spec_order_side_for(signal) == Some(OrderSide::Sell)) <==> signal == Signal::Short,
        (spec_order_side_for(signal) is None) <==> signal == Signal::NoSignal,
        spec_order_side_for(Signal::Long) != spec_order_side_for(Signal::Short),
{
}

} // verus!
