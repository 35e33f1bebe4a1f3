//! The bot's main loop as a state machine: for each event (a trade, a
//! finished candle, a shutdown, or the outcome of the last piece of work) it
//! decides the next step and the work that step owes. The caller performs
//! the work and reports its outcome as the next event.
//!
//! One trade is carried through: build the candle; when one completes,
//! store it, evaluate it, check a valid signal against the risk rules, place
//! the order and record its success or failure with the circuit breaker;
//! then check for an exit, close the position and record the trade and the
//! outcome; last, record the latency. A candle from the candle channel is
//! exported. After each trade or candle the loop stops if the circuit
//! breaker has tripped; a shutdown or an interrupt stops it while it waits.

use vstd::prelude::*;

verus! {

/// Where the loop stands: each step owes one piece of work.
#[derive(Debug, Clone, Copy, PartialEq, Eq, Structural)]
pub enum LoopStep {
    /// Waiting for a trade, a candle, a shutdown or an interrupt.
    Idle,
    /// A trade is fed to the candle builder.
    Building,
    /// A completed candle is stored in the shared state.
    Storing,
    /// The strategy evaluates the completed candle.
    Evaluating,
    /// A valid signal is checked against the risk rules.
    Validating,
    /// The order of an accepted signal is placed.
    Placing,
    /// A placed order is recorded as a success.
    RecordingOrderSuccess,
    /// A failed order is recorded as a failure.
    RecordingOrderFailure,
    /// The strategy checks whether the symbol's position is to be closed.
    CheckingExit,
    /// The position to close is looked up.
    LookingUpPosition,
    /// The position is closed.
    Closing,
    /// The closed trade is written to the trade history.
    RecordingTrade,
    /// A close is recorded as a success.
    RecordingCloseSuccess,
    /// A failed close is recorded as a failure.
    RecordingCloseFailure,
    /// The trade's processing time is recorded.
    RecordingLatency,
    /// A candle from the candle channel is exported.
    Exporting,
    /// The loop has ended.
    Stopped,
}

/// What happened since the last decision.
#[derive(Debug, Clone, Copy, PartialEq, Eq, Structural)]
pub enum LoopEvent {
    /// A trade arrived.
    TradeReceived,
    /// A finished candle arrived on the candle channel.
    CandleReceived,
    /// The shutdown signal was broadcast.
    Shutdown,
    /// The process was interrupted (Ctrl-C).
    Interrupt,
    /// The trade completed a candle.
    CandleCompleted,
    /// The trade completed no candle.
    NoCandle,
    /// The strategy gave a signal; `valid` tells whether it passes its own
    /// sanity check.
    SignalReady { valid: bool },
    /// The strategy gave no signal.
    NoSignal,
    /// The risk rules accepted the signal.
    RiskAccepted,
    /// The risk rules rejected the signal.
    RiskRejected,
    /// The order was placed.
    OrderPlaced,
    /// Placing the order failed.
    OrderFailed,
    /// The position is to be closed.
    ExitDue,
    /// No exit is due.
    NoExit,
    /// The position to close was found.
    PositionFound,
    /// No position was found to close.
    NoPosition,
    /// The position was closed.
    PositionClosed,
    /// Closing the position failed.
    CloseFailed,
    /// The step's work is done.
    Done,
}

/// The work the caller is to do next.
#[derive(Debug, Clone, Copy, PartialEq, Eq, Structural)]
pub enum LoopAction {
    WaitForEvent,
    ProcessTrade,
    StoreCandle,
    EvaluateSignal,
    ValidateRisk,
    PlaceOrder,
    RecordSuccess,
    RecordFailure,
    CheckExit,
    LookUpPosition,
    ClosePosition,
    RecordTrade,
    RecordLatency,
    ExportCandle,
    Stop,
}

/// The work a step owes.
pub open spec fn spec_step_action(step: LoopStep) -> LoopAction {
    match step {
        LoopStep::Idle => LoopAction::WaitForEvent,
        LoopStep::Building => LoopAction::ProcessTrade,
        LoopStep::Storing => LoopAction::StoreCandle,
        LoopStep::Evaluating => LoopAction::EvaluateSignal,
        LoopStep::Validating => LoopAction::ValidateRisk,
        LoopStep::Placing => LoopAction::PlaceOrder,
        LoopStep::RecordingOrderSuccess => LoopAction::RecordSuccess,
        LoopStep::RecordingOrderFailure => LoopAction::RecordFailure,
        LoopStep::CheckingExit => LoopAction::CheckExit,
        LoopStep::LookingUpPosition => LoopAction::LookUpPosition,
        LoopStep::Closing => LoopAction::ClosePosition,
        LoopStep::RecordingTrade => LoopAction::RecordTrade,
        LoopStep::RecordingCloseSuccess => LoopAction::RecordSuccess,
        LoopStep::RecordingCloseFailure => LoopAction::RecordFailure,
        LoopStep::RecordingLatency => LoopAction::RecordLatency,
        LoopStep::Exporting => LoopAction::ExportCandle,
        LoopStep::Stopped => LoopAction::Stop,
    }
}

/// Where the loop goes once a trade or a candle is fully handled: it stops
/// if the circuit breaker has tripped, else it waits for the next event.
pub open spec fn spec_iteration_end(breaker_tripped: bool) -> LoopStep {
    if breaker_tripped {
        LoopStep::Stopped
    } else {
        LoopStep::Idle
    }
}

/// The step after `event` at `step`. An event that the step does not expect
/// leaves the loop where it is, with the step's work still owed.
pub open spec fn spec_next_step(step: LoopStep, event: LoopEvent, breaker_tripped: bool) -> LoopStep {
    match (step, event) {
        (LoopStep::Idle, LoopEvent::TradeReceived) => LoopStep::Building,
        (LoopStep::Idle, LoopEvent::CandleReceived) => LoopStep::Exporting,
        (LoopStep::Idle, LoopEvent::Shutdown) => LoopStep::Stopped,
        (LoopStep::Idle, LoopEvent::Interrupt) => LoopStep::Stopped,
        (LoopStep::Building, LoopEvent::CandleCompleted) => LoopStep::Storing,
        (LoopStep::Building, LoopEvent::NoCandle) => LoopStep::RecordingLatency,
        (LoopStep::Storing, LoopEvent::Done) => LoopStep::Evaluating,
        (LoopStep::Evaluating, LoopEvent::SignalReady { valid }) => if valid {
            LoopStep::Validating
        } else {
            LoopStep::CheckingExit
        },
        (LoopStep::Evaluating, LoopEvent::NoSignal) => LoopStep::CheckingExit,
        (LoopStep::Validating, LoopEvent::RiskAccepted) => LoopStep::Placing,
        (LoopStep::Validating, LoopEvent::RiskRejected) => LoopStep::CheckingExit,
        (LoopStep::Placing, LoopEvent::OrderPlaced) => LoopStep::RecordingOrderSuccess,
        (LoopStep::Placing, LoopEvent::OrderFailed) => LoopStep::RecordingOrderFailure,
        (LoopStep::RecordingOrderSuccess, LoopEvent::Done) => LoopStep::CheckingExit,
        (LoopStep::RecordingOrderFailure, LoopEvent::Done) => LoopStep::CheckingExit,
        (LoopStep::CheckingExit, LoopEvent::ExitDue) => LoopStep::LookingUpPosition,
        (LoopStep::CheckingExit, LoopEvent::NoExit) => LoopStep::RecordingLatency,
        (LoopStep::LookingUpPosition, LoopEvent::PositionFound) => LoopStep::Closing,
        (LoopStep::LookingUpPosition, LoopEvent::NoPosition) => LoopStep::RecordingLatency,
        (LoopStep::Closing, LoopEvent::PositionClosed) => LoopStep::RecordingTrade,
        (LoopStep::Closing, LoopEvent::CloseFailed) => LoopStep::RecordingCloseFailure,
        (LoopStep::RecordingTrade, LoopEvent::Done) => LoopStep::RecordingCloseSuccess,
        (LoopStep::RecordingCloseSuccess, LoopEvent::Done) => LoopStep::RecordingLatency,
        (LoopStep::RecordingCloseFailure, LoopEvent::Done) => LoopStep::RecordingLatency,
        (LoopStep::RecordingLatency, LoopEvent::Done) => spec_iteration_end(breaker_tripped),
        (LoopStep::Exporting, LoopEvent::Done) => spec_iteration_end(breaker_tripped),
        _ => step,
    }
}

/// The next step and the work it owes.
pub open spec fn spec_next_action(step: LoopStep, event: LoopEvent, breaker_tripped: bool) -> (
    LoopStep,
    LoopAction,
) {
    let next = spec_next_step(step, event, breaker_tripped);
    (next, spec_step_action(next))
}

/// The work a step owes.
pub fn step_action(step: LoopStep) -> (a: LoopAction)
    ensures
        a == spec_step_action(step),
{
    match step {
        LoopStep::Idle => LoopAction::WaitForEvent,
        LoopStep::Building => LoopAction::ProcessTrade,
        LoopStep::Storing => LoopAction::StoreCandle,
        LoopStep::Evaluating => LoopAction::EvaluateSignal,
        LoopStep::Validating => LoopAction::ValidateRisk,
        LoopStep::Placing => LoopAction::PlaceOrder,
        LoopStep::RecordingOrderSuccess => LoopAction::RecordSuccess,
        LoopStep::RecordingOrderFailure => LoopAction::RecordFailure,
        LoopStep::CheckingExit => LoopAction::CheckExit,
        LoopStep::LookingUpPosition => LoopAction::LookUpPosition,
        LoopStep::Closing => LoopAction::ClosePosition,
        LoopStep::RecordingTrade => LoopAction::RecordTrade,
        LoopStep::RecordingCloseSuccess => LoopAction::RecordSuccess,
        LoopStep::RecordingCloseFailure => LoopAction::RecordFailure,
        LoopStep::RecordingLatency => LoopAction::RecordLatency,
        LoopStep::Exporting => LoopAction::ExportCandle,
        LoopStep::Stopped => LoopAction::Stop,
    }
}

/// Decides the loop's next step, and the work it owes, after `event` at
/// `step`; `breaker_tripped` tells whether the circuit breaker has tripped.
pub fn next_action(step: LoopStep, event: LoopEvent, breaker_tripped: bool) -> (r: (
    LoopStep,
    LoopAction,
))
    ensures
        r == spec_next_action(step, event, breaker_tripped),
{
    let end = if breaker_tripped {
        LoopStep::Stopped
    } else {
        LoopStep::Idle
    };
    let next = match (step, event) {
        (LoopStep::Idle, LoopEvent::TradeReceived) => LoopStep::Building,
        (LoopStep::Idle, LoopEvent::CandleReceived) => LoopStep::Exporting,
        (LoopStep::Idle, LoopEvent::Shutdown) => LoopStep::Stopped,
        (LoopStep::Idle, LoopEvent::Interrupt) => LoopStep::Stopped,
        (LoopStep::Building, LoopEvent::CandleCompleted) => LoopStep::Storing,
        (LoopStep::Building, LoopEvent::NoCandle) => LoopStep::RecordingLatency,
        (LoopStep::Storing, LoopEvent::Done) => LoopStep::Evaluating,
        (LoopStep::Evaluating, LoopEvent::SignalReady { valid }) => if valid {
            LoopStep::Validating
        } else {
            LoopStep::CheckingExit
        },
        (LoopStep::Evaluating, LoopEvent::NoSignal) => LoopStep::CheckingExit,
        (LoopStep::Validating, LoopEvent::RiskAccepted) => LoopStep::Placing,
        (LoopStep::Validating, LoopEvent::RiskRejected) => LoopStep::CheckingExit,
        (LoopStep::Placing, LoopEvent::OrderPlaced) => LoopStep::RecordingOrderSuccess,
        (LoopStep::Placing, LoopEvent::OrderFailed) => LoopStep::RecordingOrderFailure,
        (LoopStep::RecordingOrderSuccess, LoopEvent::Done) => LoopStep::CheckingExit,
        (LoopStep::RecordingOrderFailure, LoopEvent::Done) => LoopStep::CheckingExit,
        (LoopStep::CheckingExit, LoopEvent::ExitDue) => LoopStep::LookingUpPosition,
        (LoopStep::CheckingExit, LoopEvent::NoExit) => LoopStep::RecordingLatency,
        (LoopStep::LookingUpPosition, LoopEvent::PositionFound) => LoopStep::Closing,
        (LoopStep::LookingUpPosition, LoopEvent::NoPosition) => LoopStep::RecordingLatency,
        (LoopStep::Closing, LoopEvent::PositionClosed) => LoopStep::RecordingTrade,
        (LoopStep::Closing, LoopEvent::CloseFailed) => LoopStep::RecordingCloseFailure,
        (LoopStep::RecordingTrade, LoopEvent::Done) => LoopStep::RecordingCloseSuccess,
        (LoopStep::RecordingCloseSuccess, LoopEvent::Done) => LoopStep::RecordingLatency,
        (LoopStep::RecordingCloseFailure, LoopEvent::Done) => LoopStep::RecordingLatency,
        (LoopStep::RecordingLatency, LoopEvent::Done) => end,
        (LoopStep::Exporting, LoopEvent::Done) => end,
        _ => step,
    };
    (next, step_action(next))
}

/// How far a step stands from the end of a trade's handling: each piece
/// of work on the way brings the loop closer.
pub open spec fn spec_distance_to_end(step: LoopStep) -> nat {
    match step {
        LoopStep::Building => 12,
        LoopStep::Storing => 11,
        LoopStep::Evaluating => 10,
        LoopStep::Validating => 9,
        LoopStep::Placing => 8,
        LoopStep::RecordingOrderSuccess => 7,
        LoopStep::RecordingOrderFailure => 7,
        LoopStep::CheckingExit => 6,
        LoopStep::LookingUpPosition => 5,
        LoopStep::Closing => 4,
        LoopStep::RecordingTrade => 3,
        LoopStep::RecordingCloseSuccess => 2,
        LoopStep::RecordingCloseFailure => 2,
        LoopStep::RecordingLatency => 1,
        LoopStep::Idle => 0,
        LoopStep::Exporting => 0,
        LoopStep::Stopped => 0,
    }
}

/// The steps a completed candle goes through before its exit check.
pub open spec fn spec_before_exit_check(step: LoopStep) -> bool {
    step == LoopStep::Storing || step == LoopStep::Evaluating || step == LoopStep::Validating
        || step == LoopStep::Placing || step == LoopStep::RecordingOrderSuccess || step
        == LoopStep::RecordingOrderFailure
}

/// The steps of an exit check and what follows it, before the latency is
/// recorded.
pub open spec fn spec_exit_handling(step: LoopStep) -> bool {
    step == LoopStep::CheckingExit || step == LoopStep::LookingUpPosition || step
        == LoopStep::Closing || step == LoopStep::RecordingTrade || step
        == LoopStep::RecordingCloseSuccess || step == LoopStep::RecordingCloseFailure
}

/// Every completed candle reaches the exit check: whatever the signal, the
/// risk answer or the order's outcome, a step before the exit check leads
/// only to another such step or to the exit check itself, never past it.
pub proof fn lemma_every_candle_reaches_exit_check(
    step: LoopStep,
    event: LoopEvent,
    breaker_tripped: bool,
)
    requires
        spec_before_exit_check(step),
    ensures
        spec_before_exit_check(spec_next_action(step, event, breaker_tripped).0) || spec_next_action(
            step,
            event,
            breaker_tripped,
        ).0 == LoopStep::CheckingExit,
{
}

/// A completed candle enters the steps before the exit check, and a trade
/// either completes one or goes straight to the latency record.
pub proof fn lemma_trade_enters_candle_path(event: LoopEvent, breaker_tripped: bool)
    ensures
        spec_next_action(LoopStep::Building, event, breaker_tripped).0 == LoopStep::Building
            || spec_before_exit_check(spec_next_action(LoopStep::Building, event, breaker_tripped).0)
            || spec_next_action(LoopStep::Building, event, breaker_tripped).0
            == LoopStep::RecordingLatency,
{
}

/// Every trade's latency is recorded: from the exit check on, the loop
/// stays in the exit handling until it records the latency.
pub proof fn lemma_exit_handling_ends_in_latency_record(
    step: LoopStep,
    event: LoopEvent,
    breaker_tripped: bool,
)
    requires
        spec_exit_handling(step),
    ensures
        spec_exit_handling(spec_next_action(step, event, breaker_tripped).0) || spec_next_action(
            step,
            event,
            breaker_tripped,
        ).0 == LoopStep::RecordingLatency,
{
}

/// A trade's handling only moves forward: every event either leaves the
/// step as it is (an event the step does not expect) or brings the loop
/// strictly closer to the end of the trade; once the latency is recorded
/// the loop waits again or stops.
pub proof fn lemma_trade_handling_moves_forward(
    step: LoopStep,
    event: LoopEvent,
    breaker_tripped: bool,
)
    requires
        spec_distance_to_end(step) > 0,
    ensures
        spec_next_action(step, event, breaker_tripped).0 == step || spec_distance_to_end(
            spec_next_action(step, event, breaker_tripped).0,
        ) < spec_distance_to_end(step),
        step == LoopStep::RecordingLatency && event == LoopEvent::Done ==> (spec_next_action(
            step,
            event,
            breaker_tripped,
        ).0 == LoopStep::Idle || spec_next_action(step, event, breaker_tripped).0
            == LoopStep::Stopped),
{
}

/// No step of a trade's handling waits forever on the outcome of its own
/// work: each moves on once its work reports back, successfully or not.
pub proof fn lemma_each_outcome_moves_on(breaker_tripped: bool)
    ensures
        spec_next_step(LoopStep::Building, LoopEvent::CandleCompleted, breaker_tripped)
            != LoopStep::Building,
        spec_next_step(LoopStep::Building, LoopEvent::NoCandle, breaker_tripped)
            != LoopStep::Building,
        spec_next_step(LoopStep::Storing, LoopEvent::Done, breaker_tripped) != LoopStep::Storing,
        spec_next_step(LoopStep::Evaluating, LoopEvent::NoSignal, breaker_tripped)
            != LoopStep::Evaluating,
        spec_next_step(LoopStep::Evaluating, LoopEvent::SignalReady { valid: true }, breaker_tripped)
            != LoopStep::Evaluating,
        spec_next_step(LoopStep::Evaluating, LoopEvent::SignalReady { valid: false }, breaker_tripped)
            != LoopStep::Evaluating,
        spec_next_step(LoopStep::Validating, LoopEvent::RiskAccepted, breaker_tripped)
            != LoopStep::Validating,
        spec_next_step(LoopStep::Validating, LoopEvent::RiskRejected, breaker_tripped)
            != LoopStep::Validating,
        spec_next_step(LoopStep::Placing, LoopEvent::OrderPlaced, breaker_tripped)
            != LoopStep::Placing,
        spec_next_step(LoopStep::Placing, LoopEvent::OrderFailed, breaker_tripped)
            != LoopStep::Placing,
        spec_next_step(LoopStep::RecordingOrderSuccess, LoopEvent::Done, breaker_tripped)
            != LoopStep::RecordingOrderSuccess,
        spec_next_step(LoopStep::RecordingOrderFailure, LoopEvent::Done, breaker_tripped)
            != LoopStep::RecordingOrderFailure,
        spec_next_step(LoopStep::CheckingExit, LoopEvent::ExitDue, breaker_tripped)
            != LoopStep::CheckingExit,
        spec_next_step(LoopStep::CheckingExit, LoopEvent::NoExit, breaker_tripped)
            != LoopStep::CheckingExit,
        spec_next_step(LoopStep::LookingUpPosition, LoopEvent::PositionFound, breaker_tripped)
            != LoopStep::LookingUpPosition,
        spec_next_step(LoopStep::LookingUpPosition, LoopEvent::NoPosition, breaker_tripped)
            != LoopStep::LookingUpPosition,
        spec_next_step(LoopStep::Closing, LoopEvent::PositionClosed, breaker_tripped)
            != LoopStep::Closing,
        spec_next_step(LoopStep::Closing, LoopEvent::CloseFailed, breaker_tripped)
            != LoopStep::Closing,
        spec_next_step(LoopStep::RecordingTrade, LoopEvent::Done, breaker_tripped)
            != LoopStep::RecordingTrade,
        spec_next_step(LoopStep::RecordingCloseSuccess, LoopEvent::Done, breaker_tripped)
            != LoopStep::RecordingCloseSuccess,
        spec_next_step(LoopStep::RecordingCloseFailure, LoopEvent::Done, breaker_tripped)
            != LoopStep::RecordingCloseFailure,
        spec_next_step(LoopStep::RecordingLatency, LoopEvent::Done, breaker_tripped)
            != LoopStep::RecordingLatency,
{
}

/// Risk is checked only for a valid signal: the loop enters the risk check
/// only from the evaluation of a candle whose signal is valid.
pub proof fn lemma_risk_checked_only_for_valid_signal(
    step: LoopStep,
    event: LoopEvent,
    breaker_tripped: bool,
)
    requires
        step != LoopStep::Validating,
    ensures
        spec_next_action(step, event, breaker_tripped).1 == LoopAction::ValidateRisk <==> (step
            == LoopStep::Evaluating && event == (LoopEvent::SignalReady { valid: true })),
{
}

/// An order is placed only after the risk rules accepted its signal.
pub proof fn lemma_order_placed_only_after_risk_passes(
    step: LoopStep,
    event: LoopEvent,
    breaker_tripped: bool,
)
    requires
        step != LoopStep::Placing,
    ensures
        spec_next_action(step, event, breaker_tripped).1 == LoopAction::PlaceOrder <==> (step
            == LoopStep::Validating && event == LoopEvent::RiskAccepted),
{
}

/// The outcome of every order and every close is recorded with the circuit
/// breaker: a placed order or a closed position (once its trade is written)
/// as a success, a failed one as a failure.
pub proof fn lemma_outcomes_are_recorded(breaker_tripped: bool)
    ensures
        spec_next_action(LoopStep::Placing, LoopEvent::OrderPlaced, breaker_tripped).1
            == LoopAction::RecordSuccess,
        spec_next_action(LoopStep::Placing, LoopEvent::OrderFailed, breaker_tripped).1
            == LoopAction::RecordFailure,
        spec_next_action(LoopStep::Closing, LoopEvent::PositionClosed, breaker_tripped).1
            == LoopAction::RecordTrade,
        spec_next_action(LoopStep::RecordingTrade, LoopEvent::Done, breaker_tripped).1
            == LoopAction::RecordSuccess,
        spec_next_action(LoopStep::Closing, LoopEvent::CloseFailed, breaker_tripped).1
            == LoopAction::RecordFailure,
{
}

/// The loop stops exactly on a shutdown or an interrupt while it waits, or
/// at the end of a trade or a candle when the circuit breaker has tripped;
/// once stopped it stays stopped.
pub proof fn lemma_stops_exactly_when_asked_or_tripped(
    step: LoopStep,
    event: LoopEvent,
    breaker_tripped: bool,
)
    ensures
        step != LoopStep::Stopped ==> (spec_next_action(step, event, breaker_tripped).1
            == LoopAction::Stop <==> ((step == LoopStep::Idle && (event == LoopEvent::Shutdown
            || event == LoopEvent::Interrupt)) || ((step == LoopStep::RecordingLatency || step
            == LoopStep::Exporting) && event == LoopEvent::Done && breaker_tripped))),
        step == LoopStep::Stopped ==> spec_next_action(step, event, breaker_tripped) == (
            LoopStep::Stopped,
            LoopAction::Stop,
        ),
{
}

/// Each completed candle is stored once: storing is asked for only when a
/// trade completes a candle, and once it is done the loop moves on to the
/// candle's evaluation.
pub proof fn lemma_completed_candle_stored_once(
    step: LoopStep,
    event: LoopEvent,
    breaker_tripped: bool,
)
    ensures
        step != LoopStep::Storing ==> (spec_next_action(step, event, breaker_tripped).1
            == LoopAction::StoreCandle <==> (step == LoopStep::Building && event
            == LoopEvent::CandleCompleted)),
        spec_next_action(LoopStep::Storing, LoopEvent::Done, breaker_tripped) == (
            LoopStep::Evaluating,
            LoopAction::EvaluateSignal,
        ),
{
}

} // verus!
