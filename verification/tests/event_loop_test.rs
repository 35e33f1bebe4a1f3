use cvdtrader::event_loop::{next_action, step_action, LoopAction, LoopEvent, LoopStep};

fn run(events: &[(LoopEvent, bool)]) -> Vec<LoopAction> {
    let mut step = LoopStep::Idle;
    let mut actions = Vec::new();
    for (event, tripped) in events {
        let (next, action) = next_action(step, *event, *tripped);
        assert_eq!(action, step_action(next));
        actions.push(action);
        step = next;
    }
    actions
}

#[test]
fn test_trade_with_signal_order_and_exit() {
    let actions = run(&[
        (LoopEvent::TradeReceived, false),
        (LoopEvent::CandleCompleted, false),
        (LoopEvent::Done, false),
        (LoopEvent::SignalReady { valid: true }, false),
        (LoopEvent::RiskAccepted, false),
        (LoopEvent::OrderPlaced, false),
        (LoopEvent::Done, false),
        (LoopEvent::ExitDue, false),
        (LoopEvent::PositionFound, false),
        (LoopEvent::PositionClosed, false),
        (LoopEvent::Done, false),
        (LoopEvent::Done, false),
        (LoopEvent::Done, false),
    ]);
    assert_eq!(
        actions,
        vec![
            LoopAction::ProcessTrade,
            LoopAction::StoreCandle,
            LoopAction::EvaluateSignal,
            LoopAction::ValidateRisk,
            LoopAction::PlaceOrder,
            LoopAction::RecordSuccess,
            LoopAction::CheckExit,
            LoopAction::LookUpPosition,
            LoopAction::ClosePosition,
            LoopAction::RecordTrade,
            LoopAction::RecordSuccess,
            LoopAction::RecordLatency,
            LoopAction::WaitForEvent,
        ]
    );
}

#[test]
fn test_invalid_or_rejected_signal_skips_the_order() {
    let actions = run(&[
        (LoopEvent::TradeReceived, false),
        (LoopEvent::CandleCompleted, false),
        (LoopEvent::Done, false),
        (LoopEvent::SignalReady { valid: false }, false),
    ]);
    assert_eq!(actions.last(), Some(&LoopAction::CheckExit));
    let (_, action) = next_action(LoopStep::Validating, LoopEvent::RiskRejected, false);
    assert_eq!(action, LoopAction::CheckExit);
    let (_, action) = next_action(LoopStep::Evaluating, LoopEvent::NoSignal, false);
    assert_eq!(action, LoopAction::CheckExit);
}

#[test]
fn test_failures_are_recorded() {
    assert_eq!(
        next_action(LoopStep::Placing, LoopEvent::OrderFailed, false),
        (LoopStep::RecordingOrderFailure, LoopAction::RecordFailure)
    );
    assert_eq!(
        next_action(LoopStep::Closing, LoopEvent::CloseFailed, false),
        (LoopStep::RecordingCloseFailure, LoopAction::RecordFailure)
    );
    assert_eq!(
        next_action(LoopStep::RecordingCloseFailure, LoopEvent::Done, false),
        (LoopStep::RecordingLatency, LoopAction::RecordLatency)
    );
}

#[test]
fn test_trade_without_candle_records_latency() {
    let actions = run(&[
        (LoopEvent::TradeReceived, false),
        (LoopEvent::NoCandle, false),
        (LoopEvent::Done, false),
    ]);
    assert_eq!(
        actions,
        vec![LoopAction::ProcessTrade, LoopAction::RecordLatency, LoopAction::WaitForEvent]
    );
}

#[test]
fn test_stops_on_shutdown_interrupt_or_trip() {
    assert_eq!(
        next_action(LoopStep::Idle, LoopEvent::Shutdown, false),
        (LoopStep::Stopped, LoopAction::Stop)
    );
    assert_eq!(
        next_action(LoopStep::Idle, LoopEvent::Interrupt, false),
        (LoopStep::Stopped, LoopAction::Stop)
    );
    assert_eq!(
        next_action(LoopStep::RecordingLatency, LoopEvent::Done, true),
        (LoopStep::Stopped, LoopAction::Stop)
    );
    assert_eq!(
        next_action(LoopStep::Exporting, LoopEvent::Done, true),
        (LoopStep::Stopped, LoopAction::Stop)
    );
    // A trip is acted on only at the end of a trade or a candle.
    assert_eq!(
        next_action(LoopStep::Placing, LoopEvent::OrderFailed, true),
        (LoopStep::RecordingOrderFailure, LoopAction::RecordFailure)
    );
    assert_eq!(
        next_action(LoopStep::Stopped, LoopEvent::TradeReceived, false),
        (LoopStep::Stopped, LoopAction::Stop)
    );
}

#[test]
fn test_candle_channel_exports_and_unexpected_events_wait() {
    assert_eq!(
        run(&[(LoopEvent::CandleReceived, false), (LoopEvent::Done, false)]),
        vec![LoopAction::ExportCandle, LoopAction::WaitForEvent]
    );
    assert_eq!(
        next_action(LoopStep::Validating, LoopEvent::Done, false),
        (LoopStep::Validating, LoopAction::ValidateRisk)
    );
    assert_eq!(
        next_action(LoopStep::Idle, LoopEvent::Done, false),
        (LoopStep::Idle, LoopAction::WaitForEvent)
    );
}
