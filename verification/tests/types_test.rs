use cvdtrader::types::{
    same_text, ExecutionMode, ExitReason, OrderSide, OrderStatus, PositionSide, SetupType, Side,
    Signal,
};

#[test]
fn test_enum_labels() {
    assert_eq!(Side::Buy.label(), "BUY");
    assert_eq!(Side::Sell.label(), "SELL");
    assert_eq!(OrderSide::Buy.label(), "BUY");
    assert_eq!(OrderSide::Sell.label(), "SELL");
    assert_eq!(PositionSide::Long.label(), "LONG");
    assert_eq!(PositionSide::Short.label(), "SHORT");
    assert_eq!(OrderStatus::Pending.label(), "PENDING");
    assert_eq!(OrderStatus::Filled.label(), "FILLED");
    assert_eq!(OrderStatus::PartiallyFilled.label(), "PARTIALLY_FILLED");
    assert_eq!(OrderStatus::Cancelled.label(), "CANCELLED");
    assert_eq!(OrderStatus::Rejected.label(), "REJECTED");
    assert_eq!(ExecutionMode::DryRun.label(), "DRYRUN");
    assert_eq!(ExecutionMode::TestNet.label(), "TESTNET");
    assert_eq!(ExecutionMode::Live.label(), "LIVE");
    assert_eq!(Signal::Long.label(), "LONG");
    assert_eq!(Signal::Short.label(), "SHORT");
    assert_eq!(Signal::NoSignal.label(), "NONE");
    assert_eq!(SetupType::Exhaustion.label(), "EXHAUSTION");
    assert_eq!(SetupType::Absorption.label(), "ABSORPTION");
    assert_eq!(ExitReason::StopLoss.label(), "STOP_LOSS");
    assert_eq!(ExitReason::TakeProfit.label(), "TAKE_PROFIT");
    assert_eq!(ExitReason::CvdFlip.label(), "CVD_FLIP");
    assert_eq!(ExitReason::Manual.label(), "MANUAL");
}

#[test]
fn test_stored_codes_round_trip() {
    for side in [PositionSide::Long, PositionSide::Short] {
        assert_eq!(PositionSide::from_stored(side.label()), side);
    }
    for setup in [SetupType::Exhaustion, SetupType::Absorption] {
        assert_eq!(SetupType::from_stored(setup.label()), Some(setup));
    }
    for reason in [
        ExitReason::StopLoss,
        ExitReason::TakeProfit,
        ExitReason::CvdFlip,
        ExitReason::Manual,
    ] {
        assert_eq!(ExitReason::from_stored(reason.label()), reason);
    }
}

#[test]
fn test_unknown_stored_codes() {
    assert_eq!(PositionSide::from_stored("SIDEWAYS"), PositionSide::Long);
    assert_eq!(PositionSide::from_stored(""), PositionSide::Long);
    assert_eq!(SetupType::from_stored("BREAKOUT"), None);
    assert_eq!(ExitReason::from_stored("LIQUIDATION"), ExitReason::Manual);
    assert_eq!(ExitReason::from_stored("stop_loss"), ExitReason::Manual);
}

#[test]
fn test_same_text() {
    assert!(same_text("BTC", "BTC"));
    assert!(!same_text("BTC", "ETH"));
    assert!(!same_text("BTC", "BTCX"));
    assert!(same_text("", ""));
}
