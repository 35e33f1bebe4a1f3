use cvdtrader::strategy::{
    cvd_flipped, determine_direction, entry_setup, entry_signal, exit_reason,
    exit_reason_with_history, favorable_sign, trail_position, CandleShape, CvdSign, EntryFacts,
    EntryRejection, StopUpdate, TrailFacts,
};
use cvdtrader::types::{ExitReason, PositionSide, SetupType, Signal};

fn sign(cvd: f64) -> CvdSign {
    let s = cvd.signum();
    if s == 1.0 {
        CvdSign::Positive
    } else if s == -1.0 {
        CvdSign::Negative
    } else {
        CvdSign::Undefined
    }
}

fn short_setup() -> EntryFacts {
    EntryFacts {
        has_position: false,
        has_poc: true,
        history_len: 20,
        is_new_high: true,
        is_new_low: false,
        shape: short_shape(),
        prev_cvd_sign: sign(12.0),
        curr_cvd_sign: sign(-3.0),
        exhaustion_setup: true,
        absorption_setup: false,
    }
}

fn short_shape() -> CandleShape {
    CandleShape {
        close_below_midpoint: true,
        close_above_midpoint: false,
        poc_in_upper_half: true,
        poc_in_lower_half: false,
        close_above_vwap: true,
        close_below_vwap: false,
    }
}

fn long_shape() -> CandleShape {
    CandleShape {
        close_below_midpoint: false,
        close_above_midpoint: true,
        poc_in_upper_half: false,
        poc_in_lower_half: true,
        close_above_vwap: false,
        close_below_vwap: true,
    }
}

#[test]
fn test_cvd_sign_of_zero_and_nan() {
    assert_eq!(sign(0.0), CvdSign::Positive);
    assert_eq!(sign(-0.0), CvdSign::Negative);
    assert_eq!(sign(f64::NAN), CvdSign::Undefined);
}

#[test]
fn test_entry_signal_rules() {
    assert_eq!(
        entry_signal(&short_setup(), 20),
        Ok((Signal::Short, Some(SetupType::Exhaustion)))
    );

    let long = EntryFacts {
        is_new_high: false,
        is_new_low: true,
        shape: long_shape(),
        prev_cvd_sign: CvdSign::Negative,
        curr_cvd_sign: CvdSign::Positive,
        exhaustion_setup: false,
        absorption_setup: true,
        ..short_setup()
    };
    assert_eq!(
        entry_signal(&long, 20),
        Ok((Signal::Long, Some(SetupType::Absorption)))
    );
    let unlabelled = EntryFacts {
        exhaustion_setup: false,
        ..short_setup()
    };
    assert_eq!(entry_signal(&unlabelled, 20), Ok((Signal::Short, None)));

    let with_position = EntryFacts {
        has_position: true,
        has_poc: false,
        ..short_setup()
    };
    assert_eq!(entry_signal(&with_position, 20), Err(EntryRejection::HasPosition));
    let no_poc = EntryFacts {
        has_poc: false,
        ..short_setup()
    };
    assert_eq!(entry_signal(&no_poc, 20), Err(EntryRejection::NoPoc));
    assert_eq!(entry_signal(&short_setup(), 21), Err(EntryRejection::ShortHistory));
    let empty_history = EntryFacts {
        history_len: 0,
        ..short_setup()
    };
    assert_eq!(entry_signal(&empty_history, 0), Err(EntryRejection::ShortHistory));
    let no_swing = EntryFacts {
        is_new_high: false,
        ..short_setup()
    };
    assert_eq!(entry_signal(&no_swing, 20), Err(EntryRejection::NoSwing));
    let closed_high = EntryFacts {
        shape: CandleShape {
            close_below_midpoint: false,
            close_above_midpoint: true,
            ..short_shape()
        },
        ..short_setup()
    };
    assert_eq!(entry_signal(&closed_high, 20), Err(EntryRejection::NoDirection));
    let poc_low_on_high = EntryFacts {
        shape: CandleShape {
            poc_in_upper_half: false,
            poc_in_lower_half: true,
            ..short_shape()
        },
        ..short_setup()
    };
    assert_eq!(entry_signal(&poc_low_on_high, 20), Err(EntryRejection::NoDirection));
    let below_vwap_on_high = EntryFacts {
        shape: CandleShape {
            close_above_vwap: false,
            close_below_vwap: true,
            ..short_shape()
        },
        ..short_setup()
    };
    assert_eq!(entry_signal(&below_vwap_on_high, 20), Err(EntryRejection::NoDirection));
    let no_flip = EntryFacts {
        prev_cvd_sign: CvdSign::Negative,
        ..short_setup()
    };
    assert_eq!(entry_signal(&no_flip, 20), Err(EntryRejection::NoCvdFlip));
    let undefined = EntryFacts {
        curr_cvd_sign: CvdSign::Undefined,
        ..short_setup()
    };
    assert_eq!(entry_signal(&undefined, 20), Err(EntryRejection::NoCvdFlip));
}

#[test]
fn test_direction_and_flip() {
    assert_eq!(determine_direction(&short_shape(), true, false), Some(Signal::Short));
    assert_eq!(determine_direction(&long_shape(), false, true), Some(Signal::Long));
    assert_eq!(determine_direction(&long_shape(), true, false), None);
    assert_eq!(determine_direction(&short_shape(), false, true), None);
    // A long needs its POC in the lower half of the range.
    let poc_high = CandleShape {
        poc_in_upper_half: true,
        poc_in_lower_half: false,
        ..long_shape()
    };
    assert_eq!(determine_direction(&poc_high, false, true), None);
    // A long needs a close below the VWAP; with no VWAP known there is none.
    let no_vwap = CandleShape {
        close_above_vwap: false,
        close_below_vwap: false,
        ..long_shape()
    };
    assert_eq!(determine_direction(&no_vwap, false, true), None);
    assert_eq!(entry_setup(true, true), Some(SetupType::Exhaustion));
    assert_eq!(entry_setup(false, true), Some(SetupType::Absorption));
    assert_eq!(entry_setup(false, false), None);
    assert!(cvd_flipped(Signal::Short, CvdSign::Positive, CvdSign::Negative));
    assert!(cvd_flipped(Signal::Long, CvdSign::Negative, CvdSign::Positive));
    assert!(!cvd_flipped(Signal::Long, CvdSign::Positive, CvdSign::Positive));
    assert!(!cvd_flipped(Signal::NoSignal, CvdSign::Positive, CvdSign::Negative));
}

#[test]
fn test_exit_rules() {
    assert_eq!(exit_reason(true, true, 5), Some(ExitReason::StopLoss));
    assert_eq!(exit_reason(false, true, 5), Some(ExitReason::TakeProfit));
    assert_eq!(exit_reason(false, false, 2), Some(ExitReason::CvdFlip));
    assert_eq!(exit_reason(false, false, 1), None);
    assert_eq!(exit_reason_with_history(false, false, 2, false), None);
    assert_eq!(exit_reason_with_history(false, false, 2, true), Some(ExitReason::CvdFlip));
    assert_eq!(exit_reason_with_history(true, false, 0, false), Some(ExitReason::StopLoss));
}

fn candle(curr: f64, prev: f64, prev_poc: bool, curr_poc: bool) -> TrailFacts {
    TrailFacts {
        candles: 2,
        curr_cvd_sign: sign(curr),
        weakening: curr.abs() < prev.abs(),
        prev_has_poc: prev_poc,
        curr_has_poc: curr_poc,
    }
}

#[test]
fn test_two_hostile_candles_close_position() {
    assert_eq!(favorable_sign(PositionSide::Long), CvdSign::Positive);
    assert_eq!(favorable_sign(PositionSide::Short), CvdSign::Negative);

    let first = trail_position(PositionSide::Long, 0, &candle(-5.0, 10.0, true, true));
    assert_eq!(first.stop_update, StopUpdate::ToCurrentPoc);
    assert_eq!(first.flip_streak, 1);
    assert!(first.store);
    assert_eq!(first.exit, None);

    let second = trail_position(PositionSide::Long, first.flip_streak, &candle(-7.0, -5.0, true, false));
    assert_eq!(second.stop_update, StopUpdate::Keep);
    assert_eq!(second.flip_streak, 2);
    assert_eq!(second.exit, Some(ExitReason::CvdFlip));
}

#[test]
fn test_trailing_rules() {
    // Favourable but weakening: trail to the previous POC and clear the
    // hostile count.
    let d = trail_position(PositionSide::Short, 1, &candle(-3.0, -8.0, true, true));
    assert_eq!(d.stop_update, StopUpdate::ToPreviousPoc);
    assert_eq!(d.flip_streak, 0);
    assert!(d.store);
    // ... without a previous POC the stop stays, the count is still cleared.
    let d = trail_position(PositionSide::Short, 1, &candle(-3.0, -8.0, false, true));
    assert_eq!(d.stop_update, StopUpdate::Keep);
    assert_eq!(d.flip_streak, 0);
    assert!(d.store);
    let d = trail_position(PositionSide::Short, 0, &candle(-3.0, -8.0, false, true));
    assert_eq!(d.stop_update, StopUpdate::Keep);
    assert!(!d.store);
    // One hostile candle after a weakening favourable one does not close.
    let next = trail_position(PositionSide::Short, d.flip_streak, &candle(4.0, -3.0, true, true));
    assert_eq!(next.flip_streak, 1);
    assert_eq!(next.exit, None);
    // Favourable and strengthening: the hostile count is cleared.
    let d = trail_position(PositionSide::Short, 1, &candle(-9.0, -8.0, true, true));
    assert_eq!(d.flip_streak, 0);
    assert!(d.store);
    assert_eq!(d.exit, None);
    let d = trail_position(PositionSide::Short, 0, &candle(-9.0, -8.0, true, true));
    assert!(!d.store);
    // A CVD that is not a number counts as hostile.
    let d = trail_position(PositionSide::Long, 0, &candle(f64::NAN, 1.0, true, true));
    assert_eq!(d.flip_streak, 1);
    // Fewer than two candles: no decision.
    let d = trail_position(
        PositionSide::Long,
        1,
        &TrailFacts {
            candles: 1,
            ..candle(-5.0, 1.0, true, true)
        },
    );
    assert_eq!(d.flip_streak, 1);
    assert!(!d.store);
    assert_eq!(d.exit, None);
}
