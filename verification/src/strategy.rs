//! Decisions of the CVDPoC strategy: when a finished candle gives an entry
//! signal and in which direction, when an open position is to be closed, and
//! how the CVD of each new candle trails a position's stop.
//!
//! Prices, volumes and CVD are fractional numbers that the caller compares;
//! the decisions below take the outcomes of those comparisons.

use vstd::prelude::*;
use crate::types::{ExitReason, PositionSide, SetupType, Signal};

verus! {

/// Sign of a candle's CVD as `f64::signum` reports it: `Positive` for 1.0
/// (which includes a CVD of +0.0), `Negative` for -1.0 (which includes
/// -0.0), and `Undefined` when the CVD is not a number.
#[derive(Debug, Clone, Copy, PartialEq, Eq, Structural)]
pub enum CvdSign {
    Positive,
    Negative,
    Undefined,
}

/// Where a finished candle closed, and where its point of control lies,
/// compared with its own range and with the day's VWAP.
#[derive(Debug, Clone, Copy)]
pub struct CandleShape {
    /// The candle closed below its midpoint.
    pub close_below_midpoint: bool,
    /// The candle closed above its midpoint.
    pub close_above_midpoint: bool,
    /// The point of control lies in the upper half of the candle's range.
    pub poc_in_upper_half: bool,
    /// The point of control lies in the lower half of the candle's range.
    pub poc_in_lower_half: bool,
    /// The candle closed above the day's VWAP (false when no VWAP is known).
    pub close_above_vwap: bool,
    /// The candle closed below the day's VWAP (false when no VWAP is known).
    pub close_below_vwap: bool,
}

/// What the entry rules look at on a finished candle.
#[derive(Debug, Clone, Copy)]
pub struct EntryFacts {
    /// A position is already open for the symbol.
    pub has_position: bool,
    /// The candle has a point of control.
    pub has_poc: bool,
    /// Number of earlier candles available.
    pub history_len: usize,
    /// The candle's high is above every high of the last `lookback` candles.
    pub is_new_high: bool,
    /// The candle's low is below every low of the last `lookback` candles.
    pub is_new_low: bool,
    /// Close, POC and VWAP positions of the candle.
    pub shape: CandleShape,
    /// CVD sign of the previous candle.
    pub prev_cvd_sign: CvdSign,
    /// CVD sign of this candle.
    pub curr_cvd_sign: CvdSign,
    /// The CVD's size fell below the exhaustion share of the previous
    /// candle's.
    pub exhaustion_setup: bool,
    /// The range shrank against the previous candle while the CVD is in the
    /// top percentile of its history.
    pub absorption_setup: bool,
}

/// Why a candle gives no entry signal.
#[derive(Debug, Clone, Copy, PartialEq, Eq, Structural)]
pub enum EntryRejection {
    /// A position is already open for the symbol.
    HasPosition,
    /// The candle has no point of control.
    NoPoc,
    /// Fewer earlier candles than the lookback, or none at all.
    ShortHistory,
    /// The candle sets neither a new swing high nor a new swing low.
    NoSwing,
    /// The close does not confirm the swing's reversal.
    NoDirection,
    /// The CVD did not flip against the swing.
    NoCvdFlip,
}

/// Direction of a reversal: short on a new high that closed below its
/// midpoint and above the VWAP with its POC in the upper half; else long on a
/// new low that closed above its midpoint and below the VWAP with its POC in
/// the lower half.
pub open spec fn spec_direction(shape: CandleShape, is_new_high: bool, is_new_low: bool) -> Option<
    Signal,
> {
    if is_new_high && shape.close_below_midpoint && shape.poc_in_upper_half
        && shape.close_above_vwap {
        Some(Signal::Short)
    } else if is_new_low && shape.close_above_midpoint && shape.poc_in_lower_half
        && shape.close_below_vwap {
        Some(Signal::Long)
    } else {
        None
    }
}

/// Trade direction of a candle that set a new swing.
pub fn determine_direction(shape: &CandleShape, is_new_high: bool, is_new_low: bool) -> (s: Option<
    Signal,
>)
    ensures
        s == spec_direction(*shape, is_new_high, is_new_low),
{
    if is_new_high && shape.close_below_midpoint && shape.poc_in_upper_half
        && shape.close_above_vwap {
        return Some(Signal::Short);
    }
    if is_new_low && shape.close_above_midpoint && shape.poc_in_lower_half
        && shape.close_below_vwap {
        return Some(Signal::Long);
    }
    None
}

/// The setup a signal is labelled with: exhaustion when the CVD's conviction
/// dropped, else absorption when the range shrank on an extreme CVD, else
/// none.
pub open spec fn spec_entry_setup(exhaustion_setup: bool, absorption_setup: bool) -> Option<
    SetupType,
> {
    if exhaustion_setup {
        Some(SetupType::Exhaustion)
    } else if absorption_setup {
        Some(SetupType::Absorption)
    } else {
        None
    }
}

/// The setup a signal is labelled with.
pub fn entry_setup(exhaustion_setup: bool, absorption_setup: bool) -> (t: Option<SetupType>)
    ensures
        t == spec_entry_setup(exhaustion_setup, absorption_setup),
{
    if exhaustion_setup {
        Some(SetupType::Exhaustion)
    } else if absorption_setup {
        Some(SetupType::Absorption)
    } else {
        None
    }
}

/// Whether the CVD flipped in the signal's favour: from positive to negative
/// for a short, from negative to positive for a long.
pub open spec fn spec_cvd_flipped(signal: Signal, prev: CvdSign, curr: CvdSign) -> bool {
    match signal {
        Signal::Short => prev == CvdSign::Positive && curr == CvdSign::Negative,
        Signal::Long => prev == CvdSign::Negative && curr == CvdSign::Positive,
        Signal::NoSignal => false,
    }
}

/// Whether the CVD flipped in the signal's favour.
pub fn cvd_flipped(signal: Signal, prev: CvdSign, curr: CvdSign) -> (b: bool)
    ensures
        b == spec_cvd_flipped(signal, prev, curr),
{
    match signal {
        Signal::Short => prev == CvdSign::Positive && curr == CvdSign::Negative,
        Signal::Long => prev == CvdSign::Negative && curr == CvdSign::Positive,
        Signal::NoSignal => false,
    }
}

/// The entry rules in the order they are applied; a signal comes with the
/// setup it is labelled with.
pub open spec fn spec_entry_signal(facts: EntryFacts, lookback: usize) -> Result<
    (Signal, Option<SetupType>),
    EntryRejection,
> {
    if facts.has_position {
        Err(EntryRejection::HasPosition)
    } else if !facts.has_poc {
        Err(EntryRejection::NoPoc)
    } else if facts.history_len < lookback || facts.history_len == 0 {
        Err(EntryRejection::ShortHistory)
    } else if !facts.is_new_high && !facts.is_new_low {
        Err(EntryRejection::NoSwing)
    } else {
        match spec_direction(facts.shape, facts.is_new_high, facts.is_new_low) {
            None => Err(EntryRejection::NoDirection),
            Some(signal) => if spec_cvd_flipped(signal, facts.prev_cvd_sign, facts.curr_cvd_sign) {
                Ok((signal, spec_entry_setup(facts.exhaustion_setup, facts.absorption_setup)))
            } else {
                Err(EntryRejection::NoCvdFlip)
            },
        }
    }
}

/// Decides whether a finished candle gives an entry signal, in which
/// direction and with which setup; the order's prices and size are then set
/// from the candle.
pub fn entry_signal(facts: &EntryFacts, lookback: usize) -> (r: Result<
    (Signal, Option<SetupType>),
    EntryRejection,
>)
    ensures
        r == spec_entry_signal(*facts, lookback),
        r matches Ok((s, _)) ==> s != Signal::NoSignal,
        (r == Err::<(Signal, Option<SetupType>), EntryRejection>(EntryRejection::ShortHistory))
            <==> (!facts.has_position && facts.has_poc && (facts.history_len < lookback
            || facts.history_len == 0)),
{
    if facts.has_position {
        return Err(EntryRejection::HasPosition);
    }
    if !facts.has_poc {
        return Err(EntryRejection::NoPoc);
    }
    if facts.history_len < lookback || facts.history_len == 0 {
        return Err(EntryRejection::ShortHistory);
    }
    if !facts.is_new_high && !facts.is_new_low {
        return Err(EntryRejection::NoSwing);
    }
    let signal = match determine_direction(&facts.shape, facts.is_new_high, facts.is_new_low) {
        Some(s) => s,
        None => {
            return Err(EntryRejection::NoDirection);
        },
    };
    if !cvd_flipped(signal, facts.prev_cvd_sign, facts.curr_cvd_sign) {
        return Err(EntryRejection::NoCvdFlip);
    }
    Ok((signal, entry_setup(facts.exhaustion_setup, facts.absorption_setup)))
}

/// Exit rules on a position at the current price: stop loss first, then
/// take profit, then two or more consecutive hostile CVD candles.
pub open spec fn spec_exit_reason(sl_hit: bool, tp_hit: bool, flip_streak: u32) -> Option<
    ExitReason,
> {
    if sl_hit {
        Some(ExitReason::StopLoss)
    } else if tp_hit {
        Some(ExitReason::TakeProfit)
    } else if flip_streak >= 2 {
        Some(ExitReason::CvdFlip)
    } else {
        None
    }
}

/// Why a position is to be closed, if it is.
pub fn exit_reason(sl_hit: bool, tp_hit: bool, flip_streak: u32) -> (r: Option<ExitReason>)
    ensures
        r == spec_exit_reason(sl_hit, tp_hit, flip_streak),
        sl_hit ==> r == Some(ExitReason::StopLoss),
        !sl_hit && tp_hit ==> r == Some(ExitReason::TakeProfit),
        !sl_hit && !tp_hit ==> (r == (if flip_streak >= 2 {
            Some(ExitReason::CvdFlip)
        } else {
            None
        })),
{
    if sl_hit {
        return Some(ExitReason::StopLoss);
    }
    if tp_hit {
        return Some(ExitReason::TakeProfit);
    }
    if flip_streak >= 2 {
        return Some(ExitReason::CvdFlip);
    }
    None
}

/// Exit rules as the strategy applies them to a stored position: the CVD
/// flip rule only counts once the symbol has a stored candle.
pub fn exit_reason_with_history(sl_hit: bool, tp_hit: bool, flip_streak: u32, has_candle: bool) -> (r:
    Option<ExitReason>)
    ensures
        r == (if sl_hit || tp_hit || has_candle {
            spec_exit_reason(sl_hit, tp_hit, flip_streak)
        } else {
            None
        }),
{
    if sl_hit || tp_hit || has_candle {
        exit_reason(sl_hit, tp_hit, flip_streak)
    } else {
        None
    }
}

/// The CVD sign that favours a position: positive for a long, negative for
/// a short.
pub open spec fn spec_favorable_sign(side: PositionSide) -> CvdSign {
    match side {
        PositionSide::Long => CvdSign::Positive,
        PositionSide::Short => CvdSign::Negative,
    }
}

/// The CVD sign that favours a position.
pub fn favorable_sign(side: PositionSide) -> (s: CvdSign)
    ensures
        s == spec_favorable_sign(side),
{
    match side {
        PositionSide::Long => CvdSign::Positive,
        PositionSide::Short => CvdSign::Negative,
    }
}

/// What the trailing rules look at when a new candle finishes while a
/// position is open.
#[derive(Debug, Clone, Copy)]
pub struct TrailFacts {
    /// Number of stored candles of the symbol, the new one included.
    pub candles: usize,
    /// CVD sign of the new candle.
    pub curr_cvd_sign: CvdSign,
    /// The new candle's CVD is smaller in size than the previous one's.
    pub weakening: bool,
    /// The previous candle has a point of control.
    pub prev_has_poc: bool,
    /// The new candle has a point of control.
    pub curr_has_poc: bool,
}

/// Where the stop loss is moved to (it then moves only if that is in the
/// position's favour).
#[derive(Debug, Clone, Copy, PartialEq, Eq, Structural)]
pub enum StopUpdate {
    Keep,
    ToPreviousPoc,
    ToCurrentPoc,
}

/// What the trailing rules decide for an open position.
#[derive(Debug, Clone, Copy, PartialEq, Eq, Structural)]
pub struct TrailDecision {
    /// How the stop loss moves.
    pub stop_update: StopUpdate,
    /// The position's count of consecutive hostile CVD candles afterwards.
    pub flip_streak: u32,
    /// Whether the updated position is stored back.
    pub store: bool,
    /// Whether the position is to be closed, and why.
    pub exit: Option<ExitReason>,
}

/// The trailing rules:
/// 1. a favourable but weakening CVD moves the stop to the previous
///    candle's POC (when it has one);
/// 2. a hostile CVD moves the stop to this candle's POC (when it has one)
///    and counts one more hostile candle; the second one in a row closes
///    the position;
/// 3. a favourable CVD, weakening or not, clears the count of hostile
///    candles.
/// The position is stored back whenever its stop or its count changes.
pub open spec fn spec_trail(side: PositionSide, flip_streak: u32, facts: TrailFacts) -> TrailDecision {
    let fav = spec_favorable_sign(side);
    let keep = TrailDecision {
        stop_update: StopUpdate::Keep,
        flip_streak,
        store: false,
        exit: None,
    };
    if facts.candles < 2 {
        keep
    } else if facts.curr_cvd_sign == fav && facts.weakening {
        TrailDecision {
            stop_update: if facts.prev_has_poc {
                StopUpdate::ToPreviousPoc
            } else {
                StopUpdate::Keep
            },
            flip_streak: 0,
            store: facts.prev_has_poc || flip_streak > 0,
            exit: None,
        }
    } else if facts.curr_cvd_sign != fav {
        let streak = (flip_streak + 1) as u32;
        TrailDecision {
            stop_update: if facts.curr_has_poc {
                StopUpdate::ToCurrentPoc
            } else {
                StopUpdate::Keep
            },
            flip_streak: streak,
            store: true,
            exit: if streak >= 2 {
                Some(ExitReason::CvdFlip)
            } else {
                None
            },
        }
    } else if flip_streak > 0 {
        TrailDecision { flip_streak: 0, store: true, ..keep }
    } else {
        keep
    }
}

/// Whether a candle is hostile to a position: its CVD sign is not the
/// favourable one, and at least two candles are stored.
pub open spec fn spec_hostile(side: PositionSide, facts: TrailFacts) -> bool {
    facts.candles >= 2 && facts.curr_cvd_sign != spec_favorable_sign(side)
}

/// Applies the trailing rules to an open position with `flip_streak`
/// hostile candles counted so far.
pub fn trail_position(side: PositionSide, flip_streak: u32, facts: &TrailFacts) -> (d:
    TrailDecision)
    requires
        spec_hostile(side, *facts) ==> flip_streak < u32::MAX,
    ensures
        d == spec_trail(side, flip_streak, *facts),
        facts.candles >= 2 && ((side == PositionSide::Long && facts.curr_cvd_sign
            != CvdSign::Positive) || (side == PositionSide::Short && facts.curr_cvd_sign
            != CvdSign::Negative)) ==> d.stop_update == (if facts.curr_has_poc {
            StopUpdate::ToCurrentPoc
        } else {
            StopUpdate::Keep
        }) && d.flip_streak == flip_streak + 1 && d.store,
{
    let keep = TrailDecision {
        stop_update: StopUpdate::Keep,
        flip_streak,
        store: false,
        exit: None,
    };
    if facts.candles < 2 {
        return keep;
    }
    let fav = favorable_sign(side);
    if facts.curr_cvd_sign == fav && facts.weakening {
        let stop_update = if facts.prev_has_poc {
            StopUpdate::ToPreviousPoc
        } else {
            StopUpdate::Keep
        };
        return TrailDecision {
            stop_update,
            flip_streak: 0,
            store: facts.prev_has_poc || flip_streak > 0,
            exit: None,
        };
    }
    if facts.curr_cvd_sign != fav {
        let streak = flip_streak + 1;
        let stop_update = if facts.curr_has_poc {
            StopUpdate::ToCurrentPoc
        } else {
            StopUpdate::Keep
        };
        let exit = if streak >= 2 {
            Some(ExitReason::CvdFlip)
        } else {
            None
        };
        return TrailDecision { stop_update, flip_streak: streak, store: true, exit };
    }
    if flip_streak > 0 {
        return TrailDecision { flip_streak: 0, store: true, ..keep };
    }
    keep
}

/// Two hostile CVD candles in a row close the position, whatever the count
/// before them.
pub proof fn lemma_two_hostile_candles_close(
    side: PositionSide,
    flip_streak: u32,
    first: TrailFacts,
    second: TrailFacts,
)
    requires
        flip_streak < u32::MAX - 1,
        spec_hostile(side, first),
        spec_hostile(side, second),
    ensures
        spec_trail(side, spec_trail(side, flip_streak, first).flip_streak, second).exit == Some(
            ExitReason::CvdFlip,
        ),
{
}

/// The trailing rules close a position only for a CVD flip, only on a
/// hostile candle, and only once two or more hostile candles are counted.
pub proof fn lemma_trail_exits_only_on_flips(side: PositionSide, flip_streak: u32, facts: TrailFacts)
    requires
        spec_hostile(side, facts) ==> flip_streak < u32::MAX,
    ensures
        spec_trail(side, flip_streak, facts).exit is Some ==> (spec_trail(
            side,
            flip_streak,
            facts,
        ).exit == Some(ExitReason::CvdFlip) && spec_hostile(side, facts) && spec_trail(
            side,
            flip_streak,
            facts,
        ).flip_streak >= 2),
{
}

/// A favourable CVD clears the count of hostile candles and never closes the
/// position; it moves the stop only when it is weakening.
pub proof fn lemma_favorable_candle_clears_streak(
    side: PositionSide,
    flip_streak: u32,
    facts: TrailFacts,
)
    requires
        facts.candles >= 2,
        facts.curr_cvd_sign == spec_favorable_sign(side),
    ensures
        spec_trail(side, flip_streak, facts).flip_streak == 0,
        spec_trail(side, flip_streak, facts).exit is None,
        !facts.weakening ==> spec_trail(side, flip_streak, facts).stop_update == StopUpdate::Keep,
        flip_streak > 0 ==> spec_trail(side, flip_streak, facts).store,
{
}

/// After a favourable candle, one hostile candle alone does not close the
/// position: the count starts again from zero.
pub proof fn lemma_one_hostile_after_favorable_keeps_position(
    side: PositionSide,
    flip_streak: u32,
    favorable: TrailFacts,
    hostile: TrailFacts,
)
    requires
        favorable.candles >= 2,
        favorable.curr_cvd_sign == spec_favorable_sign(side),
        spec_hostile(side, hostile),
    ensures
        spec_trail(side, spec_trail(side, flip_streak, favorable).flip_streak, hostile).exit is None,
{
}

/// Enough history never hurts: once a candle has at least `lookback`
/// earlier candles (and at least one), more history gives the same answer.
pub proof fn lemma_more_history_same_answer(facts: EntryFacts, lookback: usize, more: usize)
    requires
        facts.history_len >= lookback,
        facts.history_len > 0,
        more >= facts.history_len,
    ensures
        spec_entry_signal(EntryFacts { history_len: more, ..facts }, lookback) == spec_entry_signal(
            facts,
            lookback,
        ),
{
}

/// A candle is turned away for short history exactly when it has fewer
/// earlier candles than the lookback, or none at all, and no earlier rule
/// (an open position, a missing POC) turned it away first.
pub proof fn lemma_short_history_exactly_when_short(facts: EntryFacts, lookback: usize)
    ensures
        (spec_entry_signal(facts, lookback) == Err::<(Signal, Option<SetupType>), EntryRejection>(
            EntryRejection::ShortHistory)) <==> (!facts.has_position && facts.has_poc && (
        facts.history_len < lookback || facts.history_len == 0)),
{
}

/// On a candle that is hostile to the position (at least two candles
/// stored and a CVD sign other than positive for a long, negative for a
/// short), whatever the side: the stop moves to this candle's POC exactly
/// when it has one, one more hostile candle is counted, the position is
/// stored, and it is closed exactly when two or more are counted.
pub proof fn lemma_hostile_candle_tightens_stop(
    side: PositionSide,
    flip_streak: u32,
    facts: TrailFacts,
)
    requires
        facts.candles >= 2,
        (side == PositionSide::Long && facts.curr_cvd_sign != CvdSign::Positive) || (side
            == PositionSide::Short && facts.curr_cvd_sign != CvdSign::Negative),
        flip_streak < u32::MAX,
    ensures
        spec_trail(side, flip_streak, facts).stop_update == (if facts.curr_has_poc {
            StopUpdate::ToCurrentPoc
        } else {
            StopUpdate::Keep
        }),
        spec_trail(side, flip_streak, facts).flip_streak == flip_streak + 1,
        spec_trail(side, flip_streak, facts).store,
        (spec_trail(side, flip_streak, facts).exit == Some(ExitReason::CvdFlip)) <==> flip_streak
            >= 1,
        (spec_trail(side, flip_streak, facts).exit is None) <==> flip_streak == 0,
{
}

/// With fewer than two candles stored the trailing rules change nothing.
pub proof fn lemma_single_candle_changes_nothing(
    side: PositionSide,
    flip_streak: u32,
    facts: TrailFacts,
)
    requires
        facts.candles < 2,
    ensures
        spec_trail(side, flip_streak, facts) == (TrailDecision {
            stop_update: StopUpdate::Keep,
            flip_streak,
            store: false,
            exit: None,
        }),
{
}

/// Exit priority at the current price: a hit stop loss always closes for
/// the stop loss; otherwise a hit take profit always closes for the take
/// profit, whatever the hostile count; otherwise the position closes for a
/// CVD flip exactly when two or more hostile candles are counted.
pub proof fn lemma_exit_priority(sl_hit: bool, tp_hit: bool, flip_streak: u32)
    ensures
        sl_hit ==> spec_exit_reason(sl_hit, tp_hit, flip_streak) == Some(ExitReason::StopLoss),
        !sl_hit && tp_hit ==> spec_exit_reason(sl_hit, tp_hit, flip_streak) == Some(
            ExitReason::TakeProfit,
        ),
        !sl_hit && !tp_hit && flip_streak >= 2 ==> spec_exit_reason(sl_hit, tp_hit, flip_streak)
            == Some(ExitReason::CvdFlip),
        !sl_hit && !tp_hit && flip_streak < 2 ==> spec_exit_reason(sl_hit, tp_hit, flip_streak)
            is None,
{
}

/// Whether the position is closed never depends on the hostile count once
/// the stop loss or the take profit is hit, and a larger count never keeps
/// open a position that a smaller one closes.
pub proof fn lemma_exit_monotone_in_streak(sl_hit: bool, tp_hit: bool, low: u32, high: u32)
    requires
        low <= high,
    ensures
        spec_exit_reason(sl_hit, tp_hit, low) is Some ==> spec_exit_reason(sl_hit, tp_hit, high)
            is Some,
        sl_hit || tp_hit ==> spec_exit_reason(sl_hit, tp_hit, low) == spec_exit_reason(
            sl_hit,
            tp_hit,
            high,
        ),
{
}

/// The entry rules are applied in order: an open position turns the
/// candle away first, then a missing POC; a candle that passes every rule
/// gives its signal. A new high that closed below its midpoint and above the
/// VWAP with its POC in the upper half, after the CVD turned from positive to
/// negative, gives a short; the mirror image gives a long.
pub proof fn lemma_entry_rules_in_order(facts: EntryFacts, lookback: usize)
    ensures
        facts.has_position ==> spec_entry_signal(facts, lookback) == Err::<
            (Signal, Option<SetupType>),
            EntryRejection,
        >(EntryRejection::HasPosition),
        !facts.has_position && !facts.has_poc ==> spec_entry_signal(facts, lookback) == Err::<
            (Signal, Option<SetupType>),
            EntryRejection,
        >(EntryRejection::NoPoc),
        (!facts.has_position && facts.has_poc && facts.history_len >= lookback && facts.history_len
            > 0 && facts.is_new_high && facts.shape.close_below_midpoint
            && facts.shape.poc_in_upper_half && facts.shape.close_above_vwap && facts.prev_cvd_sign
            == CvdSign::Positive && facts.curr_cvd_sign == CvdSign::Negative) ==> spec_entry_signal(
            facts,
            lookback,
        ) matches Ok((Signal::Short, _)),
        (!facts.has_position && facts.has_poc && facts.history_len >= lookback && facts.history_len
            > 0 && facts.is_new_low && !(facts.is_new_high && facts.shape.close_below_midpoint
            && facts.shape.poc_in_upper_half && facts.shape.close_above_vwap)
            && facts.shape.close_above_midpoint && facts.shape.poc_in_lower_half
            && facts.shape.close_below_vwap && facts.prev_cvd_sign == CvdSign::Negative
            && facts.curr_cvd_sign == CvdSign::Positive) ==> spec_entry_signal(facts, lookback) matches Ok(
            (Signal::Long, _),
        ),
        spec_entry_signal(facts, lookback) matches Ok((_, setup)) ==> (setup == (if facts.exhaustion_setup {
            Some(SetupType::Exhaustion)
        } else if facts.absorption_setup {
            Some(SetupType::Absorption)
        } else {
            None
        })),
{
}

/// A favourable candle that weakens moves the stop to the previous
/// candle's POC exactly when that candle has one, and the position is
/// stored exactly when its stop or its hostile count changes.
pub proof fn lemma_weakening_candle_trails_previous_poc(
    side: PositionSide,
    flip_streak: u32,
    facts: TrailFacts,
)
    requires
        facts.candles >= 2,
        (side == PositionSide::Long && facts.curr_cvd_sign == CvdSign::Positive) || (side
            == PositionSide::Short && facts.curr_cvd_sign == CvdSign::Negative),
    ensures
        facts.weakening ==> spec_trail(side, flip_streak, facts).stop_update == (if facts.prev_has_poc {
            StopUpdate::ToPreviousPoc
        } else {
            StopUpdate::Keep
        }),
        !facts.weakening ==> spec_trail(side, flip_streak, facts).stop_update == StopUpdate::Keep,
        spec_trail(side, flip_streak, facts).flip_streak == 0,
        spec_trail(side, flip_streak, facts).exit is None,
        spec_trail(side, flip_streak, facts).store <==> (flip_streak > 0 || (facts.weakening
            && facts.prev_has_poc)),
{
}

/// The CVD flip that confirms a signal goes against the swing: a short
/// needs the CVD to turn from positive to negative, a long from negative to
/// positive; no other pair of signs confirms, and no signal is ever
/// confirmed.
pub proof fn lemma_cvd_flip_confirms(signal: Signal, prev: CvdSign, curr: CvdSign)
    ensures
        spec_cvd_flipped(signal, prev, curr) ==> prev != curr && prev != CvdSign::Undefined
            && curr != CvdSign::Undefined,
        spec_cvd_flipped(Signal::Short, prev, curr) <==> (prev == CvdSign::Positive && curr
            == CvdSign::Negative),
        spec_cvd_flipped(Signal::Long, prev, curr) <==> (prev == CvdSign::Negative && curr
            == CvdSign::Positive),
        !spec_cvd_flipped(Signal::NoSignal, prev, curr),
{
}

/// An entry signal goes against the swing it follows: a short only after a
/// new high that closed below its midpoint and above the VWAP, with its POC
/// in the upper half and the CVD turning negative; a long only after a new
/// low that closed above its midpoint and below the VWAP, with its POC in the
/// lower half and the CVD turning positive. Its setup is exhaustion or
/// absorption only when that setup was found.
pub proof fn lemma_entry_fades_the_swing(facts: EntryFacts, lookback: usize)
    ensures
        spec_entry_signal(facts, lookback) matches Ok((Signal::Short, _)) ==> (facts.is_new_high
            && facts.shape.close_below_midpoint && facts.shape.poc_in_upper_half
            && facts.shape.close_above_vwap && facts.curr_cvd_sign == CvdSign::Negative
            && facts.prev_cvd_sign == CvdSign::Positive && !facts.has_position),
        spec_entry_signal(facts, lookback) matches Ok((Signal::Long, _)) ==> (facts.is_new_low
            && facts.shape.close_above_midpoint && facts.shape.poc_in_lower_half
            && facts.shape.close_below_vwap && facts.curr_cvd_sign == CvdSign::Positive
            && facts.prev_cvd_sign == CvdSign::Negative && !facts.has_position),
        spec_entry_signal(facts, lookback) matches Ok((_, Some(SetupType::Exhaustion)))
            ==> facts.exhaustion_setup,
        spec_entry_signal(facts, lookback) matches Ok((_, Some(SetupType::Absorption)))
            ==> facts.absorption_setup && !facts.exhaustion_setup,
        spec_entry_signal(facts, lookback) matches Ok((_, None)) ==> !facts.exhaustion_setup
            && !facts.absorption_setup,
{
}

} // verus!
