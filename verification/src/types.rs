//! Enumerations shared by every part of the bot, with their display texts
//! and the text codes under which completed trades are stored.

use vstd::prelude::*;

verus! {

/// Whether two texts hold the same characters.
pub fn same_text(a: &str, b: &str) -> (r: bool)
    ensures
        r == (a@ == b@),
{
    let x = a.to_owned();
    let y = b.to_owned();
    x == y
}

/// Trade side (aggressor).
#[derive(Debug, Clone, Copy, PartialEq, Eq, Structural)]
pub enum Side {
    Buy,
    Sell,
}

impl Side {
    pub open spec fn spec_label(self) -> Seq<char> {
        match self {
            Side::Buy => "BUY"@,
            Side::Sell => "SELL"@,
        }
    }

    /// The side's display text: `BUY` or `SELL`.
    pub fn label(&self) -> (s: &'static str)
        ensures
            s@ == self.spec_label(),
    {
        match self {
            Side::Buy => "BUY",
            Side::Sell => "SELL",
        }
    }
}

/// Order side.
#[derive(Debug, Clone, Copy, PartialEq, Eq, Structural)]
pub enum OrderSide {
    Buy,
    Sell,
}

impl OrderSide {
    pub open spec fn spec_label(self) -> Seq<char> {
        match self {
            OrderSide::Buy => "BUY"@,
            OrderSide::Sell => "SELL"@,
        }
    }

    /// The order side's display text: `BUY` or `SELL`.
    pub fn label(&self) -> (s: &'static str)
        ensures
            s@ == self.spec_label(),
    {
        match self {
            OrderSide::Buy => "BUY",
            OrderSide::Sell => "SELL",
        }
    }
}

/// Position side.
#[derive(Debug, Clone, Copy, PartialEq, Eq, Structural)]
pub enum PositionSide {
    Long,
    Short,
}

impl PositionSide {
    pub open spec fn spec_label(self) -> Seq<char> {
        match self {
            PositionSide::Long => "LONG"@,
            PositionSide::Short => "SHORT"@,
        }
    }

    /// The position side's display text, which is also the code under which
    /// a completed trade's side is stored: `LONG` or `SHORT`.
    pub fn label(&self) -> (s: &'static str)
        ensures
            s@ == self.spec_label(),
    {
        match self {
            PositionSide::Long => "LONG",
            PositionSide::Short => "SHORT",
        }
    }

    /// The side read back from a stored trade: `SHORT` is short, any other
    /// text is read as long.
    pub open spec fn spec_from_stored(text: Seq<char>) -> PositionSide {
        if text == "SHORT"@ {
            PositionSide::Short
        } else {
            PositionSide::Long
        }
    }

    /// Reads a stored side code back (unknown codes read as `Long`).
    pub fn from_stored(text: &str) -> (side: PositionSide)
        ensures
            side == Self::spec_from_stored(text@),
    {
        proof {
            reveal_strlit("LONG");
            reveal_strlit("SHORT");
            assert("LONG"@.len() != "SHORT"@.len());
        }
        if same_text(text, "LONG") {
            PositionSide::Long
        } else if same_text(text, "SHORT") {
            PositionSide::Short
        } else {
            PositionSide::Long
        }
    }
}

/// Order status.
#[derive(Debug, Clone, Copy, PartialEq, Eq, Structural)]
pub enum OrderStatus {
    Pending,
    Filled,
    PartiallyFilled,
    Cancelled,
    Rejected,
}

impl OrderStatus {
    pub open spec fn spec_label(self) -> Seq<char> {
        match self {
            OrderStatus::Pending => "PENDING"@,
            OrderStatus::Filled => "FILLED"@,
            OrderStatus::PartiallyFilled => "PARTIALLY_FILLED"@,
            OrderStatus::Cancelled => "CANCELLED"@,
            OrderStatus::Rejected => "REJECTED"@,
        }
    }

    /// The status's display text, such as `PARTIALLY_FILLED`.
    pub fn label(&self) -> (s: &'static str)
        ensures
            s@ == self.spec_label(),
    {
        match self {
            OrderStatus::Pending => "PENDING",
            OrderStatus::Filled => "FILLED",
            OrderStatus::PartiallyFilled => "PARTIALLY_FILLED",
            OrderStatus::Cancelled => "CANCELLED",
            OrderStatus::Rejected => "REJECTED",
        }
    }
}

/// Execution mode.
#[derive(Debug, Clone, Copy, PartialEq, Eq, Structural)]
pub enum ExecutionMode {
    DryRun,
    TestNet,
    Live,
}

impl ExecutionMode {
    pub open spec fn spec_label(self) -> Seq<char> {
        match self {
            ExecutionMode::DryRun => "DRYRUN"@,
            ExecutionMode::TestNet => "TESTNET"@,
            ExecutionMode::Live => "LIVE"@,
        }
    }

    /// The mode's display text: `DRYRUN`, `TESTNET` or `LIVE`.
    pub fn label(&self) -> (s: &'static str)
        ensures
            s@ == self.spec_label(),
    {
        match self {
            ExecutionMode::DryRun => "DRYRUN",
            ExecutionMode::TestNet => "TESTNET",
            ExecutionMode::Live => "LIVE",
        }
    }
}

/// Signal direction.
#[derive(Debug, Clone, Copy, PartialEq, Eq, Structural)]
pub enum Signal {
    Long,
    Short,
    /// No trade (displayed as `NONE`).
    NoSignal,
}

impl Signal {
    pub open spec fn spec_label(self) -> Seq<char> {
        match self {
            Signal::Long => "LONG"@,
            Signal::Short => "SHORT"@,
            Signal::NoSignal => "NONE"@,
        }
    }

    /// The signal's display text: `LONG`, `SHORT` or `NONE`.
    pub fn label(&self) -> (s: &'static str)
        ensures
            s@ == self.spec_label(),
    {
        match self {
            Signal::Long => "LONG",
            Signal::Short => "SHORT",
            Signal::NoSignal => "NONE",
        }
    }
}

/// Setup type of an entry signal.
#[derive(Debug, Clone, Copy, PartialEq, Eq, Structural)]
pub enum SetupType {
    Exhaustion,
    Absorption,
}

impl SetupType {
    pub open spec fn spec_label(self) -> Seq<char> {
        match self {
            SetupType::Exhaustion => "EXHAUSTION"@,
            SetupType::Absorption => "ABSORPTION"@,
        }
    }

    /// The setup's display text, which is also its stored code.
    pub fn label(&self) -> (s: &'static str)
        ensures
            s@ == self.spec_label(),
    {
        match self {
            SetupType::Exhaustion => "EXHAUSTION",
            SetupType::Absorption => "ABSORPTION",
        }
    }

    /// The setup read back from a stored trade; any other text reads as
    /// no setup.
    pub open spec fn spec_from_stored(text: Seq<char>) -> Option<SetupType> {
        if text == "EXHAUSTION"@ {
            Some(SetupType::Exhaustion)
        } else if text == "ABSORPTION"@ {
            Some(SetupType::Absorption)
        } else {
            None
        }
    }

    /// Reads a stored setup code back.
    pub fn from_stored(text: &str) -> (setup: Option<SetupType>)
        ensures
            setup == Self::spec_from_stored(text@),
    {
        if same_text(text, "EXHAUSTION") {
            Some(SetupType::Exhaustion)
        } else if same_text(text, "ABSORPTION") {
            Some(SetupType::Absorption)
        } else {
            None
        }
    }
}

/// Why a position was closed.
#[derive(Debug, Clone, Copy, PartialEq, Eq, Structural)]
pub enum ExitReason {
    StopLoss,
    TakeProfit,
    CvdFlip,
    Manual,
}

impl ExitReason {
    pub open spec fn spec_label(self) -> Seq<char> {
        match self {
            ExitReason::StopLoss => "STOP_LOSS"@,
            ExitReason::TakeProfit => "TAKE_PROFIT"@,
            ExitReason::CvdFlip => "CVD_FLIP"@,
            ExitReason::Manual => "MANUAL"@,
        }
    }

    /// The reason's display text, which is also its stored code.
    pub fn label(&self) -> (s: &'static str)
        ensures
            s@ == self.spec_label(),
    {
        match self {
            ExitReason::StopLoss => "STOP_LOSS",
            ExitReason::TakeProfit => "TAKE_PROFIT",
            ExitReason::CvdFlip => "CVD_FLIP",
            ExitReason::Manual => "MANUAL",
        }
    }

    /// The reason read back from a stored trade; any text but the first
    /// three codes reads as `Manual`.
    pub open spec fn spec_from_stored(text: Seq<char>) -> ExitReason {
        if text == "STOP_LOSS"@ {
            ExitReason::StopLoss
        } else if text == "TAKE_PROFIT"@ {
            ExitReason::TakeProfit
        } else if text == "CVD_FLIP"@ {
            ExitReason::CvdFlip
        } else {
            ExitReason::Manual
        }
    }

    /// Reads a stored exit reason code back.
    pub fn from_stored(text: &str) -> (reason: ExitReason)
        ensures
            reason == Self::spec_from_stored(text@),
    {
        if same_text(text, "STOP_LOSS") {
            ExitReason::StopLoss
        } else if same_text(text, "TAKE_PROFIT") {
            ExitReason::TakeProfit
        } else if same_text(text, "CVD_FLIP") {
            ExitReason::CvdFlip
        } else {
            ExitReason::Manual
        }
    }
}

/// A stored position side reads back as the side that was stored.
pub proof fn lemma_position_side_round_trip(side: PositionSide)
    ensures
        PositionSide::spec_from_stored(side.spec_label()) == side,
{
    reveal_strlit("LONG");
    reveal_strlit("SHORT");
    assert("LONG"@.len() == 4);
    assert("SHORT"@.len() == 5);
}

/// A stored setup reads back as the setup that was stored.
pub proof fn lemma_setup_type_round_trip(setup: SetupType)
    ensures
        SetupType::spec_from_stored(setup.spec_label()) == Some(setup),
{
    reveal_strlit("EXHAUSTION");
    reveal_strlit("ABSORPTION");
    assert("EXHAUSTION"@[0] == 'E');
    assert("ABSORPTION"@[0] == 'A');
}

/// A stored exit reason reads back as the reason that was stored.
pub proof fn lemma_exit_reason_round_trip(reason: ExitReason)
    ensures
        ExitReason::spec_from_stored(reason.spec_label()) == reason,
{
    reveal_strlit("STOP_LOSS");
    reveal_strlit("TAKE_PROFIT");
    reveal_strlit("CVD_FLIP");
    reveal_strlit("MANUAL");
    assert("STOP_LOSS"@.len() == 9);
    assert("TAKE_PROFIT"@.len() == 11);
    assert("CVD_FLIP"@.len() == 8);
    assert("MANUAL"@.len() == 6);
}

} // verus!
