//! Decisions of the exchange feed: how raw feed messages are read, which
//! messages are heartbeats, and how long to wait before reconnecting.

use vstd::prelude::*;
use vstd::arithmetic::power2::{pow2, lemma_pow2_unfold, lemma_pow2_strictly_increases, lemma2_to64};
use crate::types::{Side, same_text};
use vstd::string::StringSliceAdditionalSpecFns;
use serde_json::{from_value, Value};

verus! {

/// Trade data as the exchange's trade feed sends it.
#[derive(Debug, Clone)]
pub struct TradeData {
    pub coin: String,
    pub side: String,
    pub px: String,
    pub sz: String,
    pub time: u64,
}

/// The aggressor side that a feed side code stands for: `B` is a buy, `A`
/// a sell, and any other code is unknown.
pub open spec fn spec_side_from_code(code: Seq<char>) -> Option<Side> {
    if code == "B"@ {
        Some(Side::Buy)
    } else if code == "A"@ {
        Some(Side::Sell)
    } else {
        None
    }
}

/// Reads a feed side code; an unknown code gives the error text
/// `Unknown trade side: <code>`.
pub fn side_from_code(code: &str) -> (r: Result<Side, String>)
    ensures
        spec_side_from_code(code@) matches Some(s) ==> r == Ok::<Side, String>(s),
        spec_side_from_code(code@) is None ==> (r matches Err(msg) && msg@ == "Unknown trade side: "@
            + code@),
{
    if same_text(code, "B") {
        Ok(Side::Buy)
    } else if same_text(code, "A") {
        Ok(Side::Sell)
    } else {
        let msg = "Unknown trade side: ".to_owned();
        Err(msg.concat(code))
    }
}

impl TradeData {
    /// The aggressor side of this trade, as `side_from_code` reads it.
    pub fn parsed_side(&self) -> (r: Result<Side, String>)
        ensures
            spec_side_from_code(self.side@) matches Some(s) ==> r == Ok::<Side, String>(s),
            spec_side_from_code(self.side@) is None ==> (r matches Err(msg) && msg@
                == "Unknown trade side: "@ + self.side@),
    {
        side_from_code(self.side.as_str())
    }

    /// A copy of this trade.
    pub fn duplicate(&self) -> (r: TradeData)
        ensures
            r == *self,
    {
        TradeData {
            coin: self.coin.clone(),
            side: self.side.clone(),
            px: self.px.clone(),
            sz: self.sz.clone(),
            time: self.time,
        }
    }
}

/// The bytes of the heartbeat reply `pong`.
pub open spec fn spec_pong_bytes() -> Seq<u8> {
    seq![0x70u8, 0x6fu8, 0x6eu8, 0x67u8]
}

/// Whether `needle` occurs in `hay` starting at byte `i`.
pub open spec fn spec_occurs_at(hay: Seq<u8>, needle: Seq<u8>, i: int) -> bool {
    0 <= i && i + needle.len() <= hay.len() && hay.subrange(i, i + needle.len()) == needle
}

/// Whether a feed message mentions `pong` anywhere (byte for byte, as
/// `str::contains` looks); such messages are heartbeats and are ignored.
pub open spec fn spec_is_pong(text: Seq<u8>) -> bool {
    exists|i: int| spec_occurs_at(text, spec_pong_bytes(), i)
}

/// Whether a feed message is a heartbeat reply (it contains `pong`).
pub fn is_pong_message(text: &str) -> (b: bool)
    ensures
        b == spec_is_pong(text.spec_bytes()),
{
    let bytes = text.as_bytes();
    let n = bytes.len();
    if n < 4 {
        proof {
            assert forall|i: int| !spec_occurs_at(text.spec_bytes(), spec_pong_bytes(), i) by {}
        }
        return false;
    }
    let mut i: usize = 0;
    while i <= n - 4
        invariant
            n == bytes@.len(),
            n >= 4,
            bytes@ == text.spec_bytes(),
            i <= n,
            forall|j: int| 0 <= j < i ==> !spec_occurs_at(bytes@, spec_pong_bytes(), j),
        decreases n - i,
    {
        if bytes[i] == 0x70u8 && bytes[i + 1] == 0x6fu8 && bytes[i + 2] == 0x6eu8 && bytes[i + 3]
            == 0x67u8 {
            proof {
                assert(bytes@.subrange(i as int, i + 4) =~= spec_pong_bytes());
                assert(spec_occurs_at(bytes@, spec_pong_bytes(), i as int));
            }
            return true;
        }
        proof {
            if spec_occurs_at(bytes@, spec_pong_bytes(), i as int) {
                let sub = bytes@.subrange(i as int, i + 4);
                assert(sub[0] == bytes@[i as int]);
                assert(sub[1] == bytes@[i + 1]);
                assert(sub[2] == bytes@[i + 2]);
                assert(sub[3] == bytes@[i + 3]);
            }
        }
        i = i + 1;
    }
    proof {
        assert forall|j: int| !spec_occurs_at(bytes@, spec_pong_bytes(), j) by {
            if 0 <= j && j >= i {
                assert(j + 4 > n);
            }
        }
    }
    false
}

/// Kind of channel a feed message arrives on.
#[derive(Debug, Clone, Copy, PartialEq, Eq, Structural)]
pub enum FeedChannel {
    /// The `trades` channel: the message's data is a list of trades.
    Trades,
    /// The `error` channel: the message's data holds an error message.
    Error,
    /// Anything else (subscription confirmations and the like), ignored.
    Other,
}

/// The channel kind named by a feed message's `channel` field.
pub fn feed_channel(name: &str) -> (c: FeedChannel)
    ensures
        c == (if name@ == "trades"@ {
            FeedChannel::Trades
        } else if name@ == "error"@ {
            FeedChannel::Error
        } else {
            FeedChannel::Other
        }),
{
    if same_text(name, "trades") {
        FeedChannel::Trades
    } else if same_text(name, "error") {
        FeedChannel::Error
    } else {
        FeedChannel::Other
    }
}

/// What the library reads from a feed message that is valid JSON: the
/// `channel` field when it is a string; the `data` field when it is a list,
/// each item as a trade when it reads as one (see `parse_feed_json`), else
/// none; and the JSON text of `data.msg` when there is one.
#[derive(Debug)]
pub struct FeedMessage {
    pub channel: Option<String>,
    pub items: Option<Vec<Option<TradeData>>>,
    pub error_msg: Option<String>,
}

/// The feed message that a text reads as, by `serde_json`; none when the
/// text is not valid JSON.
pub uninterp spec fn spec_feed_json(text: Seq<char>) -> Option<FeedMessage>;

/// Reads a feed message with `serde_json::from_str` into a JSON value and
/// picks its fields as `FeedMessage` describes. An item reads as a trade as
/// serde reads a five-field record from a JSON value, through
/// `serde_json::from_value`: a list of exactly the five fields in order, or
/// an object whose fields `coin`, `side`, `px`, `sz` are strings and `time`
/// an unsigned integer, other fields being ignored. The contract claims only
/// that the result is the one the text reads as.
#[verifier::external_body]
fn parse_feed_json(text: &str) -> (m: Option<FeedMessage>)
    ensures
        m == spec_feed_json(text@),
{
    let v: Value = serde_json::from_str(text).ok()?;
    let trade = |t: &Value| {
        let named = ["coin", "side", "px", "sz", "time"].map(|k| t[k].clone()).to_vec();
        let (coin, side, px, sz, time) =
            from_value(t.clone()).or_else(|_| from_value(named.into())).ok()?;
        Some(TradeData { coin, side, px, sz, time })
    };
    Some(FeedMessage {
        channel: v["channel"].as_str().map(String::from),
        items: v["data"].as_array().map(|a| a.iter().map(trade).collect()),
        error_msg: v["data"].get("msg").map(Value::to_string),
    })
}

/// The trades among feed items, in their order, skipping the items that are
/// not trades.
pub open spec fn spec_present(items: Seq<Option<TradeData>>) -> Seq<TradeData>
    decreases items.len(),
{
    if items.len() == 0 {
        Seq::empty()
    } else {
        let rest = spec_present(items.drop_last());
        match items.last() {
            Some(t) => rest.push(t),
            None => rest,
        }
    }
}

/// What a feed message asks of the bot.
#[derive(Debug)]
pub enum FeedOutcome {
    /// Nothing: a heartbeat, a text that is not JSON, a message without a
    /// channel and a list of data, or a channel the bot does not follow.
    Ignore,
    /// Trades to feed to the candle builder, in the order they came.
    Trades(Vec<TradeData>),
    /// An error reported by the exchange, with its message when it has one.
    Error(Option<String>),
}

/// The outcome of a feed message that read as `m`: a message with a string
/// channel and a list of data gives its trades on the `trades` channel and
/// its error message on the `error` channel; anything else is ignored.
pub open spec fn spec_outcome_of(r: FeedOutcome, m: Option<FeedMessage>) -> bool {
    match m {
        None => r is Ignore,
        Some(msg) => match (msg.channel, msg.items) {
            (Some(channel), Some(items)) => if channel@ == "trades"@ {
                r matches FeedOutcome::Trades(trades) && trades@ == spec_present(items@)
            } else if channel@ == "error"@ {
                r == FeedOutcome::Error(msg.error_msg)
            } else {
                r is Ignore
            },
            _ => r is Ignore,
        },
    }
}

/// The trades among feed items, in their order.
pub fn present_trades(items: &Vec<Option<TradeData>>) -> (r: Vec<TradeData>)
    ensures
        r@ == spec_present(items@),
{
    let mut out: Vec<TradeData> = Vec::new();
    let mut i: usize = 0;
    while i < items.len()
        invariant
            i <= items@.len(),
            out@ == spec_present(items@.take(i as int)),
        decreases items@.len() - i,
    {
        proof {
            assert(items@.take(i + 1).drop_last() =~= items@.take(i as int));
            assert(items@.take(i + 1).last() == items@[i as int]);
        }
        match &items[i] {
            Some(t) => out.push(t.duplicate()),
            None => {},
        }
        i = i + 1;
    }
    proof {
        assert(items@.take(items@.len() as int) =~= items@);
    }
    out
}

/// What the bot does with a feed message that read as `m`.
pub fn outcome_of_message(m: Option<FeedMessage>) -> (r: FeedOutcome)
    ensures
        spec_outcome_of(r, m),
{
    match m {
        None => FeedOutcome::Ignore,
        Some(msg) => match (msg.channel, msg.items) {
            (Some(channel), Some(items)) => match feed_channel(channel.as_str()) {
                FeedChannel::Trades => FeedOutcome::Trades(present_trades(&items)),
                FeedChannel::Error => FeedOutcome::Error(msg.error_msg),
                FeedChannel::Other => FeedOutcome::Ignore,
            },
            _ => FeedOutcome::Ignore,
        },
    }
}

/// What the bot does with a raw feed message: a heartbeat (any text with
/// `pong` in it) is ignored; anything else is read as JSON and handled as
/// `spec_outcome_of` says.
pub fn feed_outcome(text: &str) -> (r: FeedOutcome)
    ensures
        spec_is_pong(text.spec_bytes()) ==> r is Ignore,
        !spec_is_pong(text.spec_bytes()) ==> spec_outcome_of(r, spec_feed_json(text@)),
{
    if is_pong_message(text) {
        return FeedOutcome::Ignore;
    }
    outcome_of_message(parse_feed_json(text))
}

/// Reading trades out of feed items keeps every trade and only the trades,
/// in their order: a trade item gives that trade, any other item nothing,
/// and the trades of two runs of items one after the other are those of the
/// first run followed by those of the second.
pub proof fn lemma_present_keeps_trades_in_order(
    first: Seq<Option<TradeData>>,
    second: Seq<Option<TradeData>>,
    t: TradeData,
)
    ensures
        spec_present(seq![Some(t)]) == seq![t],
        spec_present(seq![None::<TradeData>]) == Seq::<TradeData>::empty(),
        spec_present(first + second) == spec_present(first) + spec_present(second),
    decreases second.len(),
{
    assert(seq![Some(t)].drop_last() =~= Seq::<Option<TradeData>>::empty());
    assert(seq![None::<TradeData>].drop_last() =~= Seq::<Option<TradeData>>::empty());
    assert(spec_present(Seq::<Option<TradeData>>::empty()) == Seq::<TradeData>::empty());
    assert(seq![Some(t)].last() == Some(t));
    assert(seq![None::<TradeData>].last() == None::<TradeData>);
    assert(Seq::<TradeData>::empty().push(t) =~= seq![t]);
    if second.len() == 0 {
        assert(first + second =~= first);
        assert(spec_present(first) + Seq::<TradeData>::empty() =~= spec_present(first));
    } else {
        lemma_present_keeps_trades_in_order(first, second.drop_last(), t);
        assert((first + second).drop_last() =~= first + second.drop_last());
        assert((first + second).last() == second.last());
        match second.last() {
            Some(x) => {
                assert(spec_present(first) + spec_present(second.drop_last()).push(x)
                    =~= (spec_present(first) + spec_present(second.drop_last())).push(x));
            },
            None => {},
        }
    }
}

/// What a feed message that read as JSON asks: trades only on the `trades`
/// channel, an error only on the `error` channel, and nothing for a message
/// without a string channel and a list of data or on another channel.
pub proof fn lemma_feed_outcome_by_channel(r: FeedOutcome, m: FeedMessage)
    requires
        spec_outcome_of(r, Some(m)),
    ensures
        r is Trades ==> (m.channel matches Some(c) && c@ == "trades"@ && m.items is Some),
        r is Error ==> (m.channel matches Some(c) && c@ == "error"@ && m.items is Some && r
            == FeedOutcome::Error(m.error_msg)),
        (m.channel is None || m.items is None) ==> r is Ignore,
        (m.channel is Some && m.items is Some && m.channel.unwrap()@ == "trades"@) ==> (
        r matches FeedOutcome::Trades(trades) && trades@ == spec_present(m.items.unwrap()@)),
{
    reveal_strlit("trades");
    reveal_strlit("error");
}

/// A feed side code reads `B` as a buy and `A` as a sell, and no other
/// code as a side.
pub proof fn lemma_side_codes(code: Seq<char>)
    ensures
        spec_side_from_code("B"@) == Some(Side::Buy),
        spec_side_from_code("A"@) == Some(Side::Sell),
        spec_side_from_code(code) is Some ==> code == "B"@ || code == "A"@,
{
    reveal_strlit("B");
    reveal_strlit("A");
    assert("A"@[0] != "B"@[0]);
    assert("A"@ != "B"@);
}

/// The texts of a list of strings.
pub open spec fn spec_texts(items: Seq<String>) -> Seq<Seq<char>> {
    items.map_values(|s: String| s@)
}

/// The symbols still to subscribe to, in their configured order: those not
/// already subscribed.
pub open spec fn spec_pending_subscriptions(symbols: Seq<Seq<char>>, subscribed: Seq<Seq<char>>) -> Seq<
    Seq<char>,
>
    decreases symbols.len(),
{
    if symbols.len() == 0 {
        Seq::empty()
    } else {
        let rest = spec_pending_subscriptions(symbols.drop_last(), subscribed);
        if subscribed.contains(symbols.last()) {
            rest
        } else {
            rest.push(symbols.last())
        }
    }
}

/// Whether `name` is among `names`.
pub fn contains_text(names: &Vec<String>, name: &str) -> (b: bool)
    ensures
        b == spec_texts(names@).contains(name@),
{
    let mut i: usize = 0;
    while i < names.len()
        invariant
            i <= names@.len(),
            forall|j: int| 0 <= j < i ==> names@[j]@ != name@,
        decreases names@.len() - i,
    {
        if same_text(names[i].as_str(), name) {
            proof {
                assert(spec_texts(names@)[i as int] == name@);
            }
            return true;
        }
        i = i + 1;
    }
    proof {
        if spec_texts(names@).contains(name@) {
            let k = choose|k: int| 0 <= k < spec_texts(names@).len() && spec_texts(names@)[k] == name@;
            assert(names@[k]@ == name@);
        }
    }
    false
}

/// The configured symbols that are not subscribed yet, in order, so that a
/// reconnection subscribes only to what is missing.
pub fn pending_subscriptions(symbols: &Vec<String>, subscribed: &Vec<String>) -> (r: Vec<String>)
    ensures
        spec_texts(r@) == spec_pending_subscriptions(spec_texts(symbols@), spec_texts(subscribed@)),
{
    let mut r: Vec<String> = Vec::new();
    let mut i: usize = 0;
    while i < symbols.len()
        invariant
            i <= symbols@.len(),
            spec_texts(r@) == spec_pending_subscriptions(
                spec_texts(symbols@.subrange(0, i as int)),
                spec_texts(subscribed@),
            ),
        decreases symbols@.len() - i,
    {
        let ghost before = r@;
        proof {
            assert(spec_texts(symbols@.subrange(0, i + 1)).drop_last() =~= spec_texts(
                symbols@.subrange(0, i as int),
            ));
            assert(spec_texts(symbols@.subrange(0, i + 1)).last() == symbols@[i as int]@);
        }
        if !contains_text(subscribed, symbols[i].as_str()) {
            r.push(symbols[i].clone());
            proof {
                assert(spec_texts(r@) =~= spec_texts(before).push(symbols@[i as int]@));
            }
        }
        i = i + 1;
    }
    proof {
        assert(symbols@.subrange(0, symbols@.len() as int) =~= symbols@);
    }
    r
}

/// A symbol is still to subscribe to exactly when it is configured and not
/// subscribed yet.
pub proof fn lemma_pending_subscriptions_are_missing(
    symbols: Seq<Seq<char>>,
    subscribed: Seq<Seq<char>>,
    symbol: Seq<char>,
)
    ensures
        spec_pending_subscriptions(symbols, subscribed).contains(symbol) <==> (symbols.contains(
            symbol,
        ) && !subscribed.contains(symbol)),
    decreases symbols.len(),
{
    if symbols.len() > 0 {
        let init = symbols.drop_last();
        lemma_pending_subscriptions_are_missing(init, subscribed, symbol);
        let rest = spec_pending_subscriptions(init, subscribed);
        assert(symbols =~= init.push(symbols.last()));
        if symbols.contains(symbol) && symbol != symbols.last() {
            let k = choose|k: int| 0 <= k < symbols.len() && symbols[k] == symbol;
            assert(init[k] == symbol);
        }
        if init.contains(symbol) {
            let k = choose|k: int| 0 <= k < init.len() && init[k] == symbol;
            assert(symbols[k] == symbol);
        }
        if !subscribed.contains(symbols.last()) {
            let r2 = rest.push(symbols.last());
            assert(r2[rest.len() as int] == symbols.last());
            if r2.contains(symbol) && symbol != symbols.last() {
                let k = choose|k: int| 0 <= k < r2.len() && r2[k] == symbol;
                assert(rest[k] == symbol);
            }
            if rest.contains(symbol) {
                let k = choose|k: int| 0 <= k < rest.len() && rest[k] == symbol;
                assert(r2[k] == symbol);
            }
        }
        assert(symbols[symbols.len() - 1] == symbols.last());
    }
}

/// What the candle builder does with a trade, given the minute of the
/// candle being built for the trade's symbol (if any) and the minute the
/// trade falls in.
#[derive(Debug, Clone, Copy, PartialEq, Eq, Structural)]
pub enum CandleStep {
    /// No candle is being built for the symbol: open one with this trade.
    Open,
    /// The trade falls in the candle being built: add it.
    Extend,
    /// The trade starts a new minute: finish and emit the candle being
    /// built, then open a new one with this trade.
    Roll,
}

/// Start of the minute a time falls in, in milliseconds since the epoch: the
/// time rounded down to a whole minute (before the epoch too).
pub open spec fn spec_minute_of(ms: int) -> int {
    ms - ms % 60000
}

/// Start of the minute a trade time falls in, in milliseconds since the
/// epoch; the time must be representable in nanoseconds as an `i64`.
pub fn minute_of(ms: i64) -> (m: i64)
    requires
        i64::MIN <= ms * 1_000_000 <= i64::MAX,
    ensures
        m == spec_minute_of(ms as int),
        m % 60000 == 0,
        m <= ms < m + 60000,
{
    proof {
        lemma_minute_is_whole_minute_at_or_before(ms as int, ms as int);
    }
    if ms >= 0 {
        let r = (ms as u64) % 60000;
        ms - (r as i64)
    } else {
        let p = (-(ms + 1)) as u64;
        let q = p / 60000;
        proof {
            assert(ms as int - (ms as int) % 60000 == -((q as int) + 1) * 60000) by (nonlinear_arith)
                requires
                    p as int == -(ms as int) - 1,
                    q as int == (p as int) / 60000,
                    p >= 0,
            ;
        }
        -((q as i64) + 1) * 60000
    }
}

/// The minute of a time is the whole minute at or just before it: a
/// multiple of 60 000 milliseconds, not after the time, and less than a
/// minute before it; times in the same minute share it.
pub proof fn lemma_minute_is_whole_minute_at_or_before(ms: int, other: int)
    ensures
        spec_minute_of(ms) % 60000 == 0,
        spec_minute_of(ms) <= ms < spec_minute_of(ms) + 60000,
        spec_minute_of(ms) <= other < spec_minute_of(ms) + 60000 ==> spec_minute_of(other)
            == spec_minute_of(ms),
{
    let m = spec_minute_of(ms);
    assert(m % 60000 == 0 && m <= ms < m + 60000) by (nonlinear_arith)
        requires
            m == ms - ms % 60000,
    ;
    if m <= other < m + 60000 {
        let k = spec_minute_of(other);
        assert(k % 60000 == 0 && k <= other < k + 60000) by (nonlinear_arith)
            requires
                k == other - other % 60000,
        ;
        assert(k == m) by (nonlinear_arith)
            requires
                k % 60000 == 0,
                m % 60000 == 0,
                k <= other < k + 60000,
                m <= other < m + 60000,
        ;
    }
}

/// The builder's step for a trade falling in minute `trade_minute`.
pub fn candle_step(current_minute: Option<i64>, trade_minute: i64) -> (s: CandleStep)
    ensures
        s == (match current_minute {
            None => CandleStep::Open,
            Some(m) => if m == trade_minute {
                CandleStep::Extend
            } else {
                CandleStep::Roll
            },
        }),
{
    match current_minute {
        None => CandleStep::Open,
        Some(m) => if m == trade_minute {
            CandleStep::Extend
        } else {
            CandleStep::Roll
        },
    }
}

/// Connection attempts after which the feed gives up reconnecting.
pub const MAX_RECONNECT_RETRIES: u32 = 10;

/// Base delay of the reconnect backoff, in seconds.
pub const BASE_RECONNECT_DELAY_SECS: u64 = 1;

/// Exponential part of the delay before retry number `retry`:
/// `BASE_RECONNECT_DELAY_SECS * 2^(retry - 1)`.
pub open spec fn spec_backoff_base(retry: nat) -> nat {
    (BASE_RECONNECT_DELAY_SECS * pow2((retry - 1) as nat)) as nat
}

/// Delay before retry number `retry` (counted from 1): the exponential part
/// plus a jitter of `(retry * 13) mod (base / 2 + 1)` seconds.
pub open spec fn spec_reconnect_delay(retry: nat) -> nat {
    let base = spec_backoff_base(retry);
    base + (retry * 13) % (base / 2 + 1)
}

/// Seconds to wait before retry number `retry_count` (counted from 1).
pub fn reconnect_delay_secs(retry_count: u32) -> (d: u64)
    requires
        1 <= retry_count <= 64,
    ensures
        d == spec_reconnect_delay(retry_count as nat),
{
    let mut power: u64 = 1;
    let mut i: u32 = 1;
    proof {
        lemma2_to64();
    }
    while i < retry_count
        invariant
            1 <= i <= retry_count <= 64,
            power == pow2((i - 1) as nat),
            pow2(64) == 0x10000000000000000,
        decreases retry_count - i,
    {
        proof {
            lemma_pow2_unfold(i as nat);
            lemma_pow2_strictly_increases(i as nat, 64);
        }
        power = power * 2;
        i = i + 1;
    }
    proof {
        if retry_count < 64 {
            lemma_pow2_strictly_increases((retry_count - 1) as nat, 63);
        }
        lemma_pow2_unfold(64);
    }
    let base = BASE_RECONNECT_DELAY_SECS * power;
    let jitter = (retry_count as u64 * 13) % (base / 2 + 1);
    base + jitter
}

/// What the feed does after a failed connection attempt.
#[derive(Debug, Clone, Copy, PartialEq, Eq, Structural)]
pub enum ReconnectDecision {
    /// Wait `delay_secs` seconds, then make attempt number `retry` again.
    Retry { retry: u32, delay_secs: u64 },
    /// Stop: the attempts are used up.
    GiveUp { retries: u32 },
}

/// The decision after a failed attempt, given the failures counted so far.
pub open spec fn spec_after_failed_attempt(failures_before: nat) -> ReconnectDecision {
    let retry = failures_before + 1;
    if retry >= MAX_RECONNECT_RETRIES {
        ReconnectDecision::GiveUp { retries: retry as u32 }
    } else {
        ReconnectDecision::Retry {
            retry: retry as u32,
            delay_secs: spec_reconnect_delay(retry) as u64,
        }
    }
}

/// Decides what to do after a failed connection attempt, given the number
/// of consecutive failures counted before it (a successful connection
/// brings the count back to zero).
pub fn after_failed_attempt(failures_before: u32) -> (r: ReconnectDecision)
    requires
        failures_before < MAX_RECONNECT_RETRIES,
    ensures
        r == spec_after_failed_attempt(failures_before as nat),
{
    let retry = failures_before + 1;
    if retry >= MAX_RECONNECT_RETRIES {
        ReconnectDecision::GiveUp { retries: retry }
    } else {
        let delay_secs = reconnect_delay_secs(retry);
        ReconnectDecision::Retry { retry, delay_secs }
    }
}

/// The wait before a retry is never shorter than the exponential base and
/// exceeds it by at most half of it.
pub proof fn lemma_delay_bounds(retry: nat)
    requires
        retry >= 1,
    ensures
        spec_backoff_base(retry) <= spec_reconnect_delay(retry) <= spec_backoff_base(retry)
            + spec_backoff_base(retry) / 2,
{
    let base = spec_backoff_base(retry);
    assert((retry * 13) % (base / 2 + 1) < base / 2 + 1) by (nonlinear_arith)
        requires
            base / 2 + 1 > 0,
    ;
}

/// Each retry waits at least as long as the one before it.
pub proof fn lemma_delays_grow(retry: nat)
    requires
        retry >= 1,
    ensures
        spec_reconnect_delay(retry) <= spec_reconnect_delay(retry + 1),
{
    lemma_delay_bounds(retry);
    lemma_delay_bounds(retry + 1);
    lemma_pow2_unfold(retry);
}

/// Consecutive failures retry on the first nine and give up on the tenth:
/// the decision after `k` earlier failures is a retry exactly when `k + 1`
/// is below the limit.
pub proof fn lemma_gives_up_on_tenth_failure(failures_before: nat)
    ensures
        spec_after_failed_attempt(failures_before) is GiveUp <==> failures_before + 1 >= 10,
{
}

} // verus!
