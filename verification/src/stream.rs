//! The stream of depth and trades of one instrument, as a state machine.
//!
//! The machine decides; its driver acts. The driver connects, reads frames
//! and fetches snapshots, hands each result to the machine, and does what
//! the machine answers: carry out a directive, then pass on an event.
//!
//! A stream is disconnected, synchronized, or resyncing. It becomes
//! synchronized when a snapshot seeds its book. Each change of the book
//! that arrives then is stale and dropped, or shows that the book is out of
//! step with the stream and asks for a new snapshot, or continues the
//! changes before it and is applied, or leaves a gap, which disconnects the
//! stream: a book is never patched across a gap.

use crate::adapter::{
    new_depth_cache, reported_levels, ws_domain_from_market_type, PerpDepth, SonicDepth, SonicTrade,
    StreamData, WS_DOMAIN,
};
use crate::depth::{
    lemma_apply_levels_positive, CacheState, DepthPayload, DepthUpdate, LocalDepthCache,
};
use crate::market::{
    Event, EventView, Exchange, PushFrequency, SizeUnit, StreamKind, StreamTicksize, TickerInfo,
    Trade,
};
use crate::price::{round_to_tick, Price};
use crate::qty::{calc_qty, reported_qty};
use crate::text::{append_decimal, decimal_text, lowercase_of, to_lowercase};
use vstd::prelude::*;
use vstd::string::StringExecFns;

verus! {

/// How long the driver waits after a connection failed, in milliseconds.
pub const RECONNECT_BACKOFF_MS: u64 = 1000;

/// Where a stream stands.
#[derive(Clone, Copy, Debug, PartialEq, Eq, Structural)]
pub enum Phase {
    /// No connection. Nothing that arrives is taken.
    Disconnected,
    /// Connected, with a book that follows the stream.
    Synchronized,
    /// Connected and waiting for a snapshot. Changes of the book are read
    /// and dropped.
    Resyncing,
}

/// What the driver does before it passes on the event of an outcome.
#[derive(Clone, Copy, Debug, PartialEq, Eq, Structural)]
pub enum Directive {
    /// Nothing.
    Continue,
    /// Wait for this many milliseconds.
    Backoff(u64),
    /// Fetch a snapshot without holding up the reading of frames, and hand
    /// the result to the machine when it is there.
    FetchSnapshot,
}

/// The kind of a frame.
#[derive(Clone, Copy, Debug, PartialEq, Eq, Structural)]
pub enum FrameKind {
    Text,
    Close,
    Other,
}

/// What the machine answers.
#[derive(Debug)]
pub struct Outcome {
    pub directive: Directive,
    pub event: Option<Event>,
}

/// An outcome over the model of its event.
pub struct OutcomeView {
    pub directive: Directive,
    pub event: Option<EventView>,
}

impl View for Outcome {
    type V = OutcomeView;

    open spec fn view(&self) -> OutcomeView {
        OutcomeView {
            directive: self.directive,
            event: match self.event {
                Some(e) => Some(e@),
                None => None,
            },
        }
    }
}

impl OutcomeView {
    /// Nothing to do and nothing to say.
    pub open spec fn quiet() -> OutcomeView {
        OutcomeView { directive: Directive::Continue, event: None }
    }

    /// An event and nothing to do.
    pub open spec fn says(event: EventView) -> OutcomeView {
        OutcomeView { directive: Directive::Continue, event: Some(event) }
    }
}

/// Why no snapshot came.
#[derive(Debug)]
pub enum SnapshotFailure {
    /// The request failed.
    Fetch(String),
    /// The task that made the request went away without an answer.
    Channel(String),
}

/// What becomes of a change of the book.
#[derive(Clone, Copy, Debug, PartialEq, Eq, Structural)]
pub enum DiffVerdict {
    /// Dropped: stale, or no book to apply it to.
    Ignore,
    /// The book is out of step with the stream: a new snapshot is needed.
    Resync,
    /// Applied.
    Apply,
    /// A gap: the stream is disconnected.
    Gap,
}

/// What becomes of a change of the book that covers the updates from
/// `first_id` to `final_id` and follows the change that ended with
/// `prev_final_id`, for a book that is current up to `last_update_id` and
/// whose last applied change ended with `prev_id`, zero standing for none.
pub open spec fn diff_verdict(
    phase: Phase,
    last_update_id: u64,
    prev_id: u64,
    first_id: u64,
    final_id: u64,
    prev_final_id: u64,
) -> DiffVerdict {
    if phase != Phase::Synchronized {
        DiffVerdict::Ignore
    } else if final_id <= last_update_id || last_update_id == 0 {
        DiffVerdict::Ignore
    } else if (prev_id == 0 && first_id > last_update_id + 1) || last_update_id + 1 > final_id {
        DiffVerdict::Resync
    } else if prev_id == 0 || prev_id == prev_final_id {
        DiffVerdict::Apply
    } else {
        DiffVerdict::Gap
    }
}

/// Decides what becomes of a change of the book.
pub fn classify_diff(
    phase: Phase,
    last_update_id: u64,
    prev_id: u64,
    first_id: u64,
    final_id: u64,
    prev_final_id: u64,
) -> (r: DiffVerdict)
    ensures
        r == diff_verdict(phase, last_update_id, prev_id, first_id, final_id, prev_final_id),
{
    if phase != Phase::Synchronized {
        return DiffVerdict::Ignore;
    }
    if final_id <= last_update_id || last_update_id == 0 {
        return DiffVerdict::Ignore;
    }
    // Here `final_id > last_update_id`, so `last_update_id + 1` fits.
    let next: u64 = last_update_id + 1;
    if (prev_id == 0 && first_id > next) || next > final_id {
        DiffVerdict::Resync
    } else if prev_id == 0 || prev_id == prev_final_id {
        DiffVerdict::Apply
    } else {
        DiffVerdict::Gap
    }
}

/// What a stream was set up for.
#[derive(Debug)]
pub struct StreamConfig {
    pub ticker_info: TickerInfo,
    pub push_freq: PushFrequency,
    pub size_unit: SizeUnit,
}

impl StreamConfig {
    /// The exchange of the instrument.
    pub open spec fn exchange(self) -> Exchange {
        self.ticker_info.ticker.exchange
    }

    /// Sizes are reported in the quote asset.
    pub open spec fn size_in_quote_ccy(self) -> bool {
        self.size_unit == SizeUnit::Quote
    }

    /// The stream that the events of this stream belong to.
    pub open spec fn stream_kind(self) -> StreamKind {
        StreamKind::DepthAndTrades {
            ticker_info: self.ticker_info,
            depth_aggr: StreamTicksize::Client,
            push_freq: self.push_freq,
        }
    }

    /// A trade of the exchange as it is reported: the price rounded to the
    /// tick, the quantity in the unit that the setting asks for.
    pub open spec fn reported_trade(self, trade: SonicTrade) -> Trade {
        Trade {
            time: trade.time,
            is_sell: trade.is_sell,
            price: Price {
                units: round_to_tick(
                    trade.price.units as int,
                    self.ticker_info.min_ticksize.units as int,
                ) as i64,
            },
            qty: reported_qty(
                trade.qty,
                trade.price,
                self.ticker_info.contract_size,
                self.size_in_quote_ccy(),
            ),
        }
    }
}

/// The address of the stream of the trades and the depth of an instrument,
/// given its symbol in lower case.
pub open spec fn stream_address(folded: Seq<char>) -> Seq<char> {
    "wss://"@ + WS_DOMAIN@ + "/stream?streams="@ + folded + "@aggTrade"@ + "/"@ + folded
        + "@depth@100ms"@
}

/// The address of the stream of the trades and the depth of an instrument.
pub open spec fn market_stream_url(symbol: Seq<char>) -> Seq<char> {
    stream_address(lowercase_of(symbol))
}

/// Writes the address of the stream of the trades and the depth of an
/// instrument, given its symbol in lower case.
pub fn market_stream_address(folded: &str) -> (r: String)
    ensures
        r@ == stream_address(folded@),
{
    let mut url = String::from_str("wss://");
    url.append(WS_DOMAIN);
    url.append("/stream?streams=");
    url.append(folded);
    url.append("@aggTrade");
    url.append("/");
    url.append(folded);
    url.append("@depth@100ms");
    proof {
        assert(url@ =~= stream_address(folded@));
    }
    url
}

/// What is said of a gap.
pub open spec fn out_of_sync_message(expected: u64, got: u64) -> Seq<char> {
    "Out of sync. Expected update_id: "@ + decimal_text(expected as nat) + ", got: "@
        + decimal_text(got as nat)
}

/// What is said of a snapshot that did not come when the stream connected.
pub open spec fn connect_failure_message(failure: SnapshotFailure) -> Seq<char> {
    match failure {
        SnapshotFailure::Fetch(e) => "Depth fetch failed: "@ + e@,
        SnapshotFailure::Channel(e) => "Channel error: "@ + e@,
    }
}

/// What is said of a snapshot that did not come when the stream asked for
/// one to get back in step.
pub open spec fn resync_failure_message(symbol: Seq<char>, failure: SnapshotFailure) -> Seq<char> {
    match failure {
        SnapshotFailure::Fetch(e) => "Depth fetch failed: "@ + e@,
        SnapshotFailure::Channel(e) => "Failed to send fetched depth for "@ + symbol + ", error: "@
            + e@,
    }
}

/// What a stream holds.
pub struct StreamState {
    pub phase: Phase,
    pub cache: CacheState,
    /// The trades since the book was last sent.
    pub trades: Seq<Trade>,
    /// The id with which the last applied change ended; zero after a
    /// snapshot.
    pub prev_id: u64,
}

impl StreamState {
    /// A stream before its first connection.
    pub open spec fn initial() -> StreamState {
        StreamState {
            phase: Phase::Disconnected,
            cache: CacheState::empty(),
            trades: Seq::empty(),
            prev_id: 0,
        }
    }

    /// The stream seeded by a snapshot.
    pub open spec fn seeded(self, cfg: StreamConfig, snapshot: DepthPayload) -> StreamState {
        StreamState {
            phase: Phase::Synchronized,
            cache: CacheState::reseeded(
                snapshot.last_update_id,
                snapshot.time,
                snapshot.bids@,
                snapshot.asks@,
                cfg.ticker_info.min_ticksize,
            ),
            prev_id: 0,
            ..self
        }
    }

    /// The stream with its connection gone.
    pub open spec fn dropped(self) -> StreamState {
        StreamState { phase: Phase::Disconnected, ..self }
    }

    /// What becomes of a change of the book.
    pub open spec fn verdict(self, de: PerpDepth) -> DiffVerdict {
        diff_verdict(
            self.phase,
            self.cache.last_update_id,
            self.prev_id,
            de.first_id,
            de.final_id,
            de.prev_final_id,
        )
    }

    /// The cache with a change of the book applied.
    pub open spec fn patched_cache(self, cfg: StreamConfig, de: PerpDepth) -> CacheState {
        self.cache.diffed(
            de.final_id,
            de.time,
            reported_levels(de.bids@, cfg.ticker_info.contract_size, cfg.size_in_quote_ccy()),
            reported_levels(de.asks@, cfg.ticker_info.contract_size, cfg.size_in_quote_ccy()),
            cfg.ticker_info.min_ticksize,
        )
    }

    /// The stream after a change of the book arrived.
    pub open spec fn after_depth(self, cfg: StreamConfig, de: PerpDepth) -> StreamState {
        match self.verdict(de) {
            DiffVerdict::Ignore => self,
            DiffVerdict::Resync => StreamState { phase: Phase::Resyncing, ..self },
            DiffVerdict::Apply => StreamState {
                cache: self.patched_cache(cfg, de),
                trades: Seq::empty(),
                prev_id: de.final_id,
                ..self
            },
            DiffVerdict::Gap => self.dropped(),
        }
    }

    /// What the stream answers to a change of the book.
    pub open spec fn depth_outcome(self, cfg: StreamConfig, de: PerpDepth) -> OutcomeView {
        match self.verdict(de) {
            DiffVerdict::Ignore => OutcomeView::quiet(),
            DiffVerdict::Resync => OutcomeView {
                directive: Directive::FetchSnapshot,
                event: None,
            },
            DiffVerdict::Apply => OutcomeView::says(
                EventView::DepthReceived(
                    cfg.stream_kind(),
                    de.time,
                    self.patched_cache(cfg, de).book,
                    self.trades,
                ),
            ),
            DiffVerdict::Gap => OutcomeView::says(
                EventView::Disconnected(
                    cfg.exchange(),
                    out_of_sync_message(de.prev_final_id, self.prev_id),
                ),
            ),
        }
    }

    /// The stream after a trade arrived.
    pub open spec fn after_trade(self, cfg: StreamConfig, trade: SonicTrade) -> StreamState {
        if self.phase == Phase::Disconnected {
            self
        } else {
            StreamState { trades: self.trades.push(cfg.reported_trade(trade)), ..self }
        }
    }

    /// The stream after the answer to its request for a snapshot on
    /// connecting.
    pub open spec fn after_connect(
        self,
        cfg: StreamConfig,
        result: Result<DepthPayload, SnapshotFailure>,
    ) -> StreamState {
        if self.phase != Phase::Disconnected {
            self
        } else {
            match result {
                Ok(snapshot) => self.seeded(cfg, snapshot),
                Err(_) => self,
            }
        }
    }

    /// What the stream answers when connected.
    pub open spec fn connect_outcome(
        self,
        cfg: StreamConfig,
        result: Result<DepthPayload, SnapshotFailure>,
    ) -> OutcomeView {
        if self.phase != Phase::Disconnected {
            OutcomeView::quiet()
        } else {
            match result {
                Ok(_) => OutcomeView::says(EventView::Connected(cfg.exchange())),
                Err(failure) => OutcomeView::says(
                    EventView::Disconnected(cfg.exchange(), connect_failure_message(failure)),
                ),
            }
        }
    }

    /// The stream after the answer to its request for a new snapshot.
    pub open spec fn after_resync(
        self,
        cfg: StreamConfig,
        result: Result<DepthPayload, SnapshotFailure>,
    ) -> StreamState {
        if self.phase != Phase::Resyncing {
            self
        } else {
            match result {
                Ok(snapshot) => self.seeded(cfg, snapshot),
                Err(_) => self.dropped(),
            }
        }
    }

    /// What the stream answers to the new snapshot, or to its failure.
    pub open spec fn resync_outcome(
        self,
        cfg: StreamConfig,
        result: Result<DepthPayload, SnapshotFailure>,
    ) -> OutcomeView {
        if self.phase != Phase::Resyncing {
            OutcomeView::quiet()
        } else {
            match result {
                Ok(_) => OutcomeView::quiet(),
                Err(failure) => OutcomeView::says(
                    EventView::Disconnected(
                        cfg.exchange(),
                        resync_failure_message(cfg.ticker_info.ticker.symbol@, failure),
                    ),
                ),
            }
        }
    }

    /// What the stream answers when its connection goes, for the reason
    /// given: one event, unless the stream was disconnected already.
    pub open spec fn drop_outcome(self, cfg: StreamConfig, reason: Seq<char>) -> OutcomeView {
        if self.phase == Phase::Disconnected {
            OutcomeView::quiet()
        } else {
            OutcomeView::says(EventView::Disconnected(cfg.exchange(), reason))
        }
    }
}

/// A stale change of the book, one that ends at or before the id up to
/// which the book is current, changes nothing and says nothing, however
/// often it arrives.
pub proof fn lemma_stale_diff_changes_nothing(state: StreamState, cfg: StreamConfig, de: PerpDepth)
    requires
        de.final_id <= state.cache.last_update_id,
    ensures
        state.after_depth(cfg, de) == state,
        state.depth_outcome(cfg, de) == OutcomeView::quiet(),
{
}

/// A gap disconnects the stream and says so once: the book is left as it
/// was, and whatever change of the book arrives next is dropped without a
/// word.
pub proof fn lemma_gap_disconnects_once(
    state: StreamState,
    cfg: StreamConfig,
    de: PerpDepth,
    later: PerpDepth,
)
    requires
        state.verdict(de) == DiffVerdict::Gap,
    ensures
        state.after_depth(cfg, de).phase == Phase::Disconnected,
        state.after_depth(cfg, de).cache == state.cache,
        state.depth_outcome(cfg, de).directive == Directive::Continue,
        state.depth_outcome(cfg, de).event == Some(
            EventView::Disconnected(
                cfg.exchange(),
                out_of_sync_message(de.prev_final_id, state.prev_id),
            ),
        ),
        state.after_depth(cfg, de).after_depth(cfg, later) == state.after_depth(cfg, de),
        state.after_depth(cfg, de).depth_outcome(cfg, later) == OutcomeView::quiet(),
{
}

/// Whatever change of the book arrives, no level of the book of the stream
/// has quantity zero afterwards.
pub proof fn lemma_depth_keeps_book_well_formed(state: StreamState, cfg: StreamConfig, de: PerpDepth)
    requires
        state.cache.book.well_formed(),
    ensures
        state.after_depth(cfg, de).cache.book.well_formed(),
{
    lemma_apply_levels_positive(
        state.cache.book.bids,
        reported_levels(de.bids@, cfg.ticker_info.contract_size, cfg.size_in_quote_ccy()),
        cfg.ticker_info.min_ticksize,
    );
    lemma_apply_levels_positive(
        state.cache.book.asks,
        reported_levels(de.asks@, cfg.ticker_info.contract_size, cfg.size_in_quote_ccy()),
        cfg.ticker_info.min_ticksize,
    );
}

/// A stream that is not synchronized takes no change of the book: while
/// disconnected or waiting for a snapshot the changes are read and dropped.
pub proof fn lemma_only_synchronized_applies(state: StreamState, cfg: StreamConfig, de: PerpDepth)
    requires
        state.phase != Phase::Synchronized,
    ensures
        state.after_depth(cfg, de) == state,
        state.depth_outcome(cfg, de) == OutcomeView::quiet(),
{
}

/// An applied change continues the book: it ends after the id up to which
/// the book was current, and the book is then current up to its end.
pub proof fn lemma_applied_diff_advances(state: StreamState, cfg: StreamConfig, de: PerpDepth)
    requires
        state.verdict(de) == DiffVerdict::Apply,
    ensures
        de.final_id > state.cache.last_update_id,
        state.after_depth(cfg, de).cache.last_update_id == de.final_id,
        state.after_depth(cfg, de).prev_id == de.final_id,
        state.after_depth(cfg, de).phase == Phase::Synchronized,
{
}

/// The stream of depth and trades of one instrument.
#[derive(Debug)]
pub struct MarketStream {
    config: StreamConfig,
    phase: Phase,
    orderbook: LocalDepthCache,
    trades_buffer: Vec<Trade>,
    prev_id: u64,
}

impl View for MarketStream {
    type V = StreamState;

    closed spec fn view(&self) -> StreamState {
        StreamState {
            phase: self.phase,
            cache: self.orderbook@,
            trades: self.trades_buffer@,
            prev_id: self.prev_id,
        }
    }
}

/// The text of the message about a gap.
fn out_of_sync_text(expected: u64, got: u64) -> (r: String)
    ensures
        r@ == out_of_sync_message(expected, got),
{
    let mut msg = String::from_str("Out of sync. Expected update_id: ");
    append_decimal(&mut msg, expected);
    msg.append(", got: ");
    append_decimal(&mut msg, got);
    msg
}

/// The text of the message about a snapshot that did not come on
/// connecting.
fn connect_failure_text(failure: &SnapshotFailure) -> (r: String)
    ensures
        r@ == connect_failure_message(*failure),
{
    match failure {
        SnapshotFailure::Fetch(e) => String::from_str("Depth fetch failed: ").concat(e.as_str()),
        SnapshotFailure::Channel(e) => String::from_str("Channel error: ").concat(e.as_str()),
    }
}

/// The text of the message about a snapshot that did not come on
/// resyncing.
fn resync_failure_text(symbol: &str, failure: &SnapshotFailure) -> (r: String)
    ensures
        r@ == resync_failure_message(symbol@, *failure),
{
    match failure {
        SnapshotFailure::Fetch(e) => String::from_str("Depth fetch failed: ").concat(e.as_str()),
        SnapshotFailure::Channel(e) => {
            let mut msg = String::from_str("Failed to send fetched depth for ");
            msg.append(symbol);
            msg.append(", error: ");
            msg.append(e.as_str());
            msg
        },
    }
}

impl MarketStream {
    /// What the stream was set up for.
    pub closed spec fn config(&self) -> StreamConfig {
        self.config
    }

    /// A stream for an instrument, before its first connection.
    pub fn new(ticker_info: TickerInfo, push_freq: PushFrequency, size_unit: SizeUnit) -> (r:
        MarketStream)
        ensures
            r@ == StreamState::initial(),
            r.config() == (StreamConfig { ticker_info, push_freq, size_unit }),
    {
        MarketStream {
            config: StreamConfig { ticker_info, push_freq, size_unit },
            phase: Phase::Disconnected,
            orderbook: LocalDepthCache::default(),
            trades_buffer: Vec::new(),
            prev_id: 0,
        }
    }

    /// Where the stream stands.
    pub fn phase(&self) -> (r: Phase)
        ensures
            r == self@.phase,
    {
        self.phase
    }

    /// Whether the stream has a connection.
    pub fn is_connected(&self) -> (r: bool)
        ensures
            r == (self@.phase != Phase::Disconnected),
    {
        self.phase != Phase::Disconnected
    }

    /// The instrument of the stream.
    pub fn ticker_info(&self) -> (r: &TickerInfo)
        ensures
            *r == self.config().ticker_info,
    {
        &self.config.ticker_info
    }

    /// The book of the stream.
    pub fn orderbook(&self) -> (r: &LocalDepthCache)
        ensures
            r@ == self@.cache,
    {
        &self.orderbook
    }

    /// The id with which the last applied change ended.
    pub fn prev_id(&self) -> (r: u64)
        ensures
            r == self@.prev_id,
    {
        self.prev_id
    }

    /// The number of trades that wait for the next book.
    pub fn pending_trades(&self) -> (r: usize)
        ensures
            r == self@.trades.len(),
    {
        self.trades_buffer.len()
    }

    /// Writes the address of the stream: the trades and the depth of the
    /// instrument on one connection.
    pub fn stream_url(&self) -> (r: String)
        ensures
            r@ == market_stream_url(self.config().ticker_info.ticker.symbol@),
    {
        let (symbol_str, _market) = self.config.ticker_info.ticker.to_full_symbol_and_type();
        let lower = to_lowercase(symbol_str.as_str());
        market_stream_address(lower.as_str())
    }

    /// The driver could not connect: it waits, then says so.
    pub fn on_connect_failed(&self) -> (r: Outcome)
        ensures
            r@ == (OutcomeView {
                directive: Directive::Backoff(RECONNECT_BACKOFF_MS),
                event: Some(
                    EventView::Disconnected(
                        self.config().exchange(),
                        "Failed to connect to websocket"@,
                    ),
                ),
            }),
    {
        Outcome {
            directive: Directive::Backoff(RECONNECT_BACKOFF_MS),
            event: Some(
                Event::Disconnected(
                    self.config.ticker_info.ticker.exchange,
                    String::from_str("Failed to connect to websocket"),
                ),
            ),
        }
    }

    /// The driver connected and asked for a snapshot: the snapshot seeds the
    /// book and the stream is synchronized, or the stream stays
    /// disconnected and says why.
    pub fn on_connected(&mut self, result: Result<DepthPayload, SnapshotFailure>) -> (r: Outcome)
        ensures
            final(self)@ == old(self)@.after_connect(old(self).config(), result),
            final(self).config() == old(self).config(),
            r@ == old(self)@.connect_outcome(old(self).config(), result),
    {
        if self.phase != Phase::Disconnected {
            return Outcome { directive: Directive::Continue, event: None };
        }
        let exchange = self.config.ticker_info.ticker.exchange;
        match result {
            Ok(snapshot) => {
                self.orderbook.update(
                    DepthUpdate::Snapshot(snapshot),
                    self.config.ticker_info.min_ticksize,
                );
                self.prev_id = 0;
                self.phase = Phase::Synchronized;
                Outcome { directive: Directive::Continue, event: Some(Event::Connected(exchange)) }
            },
            Err(failure) => Outcome {
                directive: Directive::Continue,
                event: Some(Event::Disconnected(exchange, connect_failure_text(&failure))),
            },
        }
    }

    /// The answer to a request for a new snapshot: the snapshot seeds the
    /// book anew and the stream is synchronized again, or the stream is
    /// disconnected and says why.
    pub fn on_resync(&mut self, result: Result<DepthPayload, SnapshotFailure>) -> (r: Outcome)
        ensures
            final(self)@ == old(self)@.after_resync(old(self).config(), result),
            final(self).config() == old(self).config(),
            r@ == old(self)@.resync_outcome(old(self).config(), result),
    {
        if self.phase != Phase::Resyncing {
            return Outcome { directive: Directive::Continue, event: None };
        }
        match result {
            Ok(snapshot) => {
                self.orderbook.update(
                    DepthUpdate::Snapshot(snapshot),
                    self.config.ticker_info.min_ticksize,
                );
                self.prev_id = 0;
                self.phase = Phase::Synchronized;
                Outcome { directive: Directive::Continue, event: None }
            },
            Err(failure) => {
                self.phase = Phase::Disconnected;
                let reason = resync_failure_text(
                    self.config.ticker_info.ticker.symbol.as_str(),
                    &failure,
                );
                Outcome {
                    directive: Directive::Continue,
                    event: Some(
                        Event::Disconnected(self.config.ticker_info.ticker.exchange, reason),
                    ),
                }
            },
        }
    }

    /// A trade arrived: it waits for the next book.
    pub fn on_trade(&mut self, de_trade: SonicTrade)
        ensures
            final(self)@ == old(self)@.after_trade(old(self).config(), de_trade),
            final(self).config() == old(self).config(),
    {
        if self.phase == Phase::Disconnected {
            return ;
        }
        let size_in_quote_ccy = self.config.size_unit == SizeUnit::Quote;
        let price = de_trade.price.round_to_min_tick(self.config.ticker_info.min_ticksize);
        let qty = calc_qty(
            de_trade.qty,
            de_trade.price,
            self.config.ticker_info.contract_size,
            size_in_quote_ccy,
        );
        let trade = Trade { time: de_trade.time, is_sell: de_trade.is_sell, price, qty };
        self.trades_buffer.push(trade);
    }

    /// A change of the book arrived.
    pub fn on_depth(&mut self, depth_type: &SonicDepth) -> (r: Outcome)
        ensures
            final(self).config() == old(self).config(),
            match *depth_type {
                SonicDepth::Perp(de) => {
                    &&& final(self)@ == old(self)@.after_depth(old(self).config(), de)
                    &&& r@ == old(self)@.depth_outcome(old(self).config(), de)
                },
            },
    {
        match depth_type {
            SonicDepth::Perp(de_depth) => {
                let verdict = classify_diff(
                    self.phase,
                    self.orderbook.last_update_id,
                    self.prev_id,
                    de_depth.first_id,
                    de_depth.final_id,
                    de_depth.prev_final_id,
                );
                match verdict {
                    DiffVerdict::Ignore => Outcome { directive: Directive::Continue, event: None },
                    DiffVerdict::Resync => {
                        self.phase = Phase::Resyncing;
                        Outcome { directive: Directive::FetchSnapshot, event: None }
                    },
                    DiffVerdict::Apply => {
                        let size_in_quote_ccy = self.config.size_unit == SizeUnit::Quote;
                        let contract_size = self.config.ticker_info.contract_size;
                        let payload = new_depth_cache(depth_type, contract_size, size_in_quote_ccy);
                        self.orderbook.update(
                            DepthUpdate::Diff(payload),
                            self.config.ticker_info.min_ticksize,
                        );
                        let mut batch: Vec<Trade> = Vec::new();
                        std::mem::swap(&mut self.trades_buffer, &mut batch);
                        self.prev_id = de_depth.final_id;
                        let kind = StreamKind::DepthAndTrades {
                            ticker_info: self.config.ticker_info.clone(),
                            depth_aggr: StreamTicksize::Client,
                            push_freq: self.config.push_freq,
                        };
                        Outcome {
                            directive: Directive::Continue,
                            event: Some(
                                Event::DepthReceived(
                                    kind,
                                    de_depth.time,
                                    self.orderbook.depth.clone(),
                                    batch,
                                ),
                            ),
                        }
                    },
                    DiffVerdict::Gap => {
                        self.phase = Phase::Disconnected;
                        Outcome {
                            directive: Directive::Continue,
                            event: Some(
                                Event::Disconnected(
                                    self.config.ticker_info.ticker.exchange,
                                    out_of_sync_text(de_depth.prev_final_id, self.prev_id),
                                ),
                            ),
                        }
                    },
                }
            },
        }
    }

    /// A message arrived: a trade waits for the next book, a change of the
    /// book goes through the protocol, and a bar is none of this stream's.
    pub fn on_message(&mut self, data: &StreamData) -> (r: Outcome)
        ensures
            final(self).config() == old(self).config(),
            match *data {
                StreamData::Trade(trade) => {
                    &&& final(self)@ == old(self)@.after_trade(old(self).config(), trade)
                    &&& r@ == OutcomeView::quiet()
                },
                StreamData::Depth(SonicDepth::Perp(de)) => {
                    &&& final(self)@ == old(self)@.after_depth(old(self).config(), de)
                    &&& r@ == old(self)@.depth_outcome(old(self).config(), de)
                },
                StreamData::Kline(_, _) => {
                    &&& final(self)@ == old(self)@
                    &&& r@ == OutcomeView::quiet()
                },
            },
    {
        match data {
            StreamData::Trade(trade) => {
                self.on_trade(*trade);
                Outcome { directive: Directive::Continue, event: None }
            },
            StreamData::Depth(depth) => self.on_depth(depth),
            StreamData::Kline(_, _) => Outcome { directive: Directive::Continue, event: None },
        }
    }

    /// A frame arrived: a text frame whose message could be read is taken
    /// as that message, a close frame ends the connection, and any other
    /// frame, or a text frame that could not be read, is passed over.
    pub fn on_frame(&mut self, kind: FrameKind, data: Option<&StreamData>) -> (r: Outcome)
        ensures
            final(self).config() == old(self).config(),
            match kind {
                FrameKind::Text => match data {
                    Some(StreamData::Trade(trade)) => {
                        &&& final(self)@ == old(self)@.after_trade(old(self).config(), *trade)
                        &&& r@ == OutcomeView::quiet()
                    },
                    Some(StreamData::Depth(SonicDepth::Perp(de))) => {
                        &&& final(self)@ == old(self)@.after_depth(old(self).config(), *de)
                        &&& r@ == old(self)@.depth_outcome(old(self).config(), *de)
                    },
                    _ => {
                        &&& final(self)@ == old(self)@
                        &&& r@ == OutcomeView::quiet()
                    },
                },
                FrameKind::Close => {
                    &&& final(self)@ == old(self)@.dropped()
                    &&& r@ == old(self)@.drop_outcome(old(self).config(), "Connection closed"@)
                },
                FrameKind::Other => {
                    &&& final(self)@ == old(self)@
                    &&& r@ == OutcomeView::quiet()
                },
            },
    {
        match kind {
            FrameKind::Text => match data {
                Some(message) => self.on_message(message),
                None => Outcome { directive: Directive::Continue, event: None },
            },
            FrameKind::Close => self.on_close(),
            FrameKind::Other => Outcome { directive: Directive::Continue, event: None },
        }
    }

    /// The connection goes for the reason given.
    fn drop_connection(&mut self, reason: String) -> (r: Outcome)
        ensures
            final(self)@ == old(self)@.dropped(),
            final(self).config() == old(self).config(),
            r@ == old(self)@.drop_outcome(old(self).config(), reason@),
    {
        if self.phase == Phase::Disconnected {
            return Outcome { directive: Directive::Continue, event: None };
        }
        self.phase = Phase::Disconnected;
        Outcome {
            directive: Directive::Continue,
            event: Some(Event::Disconnected(self.config.ticker_info.ticker.exchange, reason)),
        }
    }

    /// The exchange closed the connection.
    pub fn on_close(&mut self) -> (r: Outcome)
        ensures
            final(self)@ == old(self)@.dropped(),
            final(self).config() == old(self).config(),
            r@ == old(self)@.drop_outcome(old(self).config(), "Connection closed"@),
    {
        self.drop_connection(String::from_str("Connection closed"))
    }

    /// Reading a frame failed.
    pub fn on_read_error(&mut self, error: &str) -> (r: Outcome)
        ensures
            final(self)@ == old(self)@.dropped(),
            final(self).config() == old(self).config(),
            r@ == old(self)@.drop_outcome(
                old(self).config(),
                "Error reading frame: "@ + error@,
            ),
    {
        self.drop_connection(String::from_str("Error reading frame: ").concat(error))
    }
}

} // verus!
