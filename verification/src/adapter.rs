//! What arrives on the stream of the exchange: the envelope that names the
//! logical stream a message belongs to, and the messages themselves.

use crate::depth::{DeOrder, DepthPayload};
use crate::market::{AdapterError, Exchange, MarketKind, Ticker};
use crate::price::Price;
use crate::qty::{calc_qty, reported_qty};
use vstd::prelude::*;
use vstd::string::{StringExecFns, StringSliceAdditionalSpecFns};
use vstd::utf8::encode_utf8;

verus! {

/// The host that streams are read from.
pub const WS_DOMAIN: &'static str = "fstream.binance.com";

/// The exchange behind a kind of market.
pub fn exchange_from_market_type(_market: MarketKind) -> (r: Exchange)
    ensures
        r == Exchange::Forex,
{
    Exchange::Forex
}

/// The host that streams of a kind of market are read from.
pub fn ws_domain_from_market_type(_market: MarketKind) -> (r: &'static str)
    ensures
        r@ == WS_DOMAIN@,
{
    WS_DOMAIN
}

/// A trade as the exchange sends it.
#[derive(Clone, Copy, Debug, PartialEq, Eq, Structural)]
pub struct SonicTrade {
    pub time: u64,
    pub price: Price,
    pub qty: u64,
    pub is_sell: bool,
}

/// A change of the book as the exchange sends it: the levels, the ids of
/// the first and of the last update that it covers, and the id of the last
/// update of the change before it.
#[derive(Debug)]
pub struct PerpDepth {
    pub time: u64,
    pub first_id: u64,
    pub final_id: u64,
    pub prev_final_id: u64,
    pub bids: Vec<DeOrder>,
    pub asks: Vec<DeOrder>,
}

/// A change of the book, by the kind of market it comes from.
#[derive(Debug)]
pub enum SonicDepth {
    Perp(PerpDepth),
}

/// A bar as the exchange sends it: the volume whole, and the part of it
/// that takers bought.
#[derive(Debug)]
pub struct SonicKline {
    pub time: u64,
    pub open: Price,
    pub high: Price,
    pub low: Price,
    pub close: Price,
    pub volume: u64,
    pub taker_buy_base_asset_volume: u64,
    pub interval: String,
}

/// A message of the stream.
#[derive(Debug)]
pub enum StreamData {
    Trade(SonicTrade),
    Depth(SonicDepth),
    Kline(Ticker, SonicKline),
}

/// The logical stream that a message belongs to.
#[derive(Clone, Copy, Debug, PartialEq, Eq, Structural)]
pub enum StreamWrapper {
    Trade,
    Depth,
    Kline,
}

/// `i` is where the first `@` of the text stands.
pub open spec fn is_first_at(s: Seq<u8>, i: int) -> bool {
    &&& 0 <= i < s.len()
    &&& s[i] == 0x40
    &&& forall|j: int| 0 <= j < i ==> s[j] != 0x40
}

/// The stream that the two letters at `i` name.
pub open spec fn tag_at(s: Seq<u8>, i: int) -> Option<StreamWrapper> {
    if i + 1 < s.len() {
        if s[i] == 0x64 && s[i + 1] == 0x65 {
            Some(StreamWrapper::Depth)
        } else if s[i] == 0x61 && s[i + 1] == 0x67 {
            Some(StreamWrapper::Trade)
        } else if s[i] == 0x6b && s[i + 1] == 0x6c {
            Some(StreamWrapper::Kline)
        } else {
            None
        }
    } else {
        None
    }
}

/// The stream that a stream name belongs to: what follows its first `@`
/// begins with `de` for depth, `ag` for trades, `kl` for bars.
pub open spec fn stream_kind(s: Seq<u8>) -> Option<StreamWrapper> {
    if exists|i: int| is_first_at(s, i) {
        tag_at(s, (choose|i: int| is_first_at(s, i)) + 1)
    } else {
        None
    }
}

impl StreamWrapper {
    /// Reads the logical stream off a stream name.
    pub fn from_stream_type(stream_type: &str) -> (r: Option<StreamWrapper>)
        ensures
            r == stream_kind(stream_type.spec_bytes()),
    {
        let bytes = stream_type.as_bytes();
        let n: usize = bytes.len();
        let mut i: usize = 0;
        while i < n && bytes[i] != 0x40
            invariant
                0 <= i <= n,
                n == bytes@.len(),
                forall|j: int| 0 <= j < i ==> bytes@[j] != 0x40,
            decreases n - i,
        {
            i += 1;
        }
        if i >= n {
            assert(forall|k: int| !is_first_at(bytes@, k));
            return None;
        }
        proof {
            assert(is_first_at(bytes@, i as int));
            let c = choose|k: int| is_first_at(bytes@, k);
            assert(c == i) by {
                if c < i {
                    assert(bytes@[c] != 0x40);
                } else if i < c {
                    assert(bytes@[i as int] == 0x40);
                }
            }
        }
        if n - i < 3 {
            return None;
        }
        let a: u8 = bytes[i + 1];
        let b: u8 = bytes[i + 2];
        if a == 0x64 && b == 0x65 {
            Some(StreamWrapper::Depth)
        } else if a == 0x61 && b == 0x67 {
            Some(StreamWrapper::Trade)
        } else if a == 0x6b && b == 0x6c {
            Some(StreamWrapper::Kline)
        } else {
            None
        }
    }
}

/// One member of the envelope: its key, and the text of its value as it
/// stands in the envelope.
#[derive(Debug)]
pub struct EnvelopeEntry {
    pub key: String,
    pub raw: String,
}

/// A member of an envelope over plain values: the key and the text of the
/// value, or what was wrong where the member could not be read.
pub type EntryModel = Result<(Seq<char>, Seq<char>), Seq<char>>;

/// The model of one member.
pub open spec fn entry_model(e: Result<EnvelopeEntry, String>) -> EntryModel {
    match e {
        Ok(entry) => Ok((entry.key@, entry.raw@)),
        Err(msg) => Err(msg@),
    }
}

/// The models of the members.
pub open spec fn entries_model(entries: Seq<Result<EnvelopeEntry, String>>) -> Seq<EntryModel> {
    Seq::new(entries.len(), |i: int| entry_model(entries[i]))
}

/// How deep the brackets of a payload may nest. The messages of the
/// exchange nest four deep: the envelope, the message, a side of the book,
/// a level.
pub const MAX_NESTING: usize = 8;

/// Where a scan of a payload stands between two bytes.
#[derive(Clone, Copy, Debug, PartialEq, Eq, Structural)]
pub enum ScanMode {
    /// Outside any string.
    Outside,
    /// Inside a string.
    InString,
    /// Inside a string, just behind a backslash.
    Escape,
    /// Inside a string, with this many bytes of an escape still to pass
    /// over.
    Skip(u8),
}

/// What a scan of a payload has found: where it stands, how many brackets
/// are open, and the most that were open at once.
pub struct Scan {
    pub mode: ScanMode,
    pub depth: nat,
    pub deepest: nat,
}

/// The scan after one more byte. Outside strings a quote begins a string,
/// `{` and `[` open a bracket, `}` and `]` close one. Inside a string a
/// quote ends it and a backslash escapes what follows: the next byte, and
/// four more where that byte is `u`.
pub open spec fn scan_step(s: Scan, b: u8) -> Scan {
    match s.mode {
        ScanMode::Skip(k) => Scan {
            mode: if k <= 1 {
                ScanMode::InString
            } else {
                ScanMode::Skip((k - 1) as u8)
            },
            ..s
        },
        ScanMode::Escape => Scan {
            mode: if b == 0x75 {
                ScanMode::Skip(4)
            } else {
                ScanMode::InString
            },
            ..s
        },
        ScanMode::InString => Scan {
            mode: if b == 0x5c {
                ScanMode::Escape
            } else if b == 0x22 {
                ScanMode::Outside
            } else {
                ScanMode::InString
            },
            ..s
        },
        ScanMode::Outside => {
            if b == 0x22 {
                Scan { mode: ScanMode::InString, ..s }
            } else if b == 0x7b || b == 0x5b {
                Scan {
                    mode: ScanMode::Outside,
                    depth: s.depth + 1,
                    deepest: if s.depth + 1 > s.deepest {
                        s.depth + 1
                    } else {
                        s.deepest
                    },
                }
            } else if b == 0x7d || b == 0x5d {
                Scan {
                    mode: ScanMode::Outside,
                    depth: if s.depth > 0 {
                        (s.depth - 1) as nat
                    } else {
                        0
                    },
                    deepest: s.deepest,
                }
            } else {
                s
            }
        },
    }
}

/// The scan of a whole payload, byte by byte from its beginning.
pub open spec fn scan(bytes: Seq<u8>) -> Scan
    decreases bytes.len(),
{
    if bytes.len() == 0 {
        Scan { mode: ScanMode::Outside, depth: 0, deepest: 0 }
    } else {
        scan_step(scan(bytes.drop_last()), bytes.last())
    }
}

/// The most brackets that are open at once in a payload, brackets inside
/// strings not counted.
pub open spec fn nesting_depth(bytes: Seq<u8>) -> nat {
    scan(bytes).deepest
}

/// The brackets of a payload nest no deeper than is read.
pub open spec fn nesting_within_limit(bytes: Seq<u8>) -> bool {
    nesting_depth(bytes) <= MAX_NESTING
}

/// Whether the brackets of a payload nest no deeper than is read.
pub fn is_nesting_within_limit(slice: &[u8]) -> (r: bool)
    ensures
        r == nesting_within_limit(slice@),
{
    let mut mode = ScanMode::Outside;
    let mut depth: usize = 0;
    let mut deepest: usize = 0;
    let mut i: usize = 0;
    while i < slice.len()
        invariant
            0 <= i <= slice.len(),
            depth <= i,
            deepest <= i,
            scan(slice@.take(i as int)) == (Scan {
                mode,
                depth: depth as nat,
                deepest: deepest as nat,
            }),
        decreases slice.len() - i,
    {
        let b: u8 = slice[i];
        proof {
            assert(slice@.take(i + 1).drop_last() =~= slice@.take(i as int));
            assert(slice@.take(i + 1).last() == b);
        }
        match mode {
            ScanMode::Skip(k) => {
                mode = if k <= 1 {
                    ScanMode::InString
                } else {
                    ScanMode::Skip(k - 1)
                };
            },
            ScanMode::Escape => {
                mode = if b == 0x75 {
                    ScanMode::Skip(4)
                } else {
                    ScanMode::InString
                };
            },
            ScanMode::InString => {
                mode = if b == 0x5c {
                    ScanMode::Escape
                } else if b == 0x22 {
                    ScanMode::Outside
                } else {
                    ScanMode::InString
                };
            },
            ScanMode::Outside => {
                if b == 0x22 {
                    mode = ScanMode::InString;
                } else if b == 0x7b || b == 0x5b {
                    depth = depth + 1;
                    if depth > deepest {
                        deepest = depth;
                    }
                } else if b == 0x7d || b == 0x5d {
                    if depth > 0 {
                        depth = depth - 1;
                    }
                }
            },
        }
        i += 1;
    }
    proof {
        assert(slice@.take(i as int) =~= slice@);
    }
    deepest <= MAX_NESTING
}

/// The members of the JSON object that a payload holds, in the order in
/// which they stand, up to and with the first that cannot be read.
pub uninterp spec fn envelope_entries(payload: Seq<u8>) -> Seq<
    Result<(Seq<char>, Seq<char>), Seq<char>>,
>;

/// Reads the members of the JSON object that a payload holds.
///
/// Trusted: this is `sonic_rs::to_object_iter`, walked to its end. The
/// iterator yields each member as its key and the raw text of its value;
/// where the text is no JSON object, or breaks off, it yields the error
/// once and ends. What it yields depends on the payload alone. It passes
/// over a value by calling itself once for each bracket that the value
/// opens inside another, which costs stack with every bracket, and tells
/// strings from what stands outside them as the scan does; so it is given
/// only payloads whose brackets nest within the limit.
#[verifier::external_body]
fn object_entries(slice: &[u8]) -> (r: Vec<Result<EnvelopeEntry, String>>)
    requires
        nesting_within_limit(slice@),
    ensures
        entries_model(r@) == envelope_entries(slice@),
{
    sonic_rs::to_object_iter(slice).map(
        |elem| match elem {
            Ok((k, v)) => Ok(EnvelopeEntry { key: k.into_owned(), raw: v.as_raw_str().to_string() }),
            Err(e) => Err(e.to_string()),
        },
    ).collect()
}

/// What a message is to be read as, and which member holds it; or why the
/// envelope names no message.
pub type Routing = Result<(StreamWrapper, int), Seq<char>>;

/// Where the members from `i` on lead, `kind` being the stream that the
/// members before named: a member `stream` names the stream if its value
/// reads as one, the first member `data` after a stream was named is the
/// message, a member that cannot be read ends the search with its error,
/// and an envelope that runs out has no message.
pub open spec fn route_from(entries: Seq<EntryModel>, i: int, kind: Option<StreamWrapper>) -> Routing
    decreases entries.len() - i,
{
    if i < 0 || i >= entries.len() {
        Err("Failed to parse ws data"@)
    } else {
        match entries[i] {
            Err(e) => Err(e),
            Ok((key, raw)) => {
                if key == "stream"@ {
                    match stream_kind(encode_utf8(raw)) {
                        Some(named) => route_from(entries, i + 1, Some(named)),
                        None => route_from(entries, i + 1, kind),
                    }
                } else if key == "data"@ {
                    match kind {
                        Some(named) => Ok((named, i)),
                        None => route_from(entries, i + 1, kind),
                    }
                } else {
                    route_from(entries, i + 1, kind)
                }
            },
        }
    }
}

/// Where an envelope leads.
pub open spec fn route(entries: Seq<EntryModel>) -> Routing {
    route_from(entries, 0, None)
}

/// Finds the message in the members of an envelope.
pub fn route_entries(entries: &Vec<Result<EnvelopeEntry, String>>) -> (r: Result<
    (StreamWrapper, usize),
    AdapterError,
>)
    ensures
        match route(entries_model(entries@)) {
            Ok((kind, i)) => r is Ok && r->Ok_0.0 == kind && r->Ok_0.1 == i && i < entries.len()
                && entries[i] is Ok,
            Err(msg) => r is Err && r->Err_0 is ParseError && r->Err_0->ParseError_0@ == msg,
        },
{
    let stream_key = String::from_str("stream");
    let data_key = String::from_str("data");
    let ghost model = entries_model(entries@);
    let mut stream_type: Option<StreamWrapper> = None;
    let mut i: usize = 0;
    while i < entries.len()
        invariant
            0 <= i <= entries.len(),
            model == entries_model(entries@),
            stream_key@ == "stream"@,
            data_key@ == "data"@,
            route(model) == route_from(model, i as int, stream_type),
        decreases entries.len() - i,
    {
        proof {
            assert(model[i as int] == entry_model(entries@[i as int]));
        }
        match &entries[i] {
            Err(e) => {
                return Err(AdapterError::ParseError(e.clone()));
            },
            Ok(entry) => {
                if entry.key == stream_key {
                    match StreamWrapper::from_stream_type(entry.raw.as_str()) {
                        Some(named) => {
                            stream_type = Some(named);
                        },
                        None => {},
                    }
                } else if entry.key == data_key {
                    match stream_type {
                        Some(named) => {
                            return Ok((named, i));
                        },
                        None => {},
                    }
                }
            },
        }
        i += 1;
    }
    Err(AdapterError::ParseError(String::from_str("Failed to parse ws data")))
}

/// What is said of a payload whose brackets nest deeper than is read.
pub open spec fn too_deep_message() -> Seq<char> {
    "Payload nested too deeply"@
}

/// Reads the envelope of a payload: which logical stream the message
/// belongs to, and the text of the message, which is then read as a trade,
/// a change of the book or a bar. A payload whose brackets nest deeper than
/// the limit is refused unread.
pub fn feed_de(slice: &[u8], _market: MarketKind) -> (r: Result<(StreamWrapper, String), AdapterError>)
    ensures
        !nesting_within_limit(slice@) ==> r is Err && r->Err_0 is ParseError
            && r->Err_0->ParseError_0@ == too_deep_message(),
        nesting_within_limit(slice@) ==> match route(envelope_entries(slice@)) {
            Ok((kind, i)) => r is Ok && r->Ok_0.0 == kind && envelope_entries(slice@)[i] == Ok::<
                (Seq<char>, Seq<char>),
                Seq<char>,
            >((("data"@), r->Ok_0.1@)),
            Err(msg) => r is Err && r->Err_0 is ParseError && r->Err_0->ParseError_0@ == msg,
        },
{
    if !is_nesting_within_limit(slice) {
        return Err(AdapterError::ParseError(String::from_str("Payload nested too deeply")));
    }
    let entries = object_entries(slice);
    match route_entries(&entries) {
        Ok((kind, i)) => {
            proof {
                assert(entries_model(entries@)[i as int] == entry_model(entries@[i as int]));
                lemma_routed_member_is_data(entries_model(entries@), 0, None);
            }
            match &entries[i] {
                Ok(entry) => Ok((kind, entry.raw.clone())),
                Err(e) => Err(AdapterError::ParseError(e.clone())),
            }
        },
        Err(e) => Err(e),
    }
}

/// The member that an envelope leads to has the key `data`.
pub proof fn lemma_routed_member_is_data(
    entries: Seq<EntryModel>,
    i: int,
    kind: Option<StreamWrapper>,
)
    requires
        0 <= i,
    ensures
        route_from(entries, i, kind) is Ok ==> {
            let at = route_from(entries, i, kind)->Ok_0.1;
            &&& i <= at < entries.len()
            &&& entries[at] is Ok
            &&& entries[at]->Ok_0.0 == "data"@
        },
    decreases entries.len() - i,
{
    if i < entries.len() {
        match entries[i] {
            Err(e) => {},
            Ok((key, raw)) => {
                if key == "stream"@ {
                    match stream_kind(encode_utf8(raw)) {
                        Some(named) => lemma_routed_member_is_data(entries, i + 1, Some(named)),
                        None => lemma_routed_member_is_data(entries, i + 1, kind),
                    }
                } else if key == "data"@ {
                    match kind {
                        Some(named) => {},
                        None => lemma_routed_member_is_data(entries, i + 1, kind),
                    }
                } else {
                    lemma_routed_member_is_data(entries, i + 1, kind);
                }
            },
        }
    }
}

/// The levels of a side as they are reported: each quantity in the unit
/// that the setting asks for, at the price of its level.
pub open spec fn reported_levels(
    levels: Seq<DeOrder>,
    contract_size: Option<u64>,
    size_in_quote_ccy: bool,
) -> Seq<DeOrder> {
    Seq::new(
        levels.len(),
        |i: int|
            DeOrder {
                price: levels[i].price,
                qty: reported_qty(levels[i].qty, levels[i].price, contract_size, size_in_quote_ccy),
            },
    )
}

/// Reports the levels of a side in the unit that the setting asks for.
pub fn report_levels(levels: &Vec<DeOrder>, contract_size: Option<u64>, size_in_quote_ccy: bool) -> (r:
    Vec<DeOrder>)
    ensures
        r@ == reported_levels(levels@, contract_size, size_in_quote_ccy),
{
    let mut out: Vec<DeOrder> = Vec::new();
    let mut i: usize = 0;
    while i < levels.len()
        invariant
            0 <= i <= levels.len(),
            out@.len() == i,
            forall|j: int|
                0 <= j < i ==> out@[j] == reported_levels(
                    levels@,
                    contract_size,
                    size_in_quote_ccy,
                )[j],
        decreases levels.len() - i,
    {
        let level = levels[i];
        out.push(
            DeOrder {
                price: level.price,
                qty: calc_qty(level.qty, level.price, contract_size, size_in_quote_ccy),
            },
        );
        i += 1;
    }
    assert(out@ =~= reported_levels(levels@, contract_size, size_in_quote_ccy));
    out
}

/// The payload that a change of the book makes: its levels as they are
/// reported, under the id of its last update.
pub open spec fn diff_payload(
    depth: SonicDepth,
    contract_size: Option<u64>,
    size_in_quote_ccy: bool,
    payload: DepthPayload,
) -> bool {
    match depth {
        SonicDepth::Perp(de) => {
            &&& payload.last_update_id == de.final_id
            &&& payload.time == de.time
            &&& payload.bids@ == reported_levels(de.bids@, contract_size, size_in_quote_ccy)
            &&& payload.asks@ == reported_levels(de.asks@, contract_size, size_in_quote_ccy)
        },
    }
}

/// Makes the payload of a change of the book.
pub fn new_depth_cache(depth: &SonicDepth, contract_size: Option<u64>, size_in_quote_ccy: bool) -> (r:
    DepthPayload)
    ensures
        diff_payload(*depth, contract_size, size_in_quote_ccy, r),
{
    match depth {
        SonicDepth::Perp(de) => DepthPayload {
            last_update_id: de.final_id,
            time: de.time,
            bids: report_levels(&de.bids, contract_size, size_in_quote_ccy),
            asks: report_levels(&de.asks, contract_size, size_in_quote_ccy),
        },
    }
}

} // verus!
