//! Value types shared by the decision machines and the broker adapter.
use vstd::prelude::*;
use vstd::string::*;

verus! {

/// Fixed-point units in one price point.
pub const UNITS_PER_POINT: i64 = 1_000_000;

/// The four working orders the strategy can place around the opening range.
#[derive(Clone, Copy, Debug, PartialEq, Eq, Structural, Hash)]
pub enum OrderReference {
    OVER_LONG,
    BETWEEN_LONG,
    BETWEEN_SHORT,
    UNDER_SHORT,
}

/// The tag name of a reference, as the broker echoes it back.
pub open spec fn reference_name(r: OrderReference) -> Seq<char> {
    match r {
        OrderReference::OVER_LONG => "OVER_LONG"@,
        OrderReference::BETWEEN_LONG => "BETWEEN_LONG"@,
        OrderReference::BETWEEN_SHORT => "BETWEEN_SHORT"@,
        OrderReference::UNDER_SHORT => "UNDER_SHORT"@,
    }
}

/// The stable small-integer id of a reference.
pub open spec fn reference_id(r: OrderReference) -> nat {
    match r {
        OrderReference::OVER_LONG => 1,
        OrderReference::BETWEEN_LONG => 2,
        OrderReference::BETWEEN_SHORT => 3,
        OrderReference::UNDER_SHORT => 4,
    }
}

/// The reference with id `id` (ids run from 1 to 4).
pub open spec fn reference_with_id(id: nat) -> OrderReference {
    if id == 1 {
        OrderReference::OVER_LONG
    } else if id == 2 {
        OrderReference::BETWEEN_LONG
    } else if id == 3 {
        OrderReference::BETWEEN_SHORT
    } else {
        OrderReference::UNDER_SHORT
    }
}

/// The reference whose tag name is `s`, if any.
pub open spec fn reference_named(s: Seq<char>) -> Option<OrderReference> {
    if s == "OVER_LONG"@ {
        Some(OrderReference::OVER_LONG)
    } else if s == "BETWEEN_LONG"@ {
        Some(OrderReference::BETWEEN_LONG)
    } else if s == "BETWEEN_SHORT"@ {
        Some(OrderReference::BETWEEN_SHORT)
    } else if s == "UNDER_SHORT"@ {
        Some(OrderReference::UNDER_SHORT)
    } else {
        None
    }
}

/// Whether two strings hold the same characters.
pub fn same_text(a: &str, b: &str) -> (r: bool)
    ensures
        r == (a@ == b@),
{
    let n = a.unicode_len();
    if n != b.unicode_len() {
        return false;
    }
    let mut i: usize = 0;
    while i < n
        invariant
            n == a@.len(),
            n == b@.len(),
            i <= n,
            forall|j: int| 0 <= j < i ==> a@[j] == b@[j],
        decreases n - i,
    {
        if a.get_char(i) != b.get_char(i) {
            return false;
        }
        i = i + 1;
    }
    assert(a@ =~= b@);
    true
}

impl OrderReference {
    /// Parses a tag name; any other text is no reference.
    pub fn parse(s: &str) -> (r: Option<OrderReference>)
        ensures
            r == reference_named(s@),
    {
        proof {
            reveal_strlit("OVER_LONG");
            reveal_strlit("BETWEEN_LONG");
            reveal_strlit("BETWEEN_SHORT");
            reveal_strlit("UNDER_SHORT");
        }
        if same_text(s, "OVER_LONG") {
            Some(OrderReference::OVER_LONG)
        } else if same_text(s, "BETWEEN_LONG") {
            Some(OrderReference::BETWEEN_LONG)
        } else if same_text(s, "BETWEEN_SHORT") {
            Some(OrderReference::BETWEEN_SHORT)
        } else if same_text(s, "UNDER_SHORT") {
            Some(OrderReference::UNDER_SHORT)
        } else {
            None
        }
    }

    /// Whether the reference buys (enters long).
    pub open spec fn is_long_spec(self) -> bool {
        self == OrderReference::OVER_LONG || self == OrderReference::BETWEEN_LONG
    }
}

/// The id of the reference named `val`.
pub fn get_reference_id(val: &str) -> (r: usize)
    requires
        reference_named(val@) is Some,
    ensures
        r == reference_id(reference_named(val@)->0),
{
    match OrderReference::parse(val) {
        Some(OrderReference::OVER_LONG) => 1,
        Some(OrderReference::BETWEEN_LONG) => 2,
        Some(OrderReference::BETWEEN_SHORT) => 3,
        Some(OrderReference::UNDER_SHORT) => 4,
        None => 0,
    }
}

/// The tag name of the reference with id `val`.
pub fn get_reference_from_id(val: u32) -> (r: String)
    requires
        1 <= val <= 4,
    ensures
        r@ == reference_name(reference_with_id(val as nat)),
{
    proof {
        reveal_strlit("OVER_LONG");
        reveal_strlit("BETWEEN_LONG");
        reveal_strlit("BETWEEN_SHORT");
        reveal_strlit("UNDER_SHORT");
    }
    if val == 1 {
        "OVER_LONG".to_owned()
    } else if val == 2 {
        "BETWEEN_LONG".to_owned()
    } else if val == 3 {
        "BETWEEN_SHORT".to_owned()
    } else {
        "UNDER_SHORT".to_owned()
    }
}

/// The tag name of a reference as text.
pub fn reference_text(reference: OrderReference) -> (r: String)
    ensures
        r@ == reference_name(reference),
{
    proof {
        reveal_strlit("OVER_LONG");
        reveal_strlit("BETWEEN_LONG");
        reveal_strlit("BETWEEN_SHORT");
        reveal_strlit("UNDER_SHORT");
    }
    match reference {
        OrderReference::OVER_LONG => "OVER_LONG".to_owned(),
        OrderReference::BETWEEN_LONG => "BETWEEN_LONG".to_owned(),
        OrderReference::BETWEEN_SHORT => "BETWEEN_SHORT".to_owned(),
        OrderReference::UNDER_SHORT => "UNDER_SHORT".to_owned(),
    }
}

/// Marker between the reference id and the epic in a deal reference.
pub open spec fn deal_reference_marker() -> Seq<char> {
    "MYREF"@
}

/// The reference a deal reference `<id>MYREF<epic without dots>` names, with
/// `id` one of 1 to 4; any other text names none.
pub open spec fn deal_reference_of(s: Seq<char>) -> Option<OrderReference> {
    if s.len() >= 6 && s.subrange(1, 6) == deal_reference_marker() {
        if s[0] == '1' {
            Some(OrderReference::OVER_LONG)
        } else if s[0] == '2' {
            Some(OrderReference::BETWEEN_LONG)
        } else if s[0] == '3' {
            Some(OrderReference::BETWEEN_SHORT)
        } else if s[0] == '4' {
            Some(OrderReference::UNDER_SHORT)
        } else {
            None
        }
    } else {
        None
    }
}

/// `s` without its dots.
pub open spec fn without_dots(s: Seq<char>) -> Seq<char>
    decreases s.len(),
{
    if s.len() == 0 {
        s
    } else if s.last() == '.' {
        without_dots(s.drop_last())
    } else {
        without_dots(s.drop_last()).push(s.last())
    }
}

/// The id digit of a reference.
pub open spec fn reference_digit(r: OrderReference) -> char {
    match r {
        OrderReference::OVER_LONG => '1',
        OrderReference::BETWEEN_LONG => '2',
        OrderReference::BETWEEN_SHORT => '3',
        OrderReference::UNDER_SHORT => '4',
    }
}

/// The deal reference of a strategy order: its id digit, the marker, and the
/// epic without dots, unique per order and instrument.
pub open spec fn deal_reference_for(r: OrderReference, epic: Seq<char>) -> Seq<char> {
    seq![reference_digit(r)] + deal_reference_marker() + without_dots(epic)
}

/// Builds the deal reference the broker will echo back for an order.
pub fn encode_deal_reference(reference: OrderReference, epic: &str) -> (r: String)
    ensures
        r@ == deal_reference_for(reference, epic@),
{
    proof {
        reveal_strlit("1MYREF");
        reveal_strlit("2MYREF");
        reveal_strlit("3MYREF");
        reveal_strlit("4MYREF");
    }
    let mut out = match reference {
        OrderReference::OVER_LONG => "1MYREF".to_owned(),
        OrderReference::BETWEEN_LONG => "2MYREF".to_owned(),
        OrderReference::BETWEEN_SHORT => "3MYREF".to_owned(),
        OrderReference::UNDER_SHORT => "4MYREF".to_owned(),
    };
    proof {
        reveal_strlit("MYREF");
        assert(out@ =~= seq![reference_digit(reference)] + deal_reference_marker());
    }
    let n = epic.unicode_len();
    let mut i: usize = 0;
    while i < n
        invariant
            n == epic@.len(),
            i <= n,
            out@ == seq![reference_digit(reference)] + deal_reference_marker() + without_dots(epic@.take(i as int)),
        decreases n - i,
    {
        let c = epic.get_char(i);
        proof {
            assert(epic@.take(i + 1).drop_last() =~= epic@.take(i as int));
            assert(epic@.take(i + 1).last() == c);
        }
        if c != '.' {
            let piece = epic.substring_char(i, i + 1);
            out = out.concat(piece);
            proof {
                assert(piece@ =~= seq![c]);
            }
        }
        i = i + 1;
        proof {
            assert(out@ =~= seq![reference_digit(reference)] + deal_reference_marker() + without_dots(epic@.take(i as int)));
        }
    }
    assert(epic@.take(n as int) =~= epic@);
    out
}

/// Reads the reference out of a deal reference the broker echoes back.
pub fn decode_deal_reference(s: &str) -> (r: Option<OrderReference>)
    ensures
        r == deal_reference_of(s@),
{
    proof {
        reveal_strlit("MYREF");
    }
    let marker = "MYREF";
    assert(marker@.len() == 5);
    let n = s.unicode_len();
    if n < 6 {
        return None;
    }
    let mut i: usize = 0;
    while i < 5
        invariant
            n == s@.len(),
            n >= 6,
            marker@ == deal_reference_marker(),
            marker@.len() == 5,
            i <= 5,
            forall|j: int| 0 <= j < i ==> s@[j + 1] == marker@[j],
        decreases 5 - i,
    {
        if s.get_char(i + 1) != marker.get_char(i) {
            assert(s@.subrange(1, 6)[i as int] != deal_reference_marker()[i as int]);
            return None;
        }
        i = i + 1;
    }
    assert(s@.subrange(1, 6) =~= deal_reference_marker());
    let c = s.get_char(0);
    if c == '1' {
        Some(OrderReference::OVER_LONG)
    } else if c == '2' {
        Some(OrderReference::BETWEEN_LONG)
    } else if c == '3' {
        Some(OrderReference::BETWEEN_SHORT)
    } else if c == '4' {
        Some(OrderReference::UNDER_SHORT)
    } else {
        None
    }
}

/// Decoding the deal reference built for an order gives back its reference,
/// whatever the epic.
pub proof fn lemma_deal_reference_round_trip(reference: OrderReference, epic: Seq<char>)
    ensures
        deal_reference_of(deal_reference_for(reference, epic)) == Some(reference),
{
    reveal_strlit("MYREF");
    let s = deal_reference_for(reference, epic);
    assert(s.subrange(1, 6) =~= deal_reference_marker());
    assert(s[0] == reference_digit(reference));
}

/// Side of an order.
#[derive(Clone, Copy, Debug, PartialEq, Eq, Structural)]
pub enum Direction {
    BUY,
    SELL,
}

/// Whether the broker accepted a deal.
#[derive(Clone, Copy, Debug, PartialEq, Eq, Structural)]
pub enum DealStatus {
    ACCEPTED,
    REJECTED,
}

/// Status carried by a trade confirmation.
#[derive(Clone, Copy, Debug, PartialEq, Eq, Structural)]
pub enum ConfirmsStatus {
    AMENDED,
    CLOSED,
    DELETED,
    OPEN,
    PARTIALLY_CLOSED,
}

/// Status carried by a position update.
#[derive(Clone, Copy, Debug, PartialEq, Eq, Structural)]
pub enum BfgTradeStatus {
    OPEN,
    UPDATED,
    DELETED,
}

/// How a position is entered relative to the opening range.
#[derive(Clone, Copy, Debug, PartialEq, Eq, Structural)]
pub enum EntryMode {
    OverBuyEntry,
    BetweenSellEntry,
    BetweenBuyEntry,
    UnderSellEntry,
}

/// Where a price stands relative to the opening range.
#[derive(Clone, Copy, Debug, PartialEq, Eq, Structural)]
pub enum PriceRelativeOr {
    Over,
    Between,
    Under,
}

/// Which working orders a placement decision puts up.
#[derive(Clone, Copy, Debug, PartialEq, Eq, Structural)]
pub enum WorkingOrderPlacement {
    Over,
    Between,
    Under,
}

/// A bid/ask pair.
#[derive(Clone, Copy, Debug, PartialEq, Eq, Structural)]
pub struct Price {
    pub bid: i64,
    pub ask: i64,
}

/// One OHLC bar of bid/ask pairs.
#[derive(Clone, Copy, Debug, PartialEq, Eq, Structural)]
pub struct OhlcPrice {
    pub open: Price,
    pub close: Price,
    pub high: Price,
    pub low: Price,
}

/// A position update reduced to what the trading core reads.
#[derive(Clone, Debug)]
pub struct TradeUpdate {
    pub deal_status: DealStatus,
    pub status: BfgTradeStatus,
    pub deal_id: String,
    pub deal_reference: OrderReference,
}

/// A trade confirmation reduced to what the trading core reads.
#[derive(Clone, Debug)]
pub struct TradeConfirmation {
    pub deal_status: DealStatus,
    pub status: Option<ConfirmsStatus>,
    pub deal_id: String,
    pub deal_reference: OrderReference,
    pub reason: String,
}

/// A market order request.
#[derive(Clone, Copy, Debug)]
pub struct MarketOrderDetails {
    pub direction: Direction,
    pub size: usize,
}

/// A request for historical bars between two local timestamps (`yyyy-MM-ddTHH:mm:ss`).
#[derive(Clone, Debug)]
pub struct FetchDataDetails {
    pub start: String,
    pub end: String,
}

} // verus!
