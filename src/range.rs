//! The opening range: the price band formed by the first bars after the open.
use vstd::prelude::*;
use crate::decider::trunc_div;
use crate::models::OhlcPrice;

verus! {

/// Highest and lowest levels of the opening range, each with the bid or ask of
/// the same bar.
#[derive(Clone, Copy, Debug, PartialEq, Eq, Structural)]
pub struct OpeningRange {
    pub high_ask: i64,
    pub high_bid: i64,
    pub low_ask: i64,
    pub low_bid: i64,
}

/// Twice the middle price of the range's high.
pub open spec fn mid_high2(r: OpeningRange) -> int {
    r.high_bid + r.high_ask
}

/// Twice the middle price of the range's low.
pub open spec fn mid_low2(r: OpeningRange) -> int {
    r.low_bid + r.low_ask
}

/// Middle of the high minus middle of the low.
pub open spec fn range_size_of(r: OpeningRange) -> int {
    trunc_div(mid_high2(r) - mid_low2(r), 2)
}

/// Spread at the low of the range.
pub open spec fn spread_of(r: OpeningRange) -> int {
    r.low_ask - r.low_bid
}

impl OpeningRange {
    pub fn get_middle_price_high(&self) -> (r: i128)
        ensures
            r == trunc_div(mid_high2(*self), 2),
    {
        crate::decider::div_toward_zero(self.high_bid as i128 + self.high_ask as i128, 2)
    }

    pub fn get_middle_price_low(&self) -> (r: i128)
        ensures
            r == trunc_div(mid_low2(*self), 2),
    {
        crate::decider::div_toward_zero(self.low_bid as i128 + self.low_ask as i128, 2)
    }

    pub fn range_size(&self) -> (r: i128)
        ensures
            r == range_size_of(*self),
    {
        let twice = (self.high_bid as i128 + self.high_ask as i128) - (self.low_bid as i128
            + self.low_ask as i128);
        crate::decider::div_toward_zero(twice, 2)
    }

    pub fn spread(&self) -> (r: i128)
        ensures
            r == spread_of(*self),
    {
        self.low_ask as i128 - self.low_bid as i128
    }
}

/// `i` is the first bar whose high ask is the largest.
pub open spec fn is_first_highest(prices: Seq<OhlcPrice>, i: int) -> bool {
    &&& 0 <= i < prices.len()
    &&& forall|j: int| 0 <= j < prices.len() ==> prices[j].high.ask <= prices[i].high.ask
    &&& forall|j: int| 0 <= j < i ==> prices[j].high.ask < prices[i].high.ask
}

/// `i` is the first bar whose low ask is the smallest.
pub open spec fn is_first_lowest(prices: Seq<OhlcPrice>, i: int) -> bool {
    &&& 0 <= i < prices.len()
    &&& forall|j: int| 0 <= j < prices.len() ==> prices[i].low.ask <= prices[j].low.ask
    &&& forall|j: int| 0 <= j < i ==> prices[i].low.ask < prices[j].low.ask
}

/// The opening range of a non-empty list of bars: the largest high ask with the
/// high bid of the same bar, and the smallest low ask with the low bid of the
/// same bar; on ties the earliest bar counts.
pub open spec fn opening_range_of(prices: Seq<OhlcPrice>) -> OpeningRange {
    let h = choose|i: int| is_first_highest(prices, i);
    let l = choose|i: int| is_first_lowest(prices, i);
    OpeningRange {
        high_ask: prices[h].high.ask,
        high_bid: prices[h].high.bid,
        low_ask: prices[l].low.ask,
        low_bid: prices[l].low.bid,
    }
}

proof fn lemma_first_highest_unique(prices: Seq<OhlcPrice>, i: int, k: int)
    requires
        is_first_highest(prices, i),
        is_first_highest(prices, k),
    ensures
        i == k,
{
    assert(prices[i].high.ask <= prices[k].high.ask);
    assert(prices[k].high.ask <= prices[i].high.ask);
}

proof fn lemma_first_lowest_unique(prices: Seq<OhlcPrice>, i: int, k: int)
    requires
        is_first_lowest(prices, i),
        is_first_lowest(prices, k),
    ensures
        i == k,
{
    assert(prices[i].low.ask <= prices[k].low.ask);
    assert(prices[k].low.ask <= prices[i].low.ask);
}

/// The extreme bars exist in every non-empty list.
pub proof fn lemma_extremes_exist(prices: Seq<OhlcPrice>)
    requires
        prices.len() > 0,
    ensures
        exists|i: int| is_first_highest(prices, i),
        exists|i: int| is_first_lowest(prices, i),
    decreases prices.len(),
{
    if prices.len() == 1 {
        assert(is_first_highest(prices, 0));
        assert(is_first_lowest(prices, 0));
    } else {
        let p = prices.drop_last();
        lemma_extremes_exist(p);
        let h = choose|i: int| is_first_highest(p, i);
        let l = choose|i: int| is_first_lowest(p, i);
        let n = prices.len() - 1;
        assert(forall|j: int| 0 <= j < n ==> p[j] == prices[j]);
        if prices[n].high.ask > prices[h].high.ask {
            assert(is_first_highest(prices, n));
        } else {
            assert(is_first_highest(prices, h));
        }
        if prices[n].low.ask < prices[l].low.ask {
            assert(is_first_lowest(prices, n));
        } else {
            assert(is_first_lowest(prices, l));
        }
    }
}

/// Builds the opening range from a non-empty list of bars.
pub fn create_opening_range_from_ohlcs(prices: &Vec<OhlcPrice>) -> (r: OpeningRange)
    requires
        prices@.len() > 0,
    ensures
        r == opening_range_of(prices@),
{
    let mut h: usize = 0;
    let mut l: usize = 0;
    let mut i: usize = 1;
    while i < prices.len()
        invariant
            1 <= i <= prices@.len(),
            is_first_highest(prices@.take(i as int), h as int),
            is_first_lowest(prices@.take(i as int), l as int),
        decreases prices@.len() - i,
    {
        if prices[i].high.ask > prices[h].high.ask {
            h = i;
        }
        if prices[i].low.ask < prices[l].low.ask {
            l = i;
        }
        i = i + 1;
        assert(is_first_highest(prices@.take(i as int), h as int));
        assert(is_first_lowest(prices@.take(i as int), l as int));
    }
    assert(prices@.take(i as int) =~= prices@);
    proof {
        let hc = choose|k: int| is_first_highest(prices@, k);
        let lc = choose|k: int| is_first_lowest(prices@, k);
        lemma_first_highest_unique(prices@, h as int, hc);
        lemma_first_lowest_unique(prices@, l as int, lc);
    }
    OpeningRange {
        high_ask: prices[h].high.ask,
        high_bid: prices[h].high.bid,
        low_ask: prices[l].low.ask,
        low_bid: prices[l].low.bid,
    }
}

/// Every low lies below every high, on the ask side and on the bid side.
pub open spec fn lows_below_highs(prices: Seq<OhlcPrice>) -> bool {
    forall|i: int, j: int|
        0 <= i < prices.len() && 0 <= j < prices.len() ==> {
            &&& #[trigger] prices[i].low.ask <= #[trigger] prices[j].high.ask
            &&& prices[i].low.bid <= prices[j].high.bid
        }
}

/// An opening range built from bars whose lows lie below their highs has its
/// high at or above its low, on both sides.
pub proof fn lemma_opening_range_ordered(prices: Seq<OhlcPrice>)
    requires
        prices.len() > 0,
        lows_below_highs(prices),
    ensures
        opening_range_of(prices).high_ask >= opening_range_of(prices).low_ask,
        opening_range_of(prices).high_bid >= opening_range_of(prices).low_bid,
{
    lemma_extremes_exist(prices);
    let h = choose|i: int| is_first_highest(prices, i);
    let l = choose|i: int| is_first_lowest(prices, i);
    assert(prices[l].low.ask <= prices[h].high.ask);
}

} // verus!
