//! Time-bucketed price-history aggregation over the column store: the
//! interval and timeframe types, quantile validation, and the exact text of
//! the aggregation query.
use vstd::prelude::*;

verus! {

use vstd::string::StringExecFns;
use crate::note::{dec_den, dec_num, dec_ok};
use crate::text::{
    i32_str_ok, i32_str_val, i64_to_string, i32_to_string, int_str, parse_i32_chars, split_seq,
    split_char, str_to_chars, trim_chars, trim_spec,
};

/// A closed query window, both ends as unix timestamps in seconds.
#[derive(Debug, Clone, Copy, PartialEq, Eq, Structural)]
pub struct ChTimeframe {
    pub start: i64,
    pub end: i64,
}

impl ChTimeframe {
    pub fn new(start: i64, end: i64) -> (t: Self)
        ensures
            t.start == start,
            t.end == end,
    {
        Self { start, end }
    }
}

/// A bucketing interval: an amount of one of the closed set of units.
#[derive(Debug, Clone, Copy, PartialEq, Eq, Structural)]
pub enum ChInterval {
    Minute(i32),
    Hour(i32),
    Week(i32),
    Month(i32),
    Year(i32),
}

/// Why an interval could not be read.
#[derive(Debug, Clone, Copy, PartialEq, Eq, Structural)]
pub enum IntervalError {
    /// Fewer than two space-separated fields.
    Invalid,
    /// The unit is outside the closed set.
    InvalidUnit,
    /// The amount is not an integer in range.
    InvalidAmount,
}

/// The interval a unit name selects, carrying the given amount.
pub open spec fn spec_interval_unit(unit: Seq<char>, amount: i32) -> Option<ChInterval> {
    if unit == "minute"@ {
        Some(ChInterval::Minute(amount))
    } else if unit == "hour"@ {
        Some(ChInterval::Hour(amount))
    } else if unit == "week"@ {
        Some(ChInterval::Week(amount))
    } else if unit == "month"@ {
        Some(ChInterval::Month(amount))
    } else if unit == "year"@ {
        Some(ChInterval::Year(amount))
    } else {
        None
    }
}

/// How `try_from` reads an interval string: trim it, split on single
/// spaces, and read the first two fields as amount and unit.
pub open spec fn spec_interval_of(s: Seq<char>) -> Result<ChInterval, IntervalError> {
    let parts = split_seq(trim_spec(s), ' ');
    if parts.len() < 2 {
        Err(IntervalError::Invalid)
    } else if !i32_str_ok(parts[0]) {
        Err(IntervalError::InvalidAmount)
    } else {
        match spec_interval_unit(parts[1], i32_str_val(parts[0]) as i32) {
            Some(i) => Ok(i),
            None => Err(IntervalError::InvalidUnit),
        }
    }
}

/// Selects the interval a unit name stands for, carrying the amount.
pub fn interval_from_parts(unit: &Vec<char>, amount: i32) -> (r: Option<ChInterval>)
    ensures
        r == spec_interval_unit(unit@, amount),
{
    if crate::text::chars_eq_str(unit, "minute") {
        Some(ChInterval::Minute(amount))
    } else if crate::text::chars_eq_str(unit, "hour") {
        Some(ChInterval::Hour(amount))
    } else if crate::text::chars_eq_str(unit, "week") {
        Some(ChInterval::Week(amount))
    } else if crate::text::chars_eq_str(unit, "month") {
        Some(ChInterval::Month(amount))
    } else if crate::text::chars_eq_str(unit, "year") {
        Some(ChInterval::Year(amount))
    } else {
        None
    }
}

/// The unit's name in the query text.
pub open spec fn spec_unit_token(i: ChInterval) -> Seq<char> {
    match i {
        ChInterval::Minute(_) => "minute"@,
        ChInterval::Hour(_) => "hour"@,
        ChInterval::Week(_) => "week"@,
        ChInterval::Month(_) => "month"@,
        ChInterval::Year(_) => "year"@,
    }
}

pub open spec fn spec_interval_amount(i: ChInterval) -> int {
    match i {
        ChInterval::Minute(x) => x as int,
        ChInterval::Hour(x) => x as int,
        ChInterval::Week(x) => x as int,
        ChInterval::Month(x) => x as int,
        ChInterval::Year(x) => x as int,
    }
}

/// An interval as the query writes it: the amount, a space, the unit.
pub open spec fn spec_interval_str(i: ChInterval) -> Seq<char> {
    int_str(spec_interval_amount(i)) + seq![' '] + spec_unit_token(i)
}

impl ChInterval {
    /// Reads an `amount unit` string.
    pub fn try_from(value: String) -> (r: Result<Self, IntervalError>)
        ensures
            r == spec_interval_of(value@),
    {
        let chars = str_to_chars(value.as_str());
        let trimmed = trim_chars(&chars);
        let parts = split_char(&trimmed, ' ');
        if parts.len() < 2 {
            return Err(IntervalError::Invalid);
        }
        let amount = match parse_i32_chars(&parts[0]) {
            Ok(x) => x,
            Err(_) => {
                return Err(IntervalError::InvalidAmount);
            },
        };
        match interval_from_parts(&parts[1], amount) {
            Some(i) => Ok(i),
            None => Err(IntervalError::InvalidUnit),
        }
    }

    /// Writes the interval as the query text needs it.
    pub fn to_string(&self) -> (s: String)
        ensures
            s@ == spec_interval_str(*self),
    {
        let amount = match self {
            ChInterval::Minute(x) => *x,
            ChInterval::Hour(x) => *x,
            ChInterval::Week(x) => *x,
            ChInterval::Month(x) => *x,
            ChInterval::Year(x) => *x,
        };
        let mut s = i32_to_string(amount);
        s.append(" ");
        proof {
            reveal_strlit(" ");
        }
        match self {
            ChInterval::Minute(_) => s.append("minute"),
            ChInterval::Hour(_) => s.append("hour"),
            ChInterval::Week(_) => s.append("week"),
            ChInterval::Month(_) => s.append("month"),
            ChInterval::Year(_) => s.append("year"),
        }
        proof {
            assert(s@ =~= spec_interval_str(*self));
        }
        s
    }
}

/// A quantile parameter is acceptable when it is a plain decimal strictly
/// between zero and one.
pub open spec fn quantile_ok(s: Seq<char>) -> bool {
    &&& dec_ok(s)
    &&& 0 < dec_num(s)
    &&& dec_num(s) < dec_den(s)
}

/// Whether every requested quantile lies strictly between zero and one.
pub fn are_valid_quantiles(quantiles: &Vec<String>) -> (r: bool)
    ensures
        r == forall|i: int| 0 <= i < quantiles@.len() ==> quantile_ok(#[trigger] quantiles@[i]@),
{
    let mut i: usize = 0;
    while i < quantiles.len()
        invariant
            i <= quantiles@.len(),
            forall|j: int| 0 <= j < i ==> quantile_ok(#[trigger] quantiles@[j]@),
        decreases quantiles@.len() - i,
    {
        let chars = str_to_chars(quantiles[i].as_str());
        let ok = match crate::note::parse_dec_fraction(&chars) {
            Some((num, den)) => 0 < num && num < den,
            None => false,
        };
        if !ok {
            return false;
        }
        i = i + 1;
    }
    true
}

/// The requested quantiles joined with commas, as the query writes them.
pub open spec fn spec_csv(parts: Seq<Seq<char>>) -> Seq<char>
    decreases parts.len(),
{
    if parts.len() == 0 {
        Seq::empty()
    } else if parts.len() == 1 {
        parts[0]
    } else {
        spec_csv(parts.drop_last()) + seq![','] + parts.last()
    }
}

fn join_csv(parts: &Vec<String>) -> (s: String)
    ensures
        s@ == spec_csv(parts@.map_values(|p: String| p@)),
{
    let ghost views = parts@.map_values(|p: String| p@);
    let mut s = String::new();
    let mut i: usize = 0;
    proof {
        assert(views.subrange(0, 0) =~= Seq::<Seq<char>>::empty());
    }
    while i < parts.len()
        invariant
            i <= parts@.len(),
            views == parts@.map_values(|p: String| p@),
            s@ == spec_csv(views.subrange(0, i as int)),
        decreases parts@.len() - i,
    {
        proof {
            let pre = views.subrange(0, i as int);
            let post = views.subrange(0, i as int + 1);
            assert(post.drop_last() =~= pre);
            assert(post.last() == views[i as int]);
        }
        if i > 0 {
            s.append(",");
            proof {
                reveal_strlit(",");
                assert(","@ =~= seq![',']);
            }
        }
        s.append(parts[i].as_str());
        i = i + 1;
        proof {
            assert(s@ =~= spec_csv(views.subrange(0, i as int)));
        }
    }
    proof {
        assert(views.subrange(0, views.len() as int) =~= views);
    }
    s
}

/// The exact text of the aggregation query: bucket by the interval, compute
/// the quantile vector of the listed price, group by bucket, name and
/// currency, order by bucket. The item name and league bind to the two `?`
/// placeholders; interval, quantiles and timeframe are interpolated after
/// validation.
pub open spec fn spec_history_query(
    interval: ChInterval,
    quantiles: Seq<Seq<char>>,
    timeframe: ChTimeframe,
) -> Seq<char> {
    "SELECT\n                name as item_name,\n                toStartOfInterval(created_at, INTERVAL "@
        + spec_interval_str(interval)
        + ") AS interval_bucket,\n                arrayZip(["@ + spec_csv(quantiles)
        + "], quantiles("@ + spec_csv(quantiles)
        + ")(listed_price)) AS price_by_quantile,\n                listed_currency\n            FROM ledger.listings\n            WHERE name ilike ? AND league = ? AND created_at BETWEEN "@
        + int_str(timeframe.start as int) + " AND "@ + int_str(timeframe.end as int)
        + "\n            GROUP BY interval_bucket, name, listed_currency\n            ORDER BY interval_bucket"@
}

/// Emits the aggregation query for one validated request.
pub fn build_history_query(
    interval: &ChInterval,
    quantiles: &Vec<String>,
    timeframe: &ChTimeframe,
) -> (q: String)
    ensures
        q@ == spec_history_query(*interval, quantiles@.map_values(|p: String| p@), *timeframe),
{
    let quants = join_csv(quantiles);
    let mut q = String::from_str(
        "SELECT\n                name as item_name,\n                toStartOfInterval(created_at, INTERVAL ",
    );
    q.append(interval.to_string().as_str());
    q.append(") AS interval_bucket,\n                arrayZip([");
    q.append(quants.as_str());
    q.append("], quantiles(");
    q.append(quants.as_str());
    q.append(
        ")(listed_price)) AS price_by_quantile,\n                listed_currency\n            FROM ledger.listings\n            WHERE name ilike ? AND league = ? AND created_at BETWEEN ",
    );
    q.append(i64_to_string(timeframe.start).as_str());
    q.append(" AND ");
    q.append(i64_to_string(timeframe.end).as_str());
    q.append(
        "\n            GROUP BY interval_bucket, name, listed_currency\n            ORDER BY interval_bucket",
    );
    q
}

} // verus!
