//! Validation of price-history requests: defaults for what is missing,
//! rejection for what is malformed, and the resolved query the store-facing
//! emitter takes.
use vstd::prelude::*;

verus! {

use vstd::string::StringExecFns;
use crate::db::{quantile_ok, spec_interval_unit, ChInterval, ChTimeframe};
use crate::text::str_to_chars;

/// The raw query parameters of the history endpoint, as the boundary
/// decodes them.
#[derive(Debug, Clone)]
pub struct PriceHistoryQuery {
    pub item: String,
    pub league: Option<String>,
    pub interval_amount: Option<i64>,
    pub interval_unit: Option<String>,
    pub quantiles: Option<Vec<String>>,
    pub start_time: Option<i64>,
    pub end_time: Option<i64>,
}

/// Why a request is rejected; the boundary answers both with a client
/// error.
#[derive(Debug, Clone, Copy, PartialEq, Eq, Structural)]
pub enum QueryRejection {
    /// A half-given interval, an amount out of range, or an unknown unit.
    InvalidInterval,
    /// A quantile not strictly between zero and one.
    InvalidQuantile,
}

/// A request with every blank filled and every field checked.
#[derive(Debug, Clone)]
pub struct ResolvedHistoryQuery {
    pub item: String,
    pub league: String,
    pub interval: ChInterval,
    pub quantiles: Vec<String>,
    pub timeframe: ChTimeframe,
}

/// The interval the parameters select: absent on both sides means one hour;
/// a half-given pair, an amount outside `i32`, or an unknown unit is
/// rejected.
pub open spec fn spec_resolve_interval(
    amount: Option<i64>,
    unit: Option<String>,
) -> Option<ChInterval> {
    match (amount, unit) {
        (Option::None, Option::None) => Some(ChInterval::Hour(1)),
        (Option::Some(a), Option::Some(u)) => if -2147483648 <= a <= 2147483647 {
            spec_interval_unit(u@, a as i32)
        } else {
            None
        },
        _ => None,
    }
}

/// The default window start: seven days before `now`, saturating.
pub open spec fn spec_week_before(now: i64) -> i64 {
    if now as int - 604800 >= i64::MIN {
        (now - 604800) as i64
    } else {
        i64::MIN
    }
}

impl PriceHistoryQuery {
    /// Resolves the request against the defaults, at wall-clock time `now`:
    /// a missing interval means one hour, missing quantiles mean the first
    /// decile, a missing timeframe means the last seven days, a missing
    /// league means the configured current league. A half-given interval,
    /// an unknown unit, an amount out of range, or a quantile outside the
    /// open unit interval is rejected.
    pub fn resolve(self, now: i64) -> (r: Result<ResolvedHistoryQuery, QueryRejection>)
        ensures
            r is Ok <==> spec_resolve_interval(self.interval_amount, self.interval_unit) is Some
                && (match self.quantiles {
                Some(qs) => forall|i: int| 0 <= i < qs@.len() ==> quantile_ok(#[trigger] qs@[i]@),
                None => true,
            }),
            spec_resolve_interval(self.interval_amount, self.interval_unit) is None ==> r
                == Result::<ResolvedHistoryQuery, QueryRejection>::Err(
                QueryRejection::InvalidInterval,
            ),
            r is Err && spec_resolve_interval(self.interval_amount, self.interval_unit) is Some
                ==> r == Result::<ResolvedHistoryQuery, QueryRejection>::Err(
                QueryRejection::InvalidQuantile,
            ),
            r matches Ok(res) ==> ({
                &&& res.item@ == self.item@
                &&& (match self.league {
                    Some(lg) => res.league@ == lg@,
                    None => res.league@ == "Affliction"@,
                })
                &&& Some(res.interval) == spec_resolve_interval(
                    self.interval_amount,
                    self.interval_unit,
                )
                &&& (match self.quantiles {
                    Some(qs) => res.quantiles == qs,
                    None => res.quantiles@.len() == 1 && res.quantiles@[0]@ == "0.1"@,
                })
                &&& res.timeframe.start == (match self.start_time {
                    Some(s) => s,
                    None => spec_week_before(now),
                })
                &&& res.timeframe.end == (match self.end_time {
                    Some(e) => e,
                    None => now,
                })
            }),
    {
        let PriceHistoryQuery {
            item,
            league,
            interval_amount,
            interval_unit,
            quantiles,
            start_time,
            end_time,
        } = self;
        let interval = match (interval_amount, &interval_unit) {
            (None, None) => ChInterval::Hour(1),
            (Some(a), Some(u)) => {
                if !(-2147483648 <= a && a <= 2147483647) {
                    return Err(QueryRejection::InvalidInterval);
                }
                let unit_chars = str_to_chars(u.as_str());
                match crate::db::interval_from_parts(&unit_chars, a as i32) {
                    Some(i) => i,
                    None => {
                        return Err(QueryRejection::InvalidInterval);
                    },
                }
            },
            _ => {
                return Err(QueryRejection::InvalidInterval);
            },
        };
        let quantiles_ok = match &quantiles {
            Some(qs) => crate::db::are_valid_quantiles(qs),
            None => true,
        };
        if !quantiles_ok {
            return Err(QueryRejection::InvalidQuantile);
        }
        let quantiles = match quantiles {
            Some(qs) => qs,
            None => {
                let mut qs: Vec<String> = Vec::new();
                qs.push(String::from_str("0.1"));
                qs
            },
        };
        let start = match start_time {
            Some(s) => s,
            None => if now >= i64::MIN + 604800 {
                now - 604800
            } else {
                i64::MIN
            },
        };
        let end = match end_time {
            Some(e) => e,
            None => now,
        };
        let league = match league {
            Some(lg) => lg,
            None => String::from_str("Affliction"),
        };
        Ok(
            ResolvedHistoryQuery {
                item,
                league,
                interval,
                quantiles,
                timeframe: ChTimeframe { start, end },
            },
        )
    }
}

} // verus!
