use vstd::prelude::*;

verus! {

/// A statistic that a client reports.
#[derive(Debug, Clone, PartialEq, Eq)]
pub enum UserStat {
    /// A count.
    Number(u64),
    /// Free text.
    Text(String),
    /// A ratio `a / b`.
    Ratio(u64, u64),
}

/// The numeric reading of a statistic: a count is itself, a ratio is its
/// numerator, text has none.
pub open spec fn stat_number(s: UserStat) -> Option<u64> {
    match s {
        UserStat::Number(n) => Some(n),
        UserStat::Text(_) => None,
        UserStat::Ratio(a, _) => Some(a),
    }
}

impl UserStat {
    /// The numeric reading of this statistic, if it has one.
    pub fn to_num(&self) -> (r: Option<u64>)
        ensures
            r == stat_number(*self),
    {
        match self {
            UserStat::Number(n) => Some(*n),
            UserStat::Text(_) => None,
            UserStat::Ratio(a, _) => Some(*a),
        }
    }
}

/// The numeric reading of the statistic a client reports, if any.
pub open spec fn client_number(s: Option<UserStat>) -> Option<u64> {
    match s {
        Some(stat) => stat_number(stat),
        None => None,
    }
}

/// Largest numeric reading among the first `n` clients, if any has one.
pub open spec fn max_reading(stats: Seq<Option<UserStat>>, n: int) -> Option<u64>
    decreases n,
{
    if n <= 0 {
        None
    } else {
        let prev = max_reading(stats, n - 1);
        match client_number(stats[n - 1]) {
            None => prev,
            Some(v) => match prev {
                None => Some(v),
                Some(m) => Some(if m >= v { m } else { v }),
            },
        }
    }
}

/// Largest numeric reading of one statistic over all clients, each of
/// which may or may not report it.
pub fn get_user_stat(stats: &Vec<Option<UserStat>>) -> (r: Option<u64>)
    ensures
        r == max_reading(stats@, stats@.len() as int),
{
    let mut max_value: Option<u64> = None;
    let mut i: usize = 0;
    while i < stats.len()
        invariant
            i <= stats@.len(),
            max_value == max_reading(stats@, i as int),
        decreases stats@.len() - i,
    {
        if let Some(stat) = &stats[i] {
            if let Some(value) = stat.to_num() {
                max_value = match max_value {
                    None => Some(value),
                    Some(m) => Some(if m >= value { m } else { value }),
                };
            }
        }
        i = i + 1;
    }
    max_value
}

/// Whether a plot row is due at `now_secs`, the last one having been
/// written at `last_write_secs`: at most one row per second.
pub fn plot_row_due(now_secs: u64, last_write_secs: u64) -> (b: bool)
    ensures
        b == (now_secs as int - last_write_secs as int >= 1),
{
    now_secs > last_write_secs
}

} // verus!
