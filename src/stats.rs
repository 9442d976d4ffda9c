//! Holder statistics between two observations, running metrics, and alerts.

use vstd::prelude::*;
use vstd::string::StringExecFns;

verus! {

/// Growth alerts fire at or above this change, in percent.
pub const GROWTH_ALERT_PERCENT: i64 = 50;

/// Drop alerts fire at or below this change, in percent.
pub const DROP_ALERT_PERCENT: i64 = -20;

/// Leading text of a growth alert.
pub const GROWTH_LABEL: &'static str = "🚀 SIGNIFICANT GROWTH";

/// Leading text of a drop alert.
pub const DROP_LABEL: &'static str = "⚠️ SIGNIFICANT DROP";

/// Seconds since the Unix epoch up to which `format_timestamp` is defined
/// (a date in the year 190000 or so).
pub const MAX_FORMATTED_SECS: u64 = 6_000_000_000_000;

/// A percentage held exactly, as `numerator / denominator` percent.
#[derive(Clone, Copy, Debug, PartialEq, Eq, Structural)]
pub struct Percent {
    pub numerator: i128,
    pub denominator: u64,
}

impl Percent {
    /// A positive denominator, and a numerator no larger than a change of an
    /// `i64` count expressed in percent.
    pub open spec fn wf(self) -> bool {
        &&& self.denominator > 0
        &&& i64::MIN as int * 100 <= self.numerator <= i64::MAX as int * 100
    }

    /// The percentage is at least `k`.
    pub open spec fn at_least(self, k: int) -> bool {
        self.numerator >= k * self.denominator
    }

    /// The percentage is at most `k`.
    pub open spec fn at_most(self, k: int) -> bool {
        self.numerator <= k * self.denominator
    }

    /// The magnitude of the percentage in tenths, rounded half up.
    pub open spec fn abs_tenths(self) -> int {
        let n = if self.numerator < 0 {
            -self.numerator
        } else {
            self.numerator as int
        };
        (n * 20 + self.denominator) / (2 * self.denominator as int)
    }

    /// The whole percentage `p`, as a value.
    pub open spec fn whole_spec(p: int) -> Percent {
        Percent { numerator: p as i128, denominator: 1 }
    }

    /// The whole percentage `p`.
    pub fn whole(p: i64) -> (r: Percent)
        ensures
            r == (Percent { numerator: p as i128, denominator: 1 }),
            r.wf(),
    {
        Percent { numerator: p as i128, denominator: 1 }
    }

    /// Whether the percentage is at least `k`.
    pub fn is_at_least(&self, k: i64) -> (r: bool)
        requires
            self.wf(),
        ensures
            r == self.at_least(k as int),
    {
        proof {
            lemma_product_fits(k as int, self.denominator as int);
        }
        self.numerator >= (k as i128) * (self.denominator as i128)
    }

    /// Whether the percentage is at most `k`.
    pub fn is_at_most(&self, k: i64) -> (r: bool)
        requires
            self.wf(),
        ensures
            r == self.at_most(k as int),
    {
        proof {
            lemma_product_fits(k as int, self.denominator as int);
        }
        self.numerator <= (k as i128) * (self.denominator as i128)
    }

    /// The magnitude of the percentage in tenths, rounded half up.
    pub fn rounded_abs_tenths(&self) -> (r: u128)
        requires
            self.wf(),
        ensures
            r == self.abs_tenths(),
    {
        let n: u128 = if self.numerator < 0 {
            (-self.numerator) as u128
        } else {
            self.numerator as u128
        };
        let d = self.denominator as u128;
        (n * 20 + d) / (2 * d)
    }
}

proof fn lemma_product_fits(k: int, d: int)
    requires
        i64::MIN <= k <= i64::MAX,
        0 <= d <= u64::MAX,
    ensures
        i128::MIN <= k * d <= i128::MAX,
{
    if k >= 0 {
        assert(0 <= k * d <= 0x7fff_ffff_ffff_ffff * 0xffff_ffff_ffff_ffff) by (nonlinear_arith)
            requires
                0 <= k <= 0x7fff_ffff_ffff_ffff,
                0 <= d <= 0xffff_ffff_ffff_ffff,
        ;
    } else {
        assert(-0x8000_0000_0000_0000 * 0xffff_ffff_ffff_ffff <= k * d <= 0) by (nonlinear_arith)
            requires
                -0x8000_0000_0000_0000 <= k < 0,
                0 <= d <= 0xffff_ffff_ffff_ffff,
        ;
    }
}

/// Statistics of one observation against the one before it.
#[derive(Clone, Copy, Debug)]
pub struct HolderStats {
    pub count: usize,
    pub timestamp: u64,
    pub change: i64,
    pub change_percent: Percent,
}

/// The change from `previous` to `current`, in percent: the ratio to a positive
/// `previous`; 100 from a zero base to a positive count; 0 from zero to zero.
pub open spec fn percent_change(current: nat, previous: nat) -> Percent {
    if previous > 0 {
        Percent {
            numerator: ((current - previous) * 100) as i128,
            denominator: previous as u64,
        }
    } else if current > 0 {
        Percent { numerator: 100, denominator: 1 }
    } else {
        Percent { numerator: 0, denominator: 1 }
    }
}

/// The change of a count fits the `i64` that holds it.
pub open spec fn change_fits(current: usize, previous: Option<usize>) -> bool {
    previous matches Some(p) ==> i64::MIN <= current - p <= i64::MAX
}

/// Statistics of `current` against `previous`, taken at `timestamp`.
pub fn stats_at(current: usize, previous: Option<usize>, timestamp: u64) -> (r: HolderStats)
    requires
        change_fits(current, previous),
    ensures
        r.count == current,
        r.timestamp == timestamp,
        r.change_percent.wf(),
        match previous {
            Some(p) => r.change == current - p && r.change_percent == percent_change(
                current as nat,
                p as nat,
            ),
            None => r.change == 0 && r.change_percent == Percent::whole_spec(0),
        },
{
    match previous {
        Some(prev) => {
            let change = (current as i128 - prev as i128) as i64;
            let change_percent = if prev > 0 {
                Percent { numerator: change as i128 * 100, denominator: prev as u64 }
            } else if current > 0 {
                Percent { numerator: 100, denominator: 1 }
            } else {
                Percent { numerator: 0, denominator: 1 }
            };
            HolderStats { count: current, timestamp, change, change_percent }
        },
        None => HolderStats {
            count: current,
            timestamp,
            change: 0,
            change_percent: Percent { numerator: 0, denominator: 1 },
        },
    }
}

/// Relies on std's `SystemTime::now`: the seconds since the Unix epoch, or 0 for
/// a clock set before it.
#[verifier::external_body]
fn unix_time_secs() -> u64 {
    std::time::SystemTime::now().duration_since(std::time::UNIX_EPOCH).map(|d| d.as_secs()).unwrap_or(0)
}

/// Statistics of `current` against `previous`, stamped with the current time.
pub fn calculate_stats(current_count: usize, previous_count: Option<usize>) -> (r: HolderStats)
    requires
        change_fits(current_count, previous_count),
    ensures
        r.count == current_count,
        r.change_percent.wf(),
        match previous_count {
            Some(p) => r.change == current_count - p && r.change_percent == percent_change(
                current_count as nat,
                p as nat,
            ),
            None => r.change == 0 && r.change_percent == Percent::whole_spec(0),
        },
{
    let now = unix_time_secs();
    stats_at(current_count, previous_count, now)
}

/// Running metrics of a monitoring run: the number of polls, the smallest and
/// largest count seen, the sum of all counts, and the alerts raised, in order.
#[derive(Debug)]
pub struct Metrics {
    pub min_holders: Option<usize>,
    pub max_holders: Option<usize>,
    pub total_polls: usize,
    pub total_holders_sum: usize,
    pub alerts: Vec<String>,
}

/// The smaller of a running minimum, if any, and `c`.
pub open spec fn lower_of(m: Option<usize>, c: usize) -> usize {
    match m {
        Some(x) if x <= c => x,
        _ => c,
    }
}

/// The larger of a running maximum, if any, and `c`.
pub open spec fn higher_of(m: Option<usize>, c: usize) -> usize {
    match m {
        Some(x) if x >= c => x,
        _ => c,
    }
}

/// The texts of a sequence of strings.
pub open spec fn texts(s: Seq<String>) -> Seq<Seq<char>> {
    s.map_values(|m: String| m@)
}

impl Metrics {
    /// Metrics of a run with no poll yet.
    pub fn new() -> (r: Metrics)
        ensures
            r.min_holders.is_none(),
            r.max_holders.is_none(),
            r.total_polls == 0,
            r.total_holders_sum == 0,
            r.alerts@.len() == 0,
    {
        Metrics {
            min_holders: None,
            max_holders: None,
            total_polls: 0,
            total_holders_sum: 0,
            alerts: Vec::new(),
        }
    }

    /// One more poll of `holder_count` fits the counters.
    pub open spec fn can_record(&self, holder_count: usize) -> bool {
        self.total_polls < usize::MAX && self.total_holders_sum + holder_count <= usize::MAX
    }

    /// Accounts for one poll that saw `holder_count` holders.
    pub fn update(&mut self, holder_count: usize)
        requires
            old(self).can_record(holder_count),
        ensures
            final(self).total_polls == old(self).total_polls + 1,
            final(self).total_holders_sum == old(self).total_holders_sum + holder_count,
            final(self).min_holders == Some(lower_of(old(self).min_holders, holder_count)),
            final(self).max_holders == Some(higher_of(old(self).max_holders, holder_count)),
            final(self).alerts@ == old(self).alerts@,
    {
        self.total_polls = self.total_polls + 1;
        self.total_holders_sum = self.total_holders_sum + holder_count;
        match self.min_holders {
            Some(m) if m <= holder_count => {},
            _ => {
                self.min_holders = Some(holder_count);
            },
        }
        match self.max_holders {
            Some(m) if m >= holder_count => {},
            _ => {
                self.max_holders = Some(holder_count);
            },
        }
    }

    /// Appends an alert to the log.
    pub fn add_alert(&mut self, message: String)
        ensures
            final(self).alerts@ == old(self).alerts@.push(message),
            final(self).min_holders == old(self).min_holders,
            final(self).max_holders == old(self).max_holders,
            final(self).total_polls == old(self).total_polls,
            final(self).total_holders_sum == old(self).total_holders_sum,
    {
        self.alerts.push(message);
    }
}

/// The character of the decimal digit `d` (`0 <= d < 10`).
pub open spec fn digit_char(d: nat) -> char {
    seq!['0', '1', '2', '3', '4', '5', '6', '7', '8', '9'][d as int]
}

/// The decimal digits of `n`, most significant first, with no leading zero.
pub open spec fn digits(n: nat) -> Seq<char>
    decreases n,
{
    if n < 10 {
        seq![digit_char(n)]
    } else {
        digits(n / 10).push(digit_char(n % 10))
    }
}

/// The decimal text of `n`: its digits, after a `-` when it is negative.
pub open spec fn decimal_text(n: int) -> Seq<char> {
    if n < 0 {
        seq!['-'] + digits((-n) as nat)
    } else {
        digits(n as nat)
    }
}

/// Relies on std's `format!("{}", n)`, which writes an integer in decimal:
/// a `-` for a negative value, then its digits without leading zeros.
#[verifier::external_body]
fn decimal(n: i128) -> (r: String)
    ensures
        r@ == decimal_text(n as int),
{
    format!("{}", n)
}

/// The text of an alert with leading text `label` on `stats` against
/// `previous`: `"<label>: <change> holders (<percent>%) | <previous> -> <count>"`,
/// where the change carries a `+` when it is not negative and the percentage
/// carries its sign and one decimal.
pub open spec fn alert_text(label: Seq<char>, stats: HolderStats, previous: usize) -> Seq<char> {
    let t = stats.change_percent.abs_tenths();
    label + ": "@ + (if stats.change >= 0 {
        "+"@
    } else {
        Seq::empty()
    }) + decimal_text(stats.change as int) + " holders ("@ + (if stats.change_percent.numerator
        < 0 {
        "-"@
    } else {
        "+"@
    }) + decimal_text(t / 10) + "."@ + decimal_text(t % 10) + "%) | "@ + decimal_text(
        previous as int,
    ) + " -> "@ + decimal_text(stats.count as int)
}

/// A growth alert fires when there was a previous count and the change is at
/// least `GROWTH_ALERT_PERCENT` percent.
pub open spec fn growth_fires(stats: HolderStats, previous: Option<usize>) -> bool {
    previous is Some && stats.change_percent.at_least(GROWTH_ALERT_PERCENT as int)
}

/// A drop alert fires when there was a previous count and the change is at
/// most `DROP_ALERT_PERCENT` percent.
pub open spec fn drop_fires(stats: HolderStats, previous: Option<usize>) -> bool {
    previous is Some && stats.change_percent.at_most(DROP_ALERT_PERCENT as int)
}

/// The alerts that `stats` against `previous` raise, growth first.
pub open spec fn alerts_for(stats: HolderStats, previous: Option<usize>) -> Seq<Seq<char>> {
    match previous {
        Some(p) => (if growth_fires(stats, previous) {
            seq![alert_text(GROWTH_LABEL@, stats, p)]
        } else {
            Seq::empty()
        }) + (if drop_fires(stats, previous) {
            seq![alert_text(DROP_LABEL@, stats, p)]
        } else {
            Seq::empty()
        }),
        None => Seq::empty(),
    }
}

/// Builds the text of an alert on `stats` against `previous`.
fn alert_message(label: &str, stats: &HolderStats, previous: usize) -> (r: String)
    requires
        stats.change_percent.wf(),
    ensures
        r@ == alert_text(label@, *stats, previous),
{
    let t = stats.change_percent.rounded_abs_tenths();
    proof {
        assert(t / 10 <= i128::MAX) by (nonlinear_arith)
            requires
                t <= u128::MAX,
        ;
    }
    let mut s = String::from_str(label);
    s.append(": ");
    if stats.change >= 0 {
        s.append("+");
    }
    let change = decimal(stats.change as i128);
    s.append(change.as_str());
    s.append(" holders (");
    if stats.change_percent.numerator < 0 {
        s.append("-");
    } else {
        s.append("+");
    }
    let whole = decimal((t / 10) as i128);
    s.append(whole.as_str());
    s.append(".");
    let tenth = decimal((t % 10) as i128);
    s.append(tenth.as_str());
    s.append("%) | ");
    let prev = decimal(previous as i128);
    s.append(prev.as_str());
    s.append(" -> ");
    let count = decimal(stats.count as i128);
    s.append(count.as_str());
    proof {
        assert(s@ =~= alert_text(label@, *stats, previous));
    }
    s
}

/// Raises the alerts that `stats` against `previous_count` call for: growth and
/// drop are checked independently, and each alert is appended to the log.
pub fn check_alerts(stats: &HolderStats, previous_count: Option<usize>, metrics: &mut Metrics)
    requires
        stats.change_percent.wf(),
    ensures
        texts(final(metrics).alerts@) == texts(old(metrics).alerts@) + alerts_for(
            *stats,
            previous_count,
        ),
        final(metrics).min_holders == old(metrics).min_holders,
        final(metrics).max_holders == old(metrics).max_holders,
        final(metrics).total_polls == old(metrics).total_polls,
        final(metrics).total_holders_sum == old(metrics).total_holders_sum,
{
    let ghost before = texts(metrics.alerts@);
    if let Some(prev) = previous_count {
        if stats.change_percent.is_at_least(GROWTH_ALERT_PERCENT) {
            let message = alert_message(GROWTH_LABEL, stats, prev);
            metrics.add_alert(message);
        }
        let ghost middle = texts(metrics.alerts@);
        if stats.change_percent.is_at_most(DROP_ALERT_PERCENT) {
            let message = alert_message(DROP_LABEL, stats, prev);
            metrics.add_alert(message);
        }
        assert(texts(metrics.alerts@) =~= before + alerts_for(*stats, previous_count));
    } else {
        assert(texts(metrics.alerts@) =~= before + alerts_for(*stats, previous_count));
    }
}

/// Against a positive previous count `p`, a count `c` raises a growth alert
/// exactly when `2c >= 3p` and a drop alert exactly when `5c <= 4p`; the two
/// never fire together.
pub proof fn lemma_alert_thresholds_in_counts(current: usize, previous: usize, timestamp: u64)
    requires
        previous > 0,
        change_fits(current, Some(previous)),
    ensures
        ({
            let stats = HolderStats {
                count: current,
                timestamp,
                change: (current - previous) as i64,
                change_percent: percent_change(current as nat, previous as nat),
            };
            &&& growth_fires(stats, Some(previous)) <==> 2 * current >= 3 * previous
            &&& drop_fires(stats, Some(previous)) <==> 5 * current <= 4 * previous
            &&& !(growth_fires(stats, Some(previous)) && drop_fires(stats, Some(previous)))
        }),
{
}

/// Why a poll could not be recorded.
#[derive(Clone, Copy, Debug, PartialEq, Eq, Structural)]
pub enum PollError {
    /// The change from the previous count does not fit an `i64`.
    ChangeOverflow,
    /// The poll or holder counters would overflow.
    MetricsOverflow,
}

/// Records one poll that saw `holder_count` holders after `previous_count`:
/// computes its statistics, adds it to the metrics and raises the alerts it
/// calls for. A poll whose change or counters do not fit leaves the metrics
/// as they were.
pub fn record_poll(metrics: &mut Metrics, holder_count: usize, previous_count: Option<usize>) -> (r:
    Result<HolderStats, PollError>)
    ensures
        !change_fits(holder_count, previous_count) ==> r == Err::<HolderStats, PollError>(
            PollError::ChangeOverflow,
        ),
        change_fits(holder_count, previous_count) && !old(metrics).can_record(holder_count) ==> r
            == Err::<HolderStats, PollError>(PollError::MetricsOverflow),
        r is Err ==> {
            &&& final(metrics).alerts@ == old(metrics).alerts@
            &&& final(metrics).min_holders == old(metrics).min_holders
            &&& final(metrics).max_holders == old(metrics).max_holders
            &&& final(metrics).total_polls == old(metrics).total_polls
            &&& final(metrics).total_holders_sum == old(metrics).total_holders_sum
        },
        change_fits(holder_count, previous_count) && old(metrics).can_record(holder_count) ==> (
        r matches Ok(stats) && {
            &&& stats.count == holder_count
            &&& stats.change_percent.wf()
            &&& match previous_count {
                Some(p) => stats.change == holder_count - p && stats.change_percent
                    == percent_change(holder_count as nat, p as nat),
                None => stats.change == 0 && stats.change_percent == Percent::whole_spec(0),
            }
            &&& final(metrics).total_polls == old(metrics).total_polls + 1
            &&& final(metrics).total_holders_sum == old(metrics).total_holders_sum + holder_count
            &&& final(metrics).min_holders == Some(lower_of(old(metrics).min_holders, holder_count))
            &&& final(metrics).max_holders == Some(higher_of(old(metrics).max_holders, holder_count))
            &&& texts(final(metrics).alerts@) == texts(old(metrics).alerts@) + alerts_for(
                stats,
                previous_count,
            )
        }),
{
    if let Some(prev) = previous_count {
        let change = holder_count as i128 - prev as i128;
        if change < i64::MIN as i128 || change > i64::MAX as i128 {
            return Err(PollError::ChangeOverflow);
        }
    }
    if metrics.total_polls == usize::MAX || metrics.total_holders_sum > usize::MAX - holder_count {
        return Err(PollError::MetricsOverflow);
    }
    let stats = calculate_stats(holder_count, previous_count);
    metrics.update(holder_count);
    check_alerts(&stats, previous_count, metrics);
    Ok(stats)
}

/// The text `"YYYY-MM-DD HH:MM:SS UTC"` of the instant `secs` seconds after the
/// Unix epoch.
pub uninterp spec fn utc_text(secs: int) -> Seq<char>;

/// Relies on chrono's `DateTime::<Utc>::from_timestamp`, which is defined for
/// every instant up to `MAX_FORMATTED_SECS`, and on its `format`, which writes
/// the instant as `"%Y-%m-%d %H:%M:%S UTC"`.
#[verifier::external_body]
fn utc_timestamp_text(secs: u64) -> (r: String)
    requires
        secs <= MAX_FORMATTED_SECS,
    ensures
        r@ == utc_text(secs as int),
{
    chrono::DateTime::from_timestamp(secs as i64, 0).map(
        |d| d.format("%Y-%m-%d %H:%M:%S UTC").to_string(),
    ).unwrap_or_default()
}

/// The UTC date and time of `secs` seconds after the Unix epoch, as
/// `"YYYY-MM-DD HH:MM:SS UTC"`.
pub fn format_timestamp(secs: u64) -> (r: String)
    requires
        secs <= MAX_FORMATTED_SECS,
    ensures
        r@ == utc_text(secs as int),
{
    utc_timestamp_text(secs)
}

} // verus!
