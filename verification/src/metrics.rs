use vstd::prelude::*;
use vstd::string::*;
use crate::text::{append_digits, decimal, digits_in_base};

verus! {

/// The smallest distance, in samples, between the two ends of a graph range.
pub const MIN_RANGE: isize = 15;

/// `value unit`, with an `s` after the unit when the value is above one.
pub open spec fn duration_unit_text(value: nat, unit: Seq<char>) -> Seq<char> {
    decimal(value) + " "@ + unit + if value > 1 { "s"@ } else { Seq::<char>::empty() }
}

/// A number of seconds in the largest unit (sec, min, hr, day) it reaches,
/// rounded down.
pub open spec fn duration_text(seconds: nat) -> Seq<char> {
    if seconds < 60 {
        duration_unit_text(seconds, "sec"@)
    } else if seconds < 60 * 60 {
        duration_unit_text(seconds / 60, "min"@)
    } else if seconds < 60 * 60 * 24 {
        duration_unit_text(seconds / (60 * 60), "hr"@)
    } else {
        duration_unit_text(seconds / (60 * 60 * 24), "day"@)
    }
}

/// Writes `value unit`, plural when the value is above one (`2 mins`).
pub fn format_duration_unit(value: u64, unit: &str) -> (r: String)
    ensures
        r@ == duration_unit_text(value as nat, unit@),
{
    let mut s = String::new();
    append_digits(&mut s, value, 10);
    s.append(" ");
    s.append(unit);
    if value > 1 {
        s.append("s");
    }
    assert(s@ =~= duration_unit_text(value as nat, unit@));
    s
}

/// Writes a duration given in seconds in its largest whole unit
/// (`45 sec`, `2 mins`, `1 hr`, `3 days`).
pub fn format_duration(seconds: u64) -> (r: String)
    ensures
        r@ == duration_text(seconds as nat),
{
    if seconds < 60 {
        format_duration_unit(seconds, "sec")
    } else if seconds < 60 * 60 {
        format_duration_unit(seconds / 60, "min")
    } else if seconds < 60 * 60 * 24 {
        format_duration_unit(seconds / (60 * 60), "hr")
    } else {
        format_duration_unit(seconds / (60 * 60 * 24), "day")
    }
}

/// Distance between two integers.
pub open spec fn distance(a: int, b: int) -> int {
    if a >= b { a - b } else { b - a }
}

/// `x` held within `[lo, hi]`.
pub open spec fn clamped(x: int, lo: int, hi: int) -> int {
    if x < lo { lo } else if x > hi { hi } else { x }
}

/// The graph range after its ends are held within the stored samples:
/// `from` no earlier than `-max_samples`, `to` within `[-max_samples, 0]`.
pub open spec fn clamped_range(from: int, to: int, max_samples: int) -> (int, int) {
    (if from < -max_samples { -max_samples } else { from }, clamped(to, -max_samples, 0))
}

/// The graph range after the user moved its ends: the end the user moved
/// pushes the other one so that they stay `MIN_RANGE` apart, and `from`
/// stays before `to`.
pub open spec fn adjusted_range(from: int, to: int, stored_from: int, stored_to: int) -> (int, int) {
    let to1 = if from != stored_from && distance(from, to) < 15 { from + 15 } else { to };
    let from1 = if to1 != stored_to && distance(to1, from) < 15 { to1 - 15 } else { from };
    let to2 = if distance(from1, to1) < 15 { from1 + 15 } else { to1 };
    let from2 = if distance(to2, from1) < 15 { to2 - 15 } else { from1 };
    let from3 = if from2 > to2 { to2 - 15 } else { from2 };
    (from3, to2)
}

/// The positions `[lo, hi)` of a window of `len` samples that a graph
/// range selects, counting its ends back from the newest sample.
pub open spec fn window_of(range_start: int, range_end: int, max_samples: int, len: int) -> (int, int) {
    let back_start = -clamped(range_start, -max_samples, 0);
    let back_end = -clamped(range_end, -max_samples, 0);
    let s = if back_start > len { len } else { back_start };
    let e = if back_end > len { len } else { back_end };
    (len - s, len - e)
}

/// Whether two ends are less than `MIN_RANGE` apart.
fn closer_than_min_range(a: isize, b: isize) -> (r: bool)
    ensures
        r == (distance(a as int, b as int) < 15),
{
    let d: i128 = a as i128 - b as i128;
    -15 < d && d < 15
}

/// The metrics page: graphs over the last `max_samples` samples of each
/// metric.
pub struct Metrics {
    pub max_samples: usize,
}

impl Metrics {
    /// A metrics page keeping `max_samples` samples per metric.
    pub fn new(max_samples: usize) -> (r: Self)
        ensures
            r.max_samples == max_samples,
    {
        Metrics { max_samples }
    }

    /// Holds a stored graph range within the samples there are.
    pub fn clamp_range(&self, from: isize, to: isize) -> (r: (isize, isize))
        requires
            self.max_samples <= isize::MAX,
        ensures
            (r.0 as int, r.1 as int) == clamped_range(from as int, to as int, self.max_samples as int),
    {
        let start: isize = 0 - (self.max_samples as isize);
        let from = if from < start { start } else { from };
        let to = if to > 0 { 0 } else { to };
        let to = if to < start { start } else { to };
        (from, to)
    }

    /// Restores the distance between the ends of a graph range after the
    /// user moved them; `stored_from` and `stored_to` are the ends before.
    /// The ends come from the page's range sliders, which hold them within
    /// the stored samples.
    pub fn adjust_range(&self, from: isize, to: isize, stored_from: isize, stored_to: isize) -> (r: (isize, isize))
        requires
            self.max_samples <= isize::MAX - 45,
            -self.max_samples <= from <= 0,
            -self.max_samples <= to <= 0,
        ensures
            (r.0 as int, r.1 as int) == adjusted_range(from as int, to as int, stored_from as int, stored_to as int),
    {
        let mut from = from;
        let mut to = to;
        if from != stored_from && closer_than_min_range(from, to) {
            to = from + MIN_RANGE;
        }
        if to != stored_to && closer_than_min_range(to, from) {
            from = to - MIN_RANGE;
        }
        if closer_than_min_range(from, to) {
            to = from + MIN_RANGE;
        }
        if closer_than_min_range(to, from) {
            from = to - MIN_RANGE;
        }
        if from > to {
            from = to - MIN_RANGE;
        }
        (from, to)
    }

    /// The positions `(lo, hi)` such that `data[lo..hi]` holds the samples
    /// a graph range selects out of `len` samples.
    pub fn sample_window(&self, range_start: isize, range_end: isize, len: usize) -> (r: (usize, usize))
        requires
            self.max_samples <= isize::MAX,
            range_start <= range_end,
        ensures
            r.0 as int == window_of(range_start as int, range_end as int, self.max_samples as int, len as int).0,
            r.1 as int == window_of(range_start as int, range_end as int, self.max_samples as int, len as int).1,
            r.0 <= r.1 <= len,
    {
        let start: isize = 0 - (self.max_samples as isize);
        let cs = if range_start < start { start } else if range_start > 0 { 0 } else { range_start };
        let ce = if range_end < start { start } else if range_end > 0 { 0 } else { range_end };
        let mut s: usize = (0 - cs) as usize;
        let mut e: usize = (0 - ce) as usize;
        if s > len {
            s = len;
        }
        if e > len {
            e = len;
        }
        (len - s, len - e)
    }
}

/// The layout of the metrics page that the settings keep: the number of
/// graph columns, the graph height and the two ends of the graph range.
#[derive(Clone, Copy, Debug, PartialEq, Eq, Structural)]
pub struct MetricsLayout {
    pub graph_columns: usize,
    pub graph_height: usize,
    pub graph_range_from: isize,
    pub graph_range_to: isize,
}

/// Whether the page stores the settings once it was drawn: when a metric
/// was switched on or off (`toggled`), or when the layout the user left
/// differs from the stored one in any of its four values.
pub fn metrics_store_needed(toggled: bool, before: MetricsLayout, after: MetricsLayout) -> (r: bool)
    ensures
        r == (toggled || before != after),
{
    toggled
        || after.graph_columns != before.graph_columns
        || after.graph_height != before.graph_height
        || after.graph_range_from != before.graph_range_from
        || after.graph_range_to != before.graph_range_to
}

/// Whatever the user did, an adjusted graph range spans at least
/// `MIN_RANGE` samples, `from` before `to`.
pub proof fn lemma_adjusted_range_spans(from: int, to: int, stored_from: int, stored_to: int)
    ensures
        adjusted_range(from, to, stored_from, stored_to).1 - adjusted_range(from, to, stored_from, stored_to).0 >= 15,
{
}

/// A range whose ends are already `MIN_RANGE` apart in order is left as
/// it is.
pub proof fn lemma_adjusted_range_keeps_wide_ranges(from: int, to: int, stored_from: int, stored_to: int)
    requires
        to - from >= 15,
    ensures
        adjusted_range(from, to, stored_from, stored_to) == (from, to),
{
}

/// A clamped range lies within the samples: `to` within
/// `[-max_samples, 0]`, `from` no earlier than `-max_samples`, and a range
/// already inside is unchanged.
pub proof fn lemma_clamped_range_within(from: int, to: int, max_samples: int)
    requires
        max_samples >= 0,
    ensures
        clamped_range(from, to, max_samples).0 >= -max_samples,
        -max_samples <= clamped_range(from, to, max_samples).1 <= 0,
        (-max_samples <= from && -max_samples <= to <= 0) ==> clamped_range(from, to, max_samples) == (from, to),
{
}

/// Wider ranges select more samples: moving the start of a range earlier
/// never shrinks its window.
pub proof fn lemma_window_grows_backward(a: int, b: int, end: int, max_samples: int, len: int)
    requires
        a <= b <= end,
        max_samples >= 0,
        len >= 0,
    ensures
        window_of(a, end, max_samples, len).0 <= window_of(b, end, max_samples, len).0,
        window_of(a, end, max_samples, len).1 == window_of(b, end, max_samples, len).1,
{
}

} // verus!
