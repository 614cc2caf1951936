use vstd::prelude::*;

verus! {

/// The outcome of one request attempt: the HTTP status code (0 when the
/// transport failed and no status was received) and the elapsed time in
/// milliseconds.
#[derive(Debug, Clone, Copy, PartialEq, Eq, Structural)]
pub struct Result {
    pub status: u16,
    pub duration: u64,
}

impl Result {
    /// The record of one attempt: the status received, or 0 when none was.
    pub fn from_outcome(status: Option<u16>, duration: u64) -> (r: Result)
        ensures
            r.status == (match status {
                Some(s) => s,
                None => 0u16,
            }),
            r.duration == duration,
    {
        match status {
            Some(s) => Result { status: s, duration },
            None => Result { status: 0, duration },
        }
    }
}

/// Sum of the durations of a sequence of results.
pub open spec fn sum_durations(rs: Seq<Result>) -> int
    decreases rs.len(),
{
    if rs.len() == 0 {
        0
    } else {
        sum_durations(rs.drop_last()) + rs.last().duration
    }
}

/// The truncated arithmetic mean of the durations, or `None` for no results.
pub open spec fn mean_duration(rs: Seq<Result>) -> Option<int> {
    if rs.len() == 0 {
        None
    } else {
        Some(sum_durations(rs) / rs.len() as int)
    }
}

/// Each partial sum of durations is bounded by the count times the largest `u64`.
proof fn lemma_sum_bounded(rs: Seq<Result>)
    ensures
        0 <= sum_durations(rs) <= rs.len() * (u64::MAX as int),
    decreases rs.len(),
{
    if rs.len() > 0 {
        lemma_sum_bounded(rs.drop_last());
        assert(sum_durations(rs.drop_last()) <= (rs.len() - 1) * (u64::MAX as int));
        assert((rs.len() - 1) * (u64::MAX as int) + (u64::MAX as int) == rs.len() * (u64::MAX as int))
            by (nonlinear_arith);
    }
}

/// The average duration of a collection of results.
pub trait Average {
    fn avg(&self) -> Option<u64>;
}

impl Average for Vec<Result> {
    /// Mean duration, truncated to whole milliseconds; `None` when empty.
    fn avg(&self) -> (r: Option<u64>)
        ensures
            match mean_duration(self@) {
                None => r is None,
                Some(m) => r == Some(m as u64) && m <= u64::MAX,
            },
    {
        let n: usize = self.len();
        if n == 0 {
            return None;
        }
        let mut total: u128 = 0;
        let mut i: usize = 0;
        while i < n
            invariant
                n == self@.len(),
                i <= n,
                total as int == sum_durations(self@.subrange(0, i as int)),
                total as int <= i * (u64::MAX as int),
            decreases n - i,
        {
            proof {
                let s = self@.subrange(0, i as int + 1);
                assert(s.drop_last() =~= self@.subrange(0, i as int));
                assert(i * (u64::MAX as int) + (u64::MAX as int) == (i + 1) * (u64::MAX as int))
                    by (nonlinear_arith);
                assert((i + 1) * (u64::MAX as int) <= (usize::MAX as int) * (u64::MAX as int))
                    by (nonlinear_arith) requires i + 1 <= usize::MAX;
                assert((usize::MAX as int) * (u64::MAX as int) < u128::MAX) by (nonlinear_arith)
                    requires usize::MAX <= u64::MAX;
            }
            total = total + self[i].duration as u128;
            i = i + 1;
        }
        assert(self@.subrange(0, n as int) =~= self@);
        let m: u128 = total / (n as u128);
        proof {
            lemma_sum_bounded(self@);
            assert(total as int / n as int <= u64::MAX) by (nonlinear_arith)
                requires total as int <= n * (u64::MAX as int), n > 0;
        }
        Some(m as u64)
    }
}

/// What a report holds after `add_result` was called with each of `adds`,
/// in order, on a report that held `start`.
pub open spec fn after_additions(start: Seq<Result>, adds: Seq<Result>) -> Seq<Result>
    decreases adds.len(),
{
    if adds.len() == 0 {
        start
    } else {
        after_additions(start, adds.drop_last()).push(adds.last())
    }
}

/// Every addition counts once: after any sequence of `add_result` calls on a
/// new report (none included), the report holds exactly those results, so
/// `total()` equals the number of calls.
pub proof fn lemma_total_counts_additions(adds: Seq<Result>)
    ensures
        after_additions(Seq::empty(), adds) == adds,
        after_additions(Seq::empty(), adds).len() == adds.len(),
    decreases adds.len(),
{
    if adds.len() > 0 {
        lemma_total_counts_additions(adds.drop_last());
        assert(adds.drop_last().push(adds.last()) =~= adds);
    }
}

/// Accumulates the results of a run, in the order they were added.
#[derive(Debug)]
pub struct Report {
    results: Vec<Result>,
}

impl View for Report {
    type V = Seq<Result>;

    closed spec fn view(&self) -> Seq<Result> {
        self.results@
    }
}

impl Report {
    /// An empty report.
    pub fn new() -> (r: Report)
        ensures
            r@ == Seq::<Result>::empty(),
    {
        Report { results: Vec::new() }
    }

    /// Number of results added so far.
    pub fn total(&self) -> (r: usize)
        ensures
            r == self@.len(),
    {
        self.results.len()
    }

    /// Mean duration of the results, truncated to whole milliseconds;
    /// `None` when no result was added.
    pub fn avg(&self) -> (r: Option<u64>)
        ensures
            r is None <==> self@.len() == 0,
            self@.len() > 0 ==> r == Some((sum_durations(self@) / self@.len() as int) as u64),
            self@.len() > 0 ==> sum_durations(self@) / self@.len() as int <= u64::MAX,
    {
        self.results.avg()
    }

    /// Appends one result.
    pub fn add_result(&mut self, result: Result)
        ensures
            final(self)@ == old(self)@.push(result),
    {
        self.results.push(result);
    }
}

} // verus!
