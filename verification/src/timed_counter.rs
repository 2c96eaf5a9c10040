//! A counter of the events of the last span of time.
use vstd::prelude::*;
use std::collections::VecDeque;

verus! {

#[verifier::external_type_specification]
#[verifier::external_body]
pub struct ExTimeDelta(chrono::TimeDelta);

/// Calls `chrono::Local::now()` and reads the instant as whole seconds since
/// the epoch (`DateTime::timestamp`) and the nanoseconds past that second
/// (`DateTime::timestamp_subsec_nanos`). Claims only the range the latter is
/// documented to have (above 999,999,999 during a leap second); the instant
/// is the clock's.
#[verifier::external_body]
fn local_now() -> (r: (i64, u32))
    ensures
        r.1 < 2_000_000_000,
{
    let now = chrono::Local::now();
    (now.timestamp(), now.timestamp_subsec_nanos())
}

/// The length of a `TimeDelta` in nanoseconds.
pub uninterp spec fn time_delta_total_nanos(span: chrono::TimeDelta) -> int;

/// Reads a `TimeDelta` as `TimeDelta::num_seconds` and `TimeDelta::subsec_nanos`.
/// Claims the documented range of the nanoseconds, and that seconds times
/// 10^9 plus nanoseconds is the whole span, named by `time_delta_total_nanos`.
#[verifier::external_body]
fn time_delta_parts(span: &chrono::TimeDelta) -> (r: (i64, i32))
    ensures
        -1_000_000_000 < r.1 < 1_000_000_000,
        r.0 * 1_000_000_000 + r.1 == time_delta_total_nanos(*span),
{
    (span.num_seconds(), span.subsec_nanos())
}

/// Bound on the magnitude of instants and spans in nanoseconds.
pub open spec fn nanos_bound() -> int {
    10_000_000_000_000_000_000_000_000_000
}

/// The current instant in nanoseconds since the epoch.
fn now_nanos() -> (r: i128)
    ensures
        -nanos_bound() <= r <= nanos_bound(),
{
    let (seconds, nanos) = local_now();
    (seconds as i128) * 1_000_000_000 + (nanos as i128)
}

/// Counts the events of the last `duration`: each `incr` records the current
/// instant, and `cnt` first forgets the instants older than `duration`.
#[derive(Debug)]
pub struct TimedCounter {
    /// The recorded instants in nanoseconds since the epoch, oldest first.
    times: VecDeque<i128>,
    /// The span of time counted, in nanoseconds.
    duration: i128,
}

impl TimedCounter {
    #[verifier::type_invariant]
    closed spec fn instants_bounded(&self) -> bool {
        &&& -nanos_bound() <= self.duration <= nanos_bound()
        &&& forall|i: int|
            0 <= i < self.times@.len() ==> -nanos_bound() <= #[trigger] self.times@[i] <= nanos_bound()
    }

    /// The recorded instants, in the order they were recorded.
    pub closed spec fn instants(&self) -> Seq<i128> {
        self.times@
    }

    /// The span of time counted, in nanoseconds.
    pub closed spec fn span(&self) -> i128 {
        self.duration
    }

    /// A counter over `duration` with nothing recorded.
    pub fn create(duration: chrono::TimeDelta) -> (r: TimedCounter)
        ensures
            r.instants() == Seq::<i128>::empty(),
            r.span() == time_delta_total_nanos(duration),
    {
        let (seconds, nanos) = time_delta_parts(&duration);
        TimedCounter::from_span(seconds, nanos)
    }

    /// A counter over a span of `seconds` seconds and `nanos` nanoseconds,
    /// with nothing recorded.
    pub fn from_span(seconds: i64, nanos: i32) -> (r: TimedCounter)
        requires
            -1_000_000_000 < nanos < 1_000_000_000,
        ensures
            r.instants() == Seq::<i128>::empty(),
            r.span() == seconds * 1_000_000_000 + nanos,
    {
        TimedCounter {
            times: VecDeque::new(),
            duration: (seconds as i128) * 1_000_000_000 + (nanos as i128),
        }
    }

    /// Records the current instant.
    pub fn incr(&mut self)
        ensures
            final(self).span() == old(self).span(),
            final(self).instants().len() == old(self).instants().len() + 1,
            final(self).instants().drop_last() == old(self).instants(),
    {
        let now = now_nanos();
        self.incr_at(now);
        assert(self.instants().drop_last() =~= old(self).instants());
    }

    /// Records the instant `now`.
    pub fn incr_at(&mut self, now: i128)
        requires
            -nanos_bound() <= now <= nanos_bound(),
        ensures
            final(self).instants() == old(self).instants().push(now),
            final(self).span() == old(self).span(),
    {
        proof {
            use_type_invariant(&*self);
        }
        let mut times: VecDeque<i128> = VecDeque::new();
        std::mem::swap(&mut times, &mut self.times);
        times.push_back(now);
        self.times = times;
    }

    /// The number of instants within the span, after forgetting the older ones.
    ///
    /// The oldest instants are forgotten one by one, each while the clock,
    /// read anew, shows it more than the span ago; the first one that is not
    /// stays, with all that follow.
    pub fn cnt(&mut self) -> (r: usize)
        ensures
            final(self).span() == old(self).span(),
            r == final(self).instants().len(),
            forgets_expired(old(self).instants(), final(self).instants(), old(self).span()),
    {
        self.pop_expired();
        self.times.len()
    }

    /// Forgets the oldest instant if, at the clock reading `now`, it lies
    /// more than the span in the past; returns whether it did.
    pub fn forget_oldest_if_expired(&mut self, now: i128) -> (popped: bool)
        requires
            -nanos_bound() <= now <= nanos_bound(),
        ensures
            popped == (old(self).instants().len() > 0 && now - old(self).instants()[0] > old(
                self,
            ).span()),
            final(self).instants() == if popped {
                old(self).instants().drop_first()
            } else {
                old(self).instants()
            },
            final(self).span() == old(self).span(),
    {
        proof {
            use_type_invariant(&*self);
        }
        if self.times.len() == 0 {
            return false;
        }
        let first = self.times[0];
        if now - first > self.duration {
            let mut times: VecDeque<i128> = VecDeque::new();
            std::mem::swap(&mut times, &mut self.times);
            times.pop_front();
            self.times = times;
            assert(self.times@ =~= old(self).times@.drop_first());
            true
        } else {
            false
        }
    }

    fn pop_expired(&mut self)
        ensures
            final(self).span() == old(self).span(),
            forgets_expired(old(self).instants(), final(self).instants(), old(self).span()),
    {
        let ghost recorded = self.instants();
        let ghost span = self.span();
        let ghost mut readings: Seq<int> = Seq::empty();
        loop
            invariant_except_break
                readings.len() + self.instants().len() == recorded.len(),
            invariant
                self.instants().len() <= recorded.len(),
                self.instants() == recorded.skip(recorded.len() - self.instants().len()),
                self.span() == span,
                forall|i: int|
                    0 <= i < recorded.len() - self.instants().len() ==> #[trigger] readings[i]
                        - recorded[i] > span,
            ensures
                self.instants().len() > 0 ==> readings.len() == recorded.len() - self.instants().len()
                    + 1 && readings[recorded.len() - self.instants().len()] - recorded[recorded.len()
                    - self.instants().len()] <= span,
                self.instants().len() == 0 ==> readings.len() == recorded.len(),
            decreases self.instants().len(),
        {
            if self.times.len() == 0 {
                break;
            }
            let ghost before = self.instants();
            let now = now_nanos();
            let popped = self.forget_oldest_if_expired(now);
            let ghost k = readings.len();
            assert(before[0] == recorded[k as int]);
            proof {
                readings = readings.push(now as int);
            }
            if !popped {
                break;
            }
            assert(self.instants() =~= recorded.skip(readings.len() as int));
        }
        assert(expired_then_kept(recorded, recorded.len() - self.instants().len(), span, readings));
    }
}

/// `k` oldest instants were each seen more than `span` old by a clock
/// reading, and, when instants remain, the next was seen at most `span` old
/// (`readings` holds the clock readings in order).
pub open spec fn expired_then_kept(before: Seq<i128>, k: int, span: i128, readings: Seq<int>) -> bool {
    &&& 0 <= k <= before.len()
    &&& forall|i: int| 0 <= i < k ==> #[trigger] readings[i] - before[i] > span
    &&& k < before.len() ==> readings.len() == k + 1 && readings[k] - before[k] <= span
    &&& k == before.len() ==> readings.len() == k
}

/// `after` is `before` without a prefix of instants that the clock showed
/// expired, ending at the first instant it did not.
pub open spec fn forgets_expired(before: Seq<i128>, after: Seq<i128>, span: i128) -> bool {
    let k = before.len() - after.len();
    &&& after.len() <= before.len()
    &&& after == before.skip(k)
    &&& exists|readings: Seq<int>| #[trigger] expired_then_kept(before, k, span, readings)
}

} // verus!
