//! The windowed event aggregation: given the event points reported by
//! upstream and the request time, sum the counts of every point that
//! falls inside the trailing 24-hour window and answer with a single
//! point carrying the request time and that sum.
//!
//! Timestamps are milliseconds since the Unix epoch. The window's lower
//! bound is inclusive: a point at exactly `now - WINDOW_MS` counts.

use vstd::prelude::*;

verus! {

/// Length of the aggregation window: 24 hours in milliseconds.
pub const WINDOW_MS: i64 = 86_400_000;

/// One (timestamp, count) sample: a point on the events-per-month
/// curve. `x_cord` is a timestamp in milliseconds since the epoch,
/// `y_cord` an event count.
#[derive(Clone, Copy, Debug, PartialEq, Eq, Structural)]
pub struct EventPoint {
    pub x_cord: i64,
    pub y_cord: u128,
}

/// Start of the trailing window for a request made at `now`.
pub open spec fn window_start(now: int) -> int {
    now - WINDOW_MS
}

/// Whether a point falls inside the window: at or after its start,
/// inclusive at exactly `now - WINDOW_MS`.
pub open spec fn in_window(p: EventPoint, now: int) -> bool {
    p.x_cord >= window_start(now)
}

/// The sum of `y_cord` over exactly those points of `s` that fall
/// inside the window ending at `now`.
pub open spec fn sum_in_window(s: Seq<EventPoint>, now: int) -> int
    decreases s.len(),
{
    if s.len() == 0 {
        0
    } else {
        sum_in_window(s.drop_last(), now) + if in_window(s.last(), now) {
            s.last().y_cord as int
        } else {
            0
        }
    }
}

/// Extending a prefix by one point adds that point's count exactly when
/// the point is inside the window.
proof fn lemma_sum_in_window_take_step(s: Seq<EventPoint>, now: int, i: int)
    requires
        0 <= i < s.len(),
    ensures
        sum_in_window(s.take(i + 1), now) == sum_in_window(s.take(i), now) + if in_window(
            s[i],
            now,
        ) {
            s[i].y_cord as int
        } else {
            0
        },
{
    assert(s.take(i + 1).drop_last() =~= s.take(i));
    assert(s.take(i + 1).last() == s[i]);
}

/// The sum over any prefix is at most the sum over the whole sequence.
proof fn lemma_sum_in_window_prefix_le(s: Seq<EventPoint>, now: int, i: int)
    requires
        0 <= i <= s.len(),
    ensures
        sum_in_window(s.take(i), now) <= sum_in_window(s, now),
    decreases s.len() - i,
{
    if i == s.len() {
        assert(s.take(i) =~= s);
    } else {
        lemma_sum_in_window_take_step(s, now, i);
        lemma_sum_in_window_prefix_le(s, now, i + 1);
    }
}

/// A point contributes to the windowed sum exactly when it lies inside
/// the window: appending a point inside the window adds its count, and
/// appending one before the window leaves the sum unchanged.
pub proof fn lemma_point_counts_iff_in_window(s: Seq<EventPoint>, now: int, p: EventPoint)
    ensures
        in_window(p, now) ==> sum_in_window(s.push(p), now) == sum_in_window(s, now)
            + p.y_cord as int,
        !in_window(p, now) ==> sum_in_window(s.push(p), now) == sum_in_window(s, now),
{
    assert(s.push(p).drop_last() =~= s);
    assert(s.push(p).last() == p);
}

/// The boundary is inclusive: a point at exactly `now - WINDOW_MS` is
/// inside the window, and a point one millisecond earlier is not.
pub proof fn lemma_window_boundary(p: EventPoint, now: int)
    ensures
        p.x_cord == now - WINDOW_MS ==> in_window(p, now),
        p.x_cord < now - WINDOW_MS ==> !in_window(p, now),
{
}

/// An empty event list sums to zero for every request time.
pub proof fn lemma_sum_in_window_empty(now: int)
    ensures
        sum_in_window(Seq::<EventPoint>::empty(), now) == 0,
{
}

/// Sums `y_cord` over the points inside the trailing window ending at
/// `now`. Returns `None` exactly when the true sum does not fit in the
/// result type.
pub fn sum_events(events: &Vec<EventPoint>, now: i64) -> (r: Option<u128>)
    ensures
        r is Some <==> sum_in_window(events@, now as int) <= u128::MAX,
        r is Some ==> r->0 == sum_in_window(events@, now as int),
{
    let window_lo: i128 = (now as i128) - (WINDOW_MS as i128);
    let mut total: u128 = 0;
    let mut i: usize = 0;
    while i < events.len()
        invariant
            i <= events@.len(),
            window_lo == window_start(now as int),
            total == sum_in_window(events@.take(i as int), now as int),
        decreases events@.len() - i,
    {
        proof {
            lemma_sum_in_window_take_step(events@, now as int, i as int);
        }
        let p = events[i];
        if (p.x_cord as i128) >= window_lo {
            if p.y_cord > u128::MAX - total {
                proof {
                    lemma_sum_in_window_prefix_le(events@, now as int, i + 1);
                }
                return None;
            }
            total = total + p.y_cord;
        }
        i = i + 1;
    }
    proof {
        assert(events@.take(events@.len() as int) =~= events@);
    }
    Some(total)
}

/// The aggregation served by the events handler: one point at the
/// request time carrying the windowed sum. `None` exactly when the sum
/// does not fit in the count type.
pub fn aggregate_events(events: &Vec<EventPoint>, now: i64) -> (r: Option<Vec<EventPoint>>)
    ensures
        r is Some <==> sum_in_window(events@, now as int) <= u128::MAX,
        r is Some ==> r->0@.len() == 1,
        r is Some ==> r->0@[0] == (EventPoint {
            x_cord: now,
            y_cord: sum_in_window(events@, now as int) as u128,
        }),
{
    match sum_events(events, now) {
        Some(total) => {
            let mut out: Vec<EventPoint> = Vec::new();
            out.push(EventPoint { x_cord: now, y_cord: total });
            Some(out)
        },
        None => None,
    }
}

} // verus!
