//! Frame bookkeeping: the time between the last two ticks and the number of
//! frames rendered.
//!
//! Times are kept as nanoseconds since a clock origin taken when the
//! bookkeeping starts.

use std::time::Duration;
use vstd::prelude::*;

verus! {

#[verifier::external_type_specification]
#[verifier::external_body]
pub struct ExInstant(instant::Instant);

/// Nanoseconds elapsed from `earlier` to `later`, or zero when `later` is not
/// after `earlier`.
pub open spec fn gap(later: u128, earlier: u128) -> u128 {
    if later >= earlier {
        (later - earlier) as u128
    } else {
        0
    }
}

/// The `Duration` of `secs` seconds and `nanos` nanoseconds (what
/// `Duration::new` gives).
pub uninterp spec fn duration_of(secs: u64, nanos: u32) -> Duration;

/// Nanoseconds in a second.
pub const NANOS_PER_SEC: u128 = 1_000_000_000u128;

/// The whole seconds and the nanoseconds left over of `nanos` nanoseconds, as a
/// `Duration` holds them; a span longer than the longest `Duration` gives the
/// longest one.
pub open spec fn split_nanos(nanos: u128) -> (u64, u32) {
    if nanos / NANOS_PER_SEC <= u64::MAX {
        ((nanos / NANOS_PER_SEC) as u64, (nanos % NANOS_PER_SEC) as u32)
    } else {
        (u64::MAX, 999_999_999u32)
    }
}

/// Reads the clock through `instant::Instant::now`. Nothing is claimed of the
/// value: it is the current time.
#[verifier::external_body]
fn clock_now() -> instant::Instant {
    instant::Instant::now()
}

/// The time elapsed since `origin`, through `Instant::elapsed`. Nothing is
/// claimed of the value: it depends on the current time.
#[verifier::external_body]
fn elapsed_since(origin: &instant::Instant) -> Duration {
    origin.elapsed()
}

/// Total whole nanoseconds of `d`, through `Duration::as_nanos`. `Duration` is
/// opaque here, so nothing is claimed of the value.
#[verifier::external_body]
fn duration_nanos(d: &Duration) -> u128 {
    d.as_nanos()
}

/// The `Duration` of `secs` seconds and `nanos` nanoseconds, through
/// `Duration::new`, which is a function of its arguments alone. It panics only
/// when the nanoseconds carry over into seconds past the largest `u64`, which
/// `nanos` below one second rules out.
#[verifier::external_body]
fn duration_new(secs: u64, nanos: u32) -> (d: Duration)
    requires
        nanos < 1_000_000_000,
    ensures
        d == duration_of(secs, nanos),
{
    Duration::new(secs, nanos)
}

/// Frame bookkeeping of the engine.
pub struct EngineMeta {
    origin: instant::Instant,
    last_tick: u128,
    total_frames: u128,
    delta: u128,
}

/// Abstract value of the bookkeeping: the last tick and the time between the
/// last two ticks, in nanoseconds since the clock origin, and the frames
/// rendered.
pub ghost struct EngineMetaView {
    pub last_tick: u128,
    pub total_frames: u128,
    pub delta: u128,
}

impl View for EngineMeta {
    type V = EngineMetaView;

    closed spec fn view(&self) -> EngineMetaView {
        EngineMetaView { last_tick: self.last_tick, total_frames: self.total_frames, delta: self.delta }
    }
}

impl EngineMeta {
    /// Starts the bookkeeping: the clock origin is now, which is the first
    /// tick; no frame was rendered and no time has passed.
    pub fn new() -> (m: Self)
        ensures
            m@ == (EngineMetaView { last_tick: 0, total_frames: 0, delta: 0 }),
    {
        Self { origin: clock_now(), last_tick: 0, total_frames: 0, delta: 0 }
    }

    /// Once per frame before rendering; it has nothing to do.
    pub fn update(&mut self)
        ensures
            final(self)@ == old(self)@,
    {
    }

    /// Takes a tick at `now` (nanoseconds since the clock origin): the time
    /// since the previous tick becomes the delta, and `now` the last tick.
    pub fn tick_at(&mut self, now: u128)
        ensures
            final(self)@ == (EngineMetaView {
                last_tick: now,
                delta: gap(now, old(self)@.last_tick),
                ..old(self)@
            }),
    {
        if now >= self.last_tick {
            self.delta = now - self.last_tick;
        } else {
            self.delta = 0;
        }
        self.last_tick = now;
    }

    /// Takes a tick now: the delta becomes the time since the previous tick.
    pub fn update_delta(&mut self)
        ensures
            final(self)@.delta == gap(final(self)@.last_tick, old(self)@.last_tick),
            final(self)@.total_frames == old(self)@.total_frames,
    {
        let elapsed = elapsed_since(&self.origin);
        let now = duration_nanos(&elapsed);
        self.tick_at(now);
    }

    /// Counts one rendered frame.
    pub fn render(&mut self)
        requires
            old(self)@.total_frames < u128::MAX,
        ensures
            final(self)@ == (EngineMetaView {
                total_frames: (old(self)@.total_frames + 1) as u128,
                ..old(self)@
            }),
    {
        self.total_frames = self.total_frames + 1;
    }

    /// Frames rendered so far.
    pub fn total_frames(&self) -> (n: u128)
        ensures
            n == self@.total_frames,
    {
        self.total_frames
    }

    /// The time between the last two ticks, in nanoseconds.
    pub fn delta_nanos(&self) -> (n: u128)
        ensures
            n == self@.delta,
    {
        self.delta
    }

    /// The time between the last two ticks, as a `Duration` (the longest
    /// `Duration` if the time is longer still).
    pub fn delta_dur(&self) -> (d: Duration)
        ensures
            d == duration_of(split_nanos(self@.delta).0, split_nanos(self@.delta).1),
    {
        let secs = self.delta / 1_000_000_000u128;
        if secs <= u64::MAX as u128 {
            let nanos = self.delta % 1_000_000_000u128;
            duration_new(secs as u64, nanos as u32)
        } else {
            duration_new(u64::MAX, 999_999_999u32)
        }
    }
}

/// The time between two readings: when the later reading is not before the
/// earlier one, adding the gap to the earlier one gives the later one; a reading
/// before the earlier one gives no time at all.
pub proof fn lemma_gap_measures_time(later: u128, earlier: u128)
    ensures
        later >= earlier ==> earlier + gap(later, earlier) == later,
        later < earlier ==> gap(later, earlier) == 0,
{
}

/// A tick at `now` makes `now` the last tick and measures the delta from the
/// previous tick: ticking at `first` and then at `second` (not before it) leaves
/// the last tick at `second` and the delta `second - first`, whatever came
/// before.
pub proof fn lemma_successive_ticks(m: EngineMetaView, first: u128, second: u128)
    requires
        first <= second,
    ensures
        ({
            let m1 = EngineMetaView { last_tick: first, delta: gap(first, m.last_tick), ..m };
            let m2 = EngineMetaView { last_tick: second, delta: gap(second, m1.last_tick), ..m1 };
            &&& m2.last_tick == second
            &&& m2.delta + first == second
            &&& m2.total_frames == m.total_frames
        }),
{
}

/// The seconds and leftover nanoseconds of a span hold it exactly: the
/// leftover is below one second, and seconds times a billion plus the leftover
/// give the span back, whenever the seconds fit a `u64`; a longer span gives
/// the longest `Duration`.
pub proof fn lemma_split_nanos_exact(nanos: u128)
    ensures
        nanos / 1_000_000_000 <= u64::MAX ==> {
            &&& split_nanos(nanos).1 < 1_000_000_000
            &&& split_nanos(nanos).0 * 1_000_000_000 + split_nanos(nanos).1 == nanos
        },
        nanos / 1_000_000_000 > u64::MAX ==> split_nanos(nanos) == (u64::MAX, 999_999_999u32),
{
    assert(nanos == (nanos / 1_000_000_000) * 1_000_000_000 + nanos % 1_000_000_000)
        by (nonlinear_arith);
    assert(nanos % 1_000_000_000 < 1_000_000_000) by (nonlinear_arith);
}

/// With a clock that never goes back, the deltas of two successive ticks add up
/// to the time from the tick before them to the second tick.
pub proof fn lemma_deltas_add_up(before: u128, first: u128, second: u128)
    requires
        before <= first <= second,
    ensures
        gap(first, before) + gap(second, first) == gap(second, before),
{
}

} // verus!
