//! The fixed-rate frame timer.
//!
//! Rendering runs as fast as the display allows; the simulation advances in
//! ticks of one fixed length. A [`FrameTimer`] is told how much time passed
//! since the last frame, credits it (snapped to the tick length when it is
//! close to it, and smoothed over the last frames), and hands it out again
//! one tick at a time. What is left over is carried to the next frame.
//!
//! All times are whole nanoseconds. The clock is read outside this crate.

use fxhash::FxHashMap;
use ringbuffer::{ConstGenericRingBuffer, RingBuffer};
use vstd::prelude::*;

verus! {

/// `ringbuffer::ConstGenericRingBuffer`: a queue of at most `CAP` items in
/// which a new item replaces the oldest once the queue is full.
#[verifier::external_type_specification]
#[verifier::external_body]
#[verifier::reject_recursive_types(T)]
pub struct ExConstGenericRingBuffer<T, const CAP: usize>(ConstGenericRingBuffer<T, CAP>);

/// The items that `ring` holds, oldest first.
pub uninterp spec fn ring_items(ring: ConstGenericRingBuffer<u64, 8>) -> Seq<u64>;

/// How many items were ever put into `ring`.
pub uninterp spec fn ring_writes(ring: ConstGenericRingBuffer<u64, 8>) -> nat;

/// `ringbuffer::ConstGenericRingBuffer::new`: an empty ring into which
/// nothing was put yet.
#[verifier::external_body]
fn ring_new() -> (ring: ConstGenericRingBuffer<u64, 8>)
    ensures
        ring_items(ring) == Seq::<u64>::empty(),
        ring_writes(ring) == 0,
{
    ConstGenericRingBuffer::new()
}

/// `ringbuffer::RingBuffer::enqueue` on a ring of eight: the item becomes the
/// newest, and where the ring was full the oldest leaves. The ring counts
/// what was put into it in a `usize` without a check: the precondition keeps
/// that count in range.
#[verifier::external_body]
fn ring_push(ring: &mut ConstGenericRingBuffer<u64, 8>, item: u64)
    requires
        ring_writes(*old(ring)) < usize::MAX,
    ensures
        ring_items(*final(ring)) == slid(ring_items(*old(ring)), item),
        ring_writes(*final(ring)) == ring_writes(*old(ring)) + 1,
{
    let _ = ring.enqueue(item);
}

/// `ringbuffer::RingBuffer::to_vec`: the items of the ring, oldest first.
#[verifier::external_body]
fn ring_to_vec(ring: &ConstGenericRingBuffer<u64, 8>) -> (items: Vec<u64>)
    ensures
        items@ == ring_items(*ring),
{
    ring.to_vec()
}

/// The number of frames over which the credited time is averaged.
pub const BUFFER_SIZE: usize = 8;

/// A frame whose length is closer than this to the tick length counts as
/// exactly one tick long: 0.0002 s.
pub const SNAP_TOLERANCE: u64 = 200_000;

/// A window of at most eight items after `item` arrived: it is the newest,
/// and the oldest left if the window was full.
pub open spec fn slid(window: Seq<u64>, item: u64) -> Seq<u64> {
    if window.len() < 8 {
        window.push(item)
    } else {
        window.drop_first().push(item)
    }
}

/// The window of a timer that saw nothing but frames of `tick`.
pub open spec fn steady(tick: u64) -> Seq<u64> {
    Seq::new(8, |i: int| tick)
}

/// The sum of `items`.
pub open spec fn total(items: Seq<u64>) -> nat
    decreases items.len(),
{
    if items.len() == 0 {
        0
    } else {
        total(items.drop_last()) + items.last() as nat
    }
}

/// The distance between `a` and `b`.
pub open spec fn distance(a: u64, b: u64) -> nat {
    if a < b {
        (b - a) as nat
    } else {
        (a - b) as nat
    }
}

/// The distance between two time spans.
pub fn timediff_abs(a: u64, b: u64) -> (r: u64)
    ensures
        r == distance(a, b),
{
    if a < b {
        b - a
    } else {
        a - b
    }
}

proof fn lemma_total_bound(items: Seq<u64>)
    ensures
        total(items) <= items.len() * u64::MAX,
    decreases items.len(),
{
    if items.len() > 0 {
        lemma_total_bound(items.drop_last());
        assert(total(items) <= (items.len() - 1) * u64::MAX + u64::MAX);
        assert((items.len() - 1) * u64::MAX + u64::MAX == items.len() * u64::MAX)
            by (nonlinear_arith);
    }
}

/// The sum of `items`.
fn sum(items: &Vec<u64>) -> (r: u128)
    requires
        items@.len() <= 8,
    ensures
        r == total(items@),
{
    let mut acc: u128 = 0;
    let mut i: usize = 0;
    assert(items@.take(0) == Seq::<u64>::empty());
    while i < items.len()
        invariant
            i <= items.len(),
            items@.len() <= 8,
            acc == total(items@.take(i as int)),
        decreases items.len() - i,
    {
        let ghost seen = items@.take(i + 1);
        assert(seen.drop_last() == items@.take(i as int));
        assert(seen.last() == items@[i as int]);
        proof {
            lemma_total_bound(items@.take(i as int));
            assert(items@.take(i as int).len() * u64::MAX <= 8 * u64::MAX) by (nonlinear_arith)
                requires
                    items@.take(i as int).len() <= 8,
            ;
        }
        acc = acc + items[i] as u128;
        i += 1;
    }
    assert(items@.take(i as int) == items@);
    acc
}

/// The sum of a full window after an item arrived: the oldest item left.
proof fn lemma_total_slid(window: Seq<u64>, item: u64)
    requires
        window.len() == 8,
    ensures
        total(slid(window, item)) == total(window) - window[0] + item,
{
    let after = slid(window, item);
    assert(after.drop_last() == window.drop_first());
    lemma_total_drop_first(window);
}

proof fn lemma_total_drop_first(items: Seq<u64>)
    requires
        items.len() > 0,
    ensures
        total(items) == items[0] + total(items.drop_first()),
    decreases items.len(),
{
    if items.len() == 1 {
        assert(items.drop_last() == Seq::<u64>::empty());
        assert(items.drop_first() == Seq::<u64>::empty());
        assert(total(items.drop_last()) == 0);
    } else {
        lemma_total_drop_first(items.drop_last());
        assert(items.drop_last().drop_first() == items.drop_first().drop_last());
        assert(items.drop_first().last() == items.last());
        assert(items.drop_last()[0] == items[0]);
    }
}

/// Turns the time that frames take into ticks of a fixed length.
pub struct FrameTimer {
    desired_frametime: u64,
    last_update: u64,
    unused_time: u64,
    averager: ConstGenericRingBuffer<u64, 8>,
    writes: usize,
    time_snapping: bool,
    time_averaging: bool,
    elapsed: u64,
}

/// What a [`FrameTimer`] holds.
pub struct FrameTimerView {
    /// The length of a tick.
    pub desired_frametime: u64,
    /// The time on the caller's clock up to which frames were processed.
    pub last_update: u64,
    /// The credited time that was not handed out as ticks yet.
    pub unused_time: u64,
    /// The time credited for each of the last eight frames, oldest first.
    pub window: Seq<u64>,
    /// Whether frames about one tick long count as exactly one tick long.
    pub time_snapping: bool,
    /// Whether the credited time is averaged over the last eight frames.
    pub time_averaging: bool,
    /// The length of the frame that was measured last.
    pub elapsed: u64,
}

impl FrameTimerView {
    /// The length of the measured frame as it counts: the tick length when
    /// snapping is on and the frame is closer to it than the tolerance, the
    /// measured length otherwise.
    pub open spec fn snapped(self) -> u64 {
        if self.time_snapping && distance(self.elapsed, self.desired_frametime) < SNAP_TOLERANCE {
            self.desired_frametime
        } else {
            self.elapsed
        }
    }

    /// The time that the measured frame is credited with: with averaging, the
    /// mean of the window after the frame's own length entered it, rounded
    /// down; without, the frame's own length.
    pub open spec fn credit(self) -> nat {
        if self.time_averaging {
            total(slid(self.window, self.snapped())) / 8
        } else {
            self.snapped() as nat
        }
    }

    /// The timer after the measured frame was processed.
    pub open spec fn processed(self) -> FrameTimerView {
        FrameTimerView {
            last_update: (self.last_update + self.elapsed) as u64,
            unused_time: (self.unused_time + self.credit()) as u64,
            window: if self.time_averaging {
                slid(self.window, self.snapped())
            } else {
                self.window
            },
            ..self
        }
    }
}

impl View for FrameTimer {
    type V = FrameTimerView;

    closed spec fn view(&self) -> FrameTimerView {
        FrameTimerView {
            desired_frametime: self.desired_frametime,
            last_update: self.last_update,
            unused_time: self.unused_time,
            window: ring_items(self.averager),
            time_snapping: self.time_snapping,
            time_averaging: self.time_averaging,
            elapsed: self.elapsed,
        }
    }
}

impl FrameTimer {
    /// What holds of every timer: its window is full, and the count that it
    /// keeps of what went into its ring is not behind the ring's own.
    pub closed spec fn wf(&self) -> bool {
        &&& ring_items(self.averager).len() == 8
        &&& ring_writes(self.averager) <= self.writes
        &&& 8 <= self.writes
    }

    /// A timer with ticks of `desired_frametime` nanoseconds, at time zero of
    /// the caller's clock, with snapping and averaging on, nothing credited,
    /// and a window as after eight frames of exactly one tick each.
    pub fn with_frametime(desired_frametime: u64) -> (r: Self)
        ensures
            r.wf(),
            r@ == (FrameTimerView {
                desired_frametime,
                last_update: 0,
                unused_time: 0,
                window: steady(desired_frametime),
                time_snapping: true,
                time_averaging: true,
                elapsed: 0,
            }),
    {
        let mut averager = ring_new();
        let mut n: usize = 0;
        while n < BUFFER_SIZE
            invariant
                n <= 8,
                ring_writes(averager) == n,
                ring_items(averager) == Seq::new(n as nat, |i: int| desired_frametime),
            decreases 8 - n,
        {
            ring_push(&mut averager, desired_frametime);
            assert(Seq::new(n as nat, |i: int| desired_frametime).push(desired_frametime)
                == Seq::new((n + 1) as nat, |i: int| desired_frametime));
            n += 1;
        }
        assert(ring_items(averager) == steady(desired_frametime));
        Self {
            desired_frametime,
            last_update: 0,
            unused_time: 0,
            time_snapping: true,
            averager,
            writes: 8,
            time_averaging: true,
            elapsed: 0,
        }
    }

    /// The length of a tick.
    pub fn desired_frametime(&self) -> (r: u64)
        ensures
            r == self@.desired_frametime,
    {
        self.desired_frametime
    }

    /// The credited time that was not handed out as ticks yet.
    pub fn unused_time(&self) -> (r: u64)
        ensures
            r == self@.unused_time,
    {
        self.unused_time
    }

    /// The length of the frame that was measured last.
    pub fn elapsed(&self) -> (r: u64)
        ensures
            r == self@.elapsed,
    {
        self.elapsed
    }

    /// The time on the caller's clock up to which frames were processed.
    pub fn last_update(&self) -> (r: u64)
        ensures
            r == self@.last_update,
    {
        self.last_update
    }

    /// Turns snapping on or off.
    pub fn set_time_snapping(&mut self, on: bool)
        ensures
            final(self)@ == (FrameTimerView { time_snapping: on, ..old(self)@ }),
            old(self).wf() ==> final(self).wf(),
    {
        self.time_snapping = on;
    }

    /// Turns averaging on or off.
    pub fn set_time_averaging(&mut self, on: bool)
        ensures
            final(self)@ == (FrameTimerView { time_averaging: on, ..old(self)@ }),
            old(self).wf() ==> final(self).wf(),
    {
        self.time_averaging = on;
    }

    /// Hands out one tick if a full tick of credited time is there, and says
    /// whether it did.
    pub fn fuzzy_tick(&mut self) -> (r: bool)
        ensures
            r == (old(self)@.unused_time >= old(self)@.desired_frametime),
            final(self)@ == (FrameTimerView {
                unused_time: if r {
                    (old(self)@.unused_time - old(self)@.desired_frametime) as u64
                } else {
                    old(self)@.unused_time
                },
                ..old(self)@
            }),
            old(self).wf() ==> final(self).wf(),
    {
        if self.unused_time >= self.desired_frametime {
            self.unused_time -= self.desired_frametime;
            true
        } else {
            false
        }
    }

    /// Measures the frame: `now` is the time on the caller's clock, and the
    /// frame is as long as the clock moved since the last processed frame.
    /// A clock that moved backwards measures nothing.
    pub fn get_time(&mut self, now: u64)
        ensures
            final(self)@ == (FrameTimerView {
                elapsed: if now >= old(self)@.last_update {
                    (now - old(self)@.last_update) as u64
                } else {
                    0
                },
                ..old(self)@
            }),
            old(self).wf() ==> final(self).wf(),
    {
        self.elapsed = if now >= self.last_update {
            now - self.last_update
        } else {
            0
        };
    }

    /// The time that processing the measured frame would credit.
    pub fn pending_credit(&self) -> (r: u64)
        requires
            self.wf(),
        ensures
            r == self@.credit(),
    {
        let snapped = self.snapped_time();
        if self.time_averaging {
            let items = ring_to_vec(&self.averager);
            let ghost after = slid(items@, snapped);
            let all = sum(&items);
            proof {
                lemma_total_slid(items@, snapped);
                lemma_total_bound(after);
            }
            let mean = (all - items[0] as u128 + snapped as u128) / 8;
            mean as u64
        } else {
            snapped
        }
    }

    /// The length of the measured frame as it counts.
    fn snapped_time(&self) -> (r: u64)
        ensures
            r == self@.snapped(),
    {
        if self.time_snapping && timediff_abs(self.elapsed, self.desired_frametime)
            < SNAP_TOLERANCE {
            self.desired_frametime
        } else {
            self.elapsed
        }
    }

    /// Puts `delta_frametime` into the window and returns the mean of the
    /// window, rounded down.
    fn time_averaging(&mut self, delta_frametime: u64) -> (r: u64)
        requires
            old(self).wf(),
        ensures
            final(self).wf(),
            final(self)@ == (FrameTimerView {
                window: slid(old(self)@.window, delta_frametime),
                ..old(self)@
            }),
            r == total(final(self)@.window) / 8,
    {
        if self.writes == usize::MAX {
            let items = ring_to_vec(&self.averager);
            let mut fresh = ring_new();
            let mut n: usize = 0;
            assert(items@.take(0) == Seq::<u64>::empty());
            while n < 8
                invariant
                    n <= 8,
                    items@.len() == 8,
                    ring_writes(fresh) == n,
                    ring_items(fresh) == items@.take(n as int),
                decreases 8 - n,
            {
                ring_push(&mut fresh, items[n]);
                assert(items@.take(n as int).push(items@[n as int]) == items@.take(n + 1));
                n += 1;
            }
            assert(items@.take(8) == items@);
            self.averager = fresh;
            self.writes = 8;
        }
        self.writes += 1;
        ring_push(&mut self.averager, delta_frametime);
        let items = ring_to_vec(&self.averager);
        let all = sum(&items);
        proof {
            lemma_total_bound(items@);
        }
        (all / 8) as u64
    }

    /// Processes the measured frame: the clock position moves on by its
    /// length, and the time that it is credited with is added to the unused
    /// time. With averaging, the frame's length as it counts enters the
    /// window.
    pub fn process_elapsed(&mut self)
        requires
            old(self).wf(),
            old(self)@.last_update + old(self)@.elapsed <= u64::MAX,
            old(self)@.unused_time + old(self)@.credit() <= u64::MAX,
        ensures
            final(self).wf(),
            final(self)@ == old(self)@.processed(),
    {
        let mut delta_frametime = self.snapped_time();
        self.last_update += self.elapsed;
        if self.time_averaging {
            delta_frametime = self.time_averaging(delta_frametime);
        }
        self.unused_time += delta_frametime;
    }

    /// Forgets the credited time.
    pub fn resync(&mut self)
        ensures
            final(self)@ == (FrameTimerView { unused_time: 0, ..old(self)@ }),
            old(self).wf() ==> final(self).wf(),
    {
        self.unused_time = 0;
    }
}

/// Steady frames. A frame that is exactly one tick long, measured by a
/// timer whose window holds nothing but ticks, is credited with exactly one
/// tick, whether or not the timer snaps or averages, and leaves the window as
/// it was.
pub proof fn law_steady_frame(timer: FrameTimerView)
    requires
        timer.window == steady(timer.desired_frametime),
        timer.elapsed == timer.desired_frametime,
    ensures
        timer.credit() == timer.desired_frametime,
        timer.processed().window == timer.window,
{
    let tick = timer.desired_frametime;
    let after = slid(timer.window, tick);
    assert(after == timer.window);
    lemma_total_constant(after, tick);
    assert((8 * tick) / 8 == tick) by (nonlinear_arith);
}

proof fn lemma_total_constant(items: Seq<u64>, item: u64)
    requires
        forall|i: int| 0 <= i < items.len() ==> items[i] == item,
    ensures
        total(items) == items.len() * item,
    decreases items.len(),
{
    if items.len() > 0 {
        lemma_total_constant(items.drop_last(), item);
        assert((items.len() - 1) * item + item == items.len() * item) by (nonlinear_arith);
    }
}

/// After how many frames the histogram is reported and started afresh.
pub const REPORT_PERIOD: usize = 600;

/// Counts, frame by frame, how many ticks a frame held.
pub struct UpdateHistogram {
    histogram: FxHashMap<usize, usize>,
    counter: usize,
    print_count: usize,
}

/// What an [`UpdateHistogram`] holds.
pub struct UpdateHistogramView {
    /// How many frames held a number of ticks, by that number.
    pub histogram: Map<usize, usize>,
    /// The ticks of the frame that is under way.
    pub counter: usize,
    /// The frames since the last report.
    pub print_count: usize,
}

impl UpdateHistogramView {
    /// How many frames so far held as many ticks as the frame under way.
    pub open spec fn seen(self) -> usize {
        if self.histogram.contains_key(self.counter) {
            self.histogram[self.counter]
        } else {
            0
        }
    }

    /// The histogram after the frame under way was counted.
    pub open spec fn counted(self) -> Map<usize, usize> {
        self.histogram.insert(self.counter, (self.seen() + 1) as usize)
    }

    /// Whether the frame under way completes a period.
    pub open spec fn due(self) -> bool {
        self.print_count + 1 >= REPORT_PERIOD
    }
}

/// Whether `report` lists exactly the entries of `histogram`, each once:
/// every pair of the report is an entry, no number of ticks comes twice, and
/// every entry is in the report.
pub open spec fn reports(report: Seq<(usize, usize)>, histogram: Map<usize, usize>) -> bool {
    &&& forall|i: int|
        0 <= i < report.len() ==> histogram.contains_key((#[trigger] report[i]).0)
            && histogram[report[i].0] == report[i].1
    &&& forall|i: int, j: int|
        0 <= i < j < report.len() ==> (#[trigger] report[i]).0 != (#[trigger] report[j]).0
    &&& forall|ticks: usize| #[trigger]
        histogram.contains_key(ticks) ==> exists|i: int|
            0 <= i < report.len() && (#[trigger] report[i]).0 == ticks
}

/// The histogram without entries.
pub open spec fn no_counts() -> Map<usize, usize> {
    Map::empty()
}

/// `Default::default` of `fxhash::FxHashMap`: a map without entries.
#[verifier::external_body]
fn empty_counts() -> (counts: FxHashMap<usize, usize>)
    ensures
        counts@ == no_counts(),
{
    FxHashMap::default()
}

/// `HashMap::get` on an `fxhash::FxHashMap`, copied out of the map.
#[verifier::external_body]
fn count_of(counts: &FxHashMap<usize, usize>, ticks: usize) -> (count: Option<usize>)
    ensures
        count == (if counts@.contains_key(ticks) {
            Some(counts@[ticks])
        } else {
            None
        }),
{
    counts.get(&ticks).copied()
}

/// `HashMap::insert` on an `fxhash::FxHashMap`: the entry is set, no other
/// entry changes.
#[verifier::external_body]
fn put_count(counts: &mut FxHashMap<usize, usize>, ticks: usize, count: usize)
    ensures
        final(counts)@ == old(counts)@.insert(ticks, count),
{
    let _ = counts.insert(ticks, count);
}

/// `HashMap::drain` on an `fxhash::FxHashMap`, collected: every entry comes
/// once, in no order that the map promises, and the map is left empty.
#[verifier::external_body]
fn drain_counts(counts: &mut FxHashMap<usize, usize>) -> (report: Vec<(usize, usize)>)
    ensures
        reports(report@, old(counts)@),
        final(counts)@ == no_counts(),
{
    counts.drain().collect()
}

impl View for UpdateHistogram {
    type V = UpdateHistogramView;

    closed spec fn view(&self) -> UpdateHistogramView {
        UpdateHistogramView {
            histogram: self.histogram@,
            counter: self.counter,
            print_count: self.print_count,
        }
    }
}

impl UpdateHistogram {
    /// An empty histogram at the start of a period.
    pub fn new() -> (r: Self)
        ensures
            r@ == (UpdateHistogramView { histogram: Map::empty(), counter: 0, print_count: 0 }),
    {
        Self { print_count: 0, counter: 0, histogram: empty_counts() }
    }

    /// The ticks of the frame that is under way.
    pub fn counter(&self) -> (r: usize)
        ensures
            r == self@.counter,
    {
        self.counter
    }

    /// How many frames so far held as many ticks as the frame under way.
    pub fn seen(&self) -> (r: usize)
        ensures
            r == self@.seen(),
    {
        match count_of(&self.histogram, self.counter) {
            Some(count) => count,
            None => 0,
        }
    }

    /// Notes one tick of the frame under way.
    pub fn register_update(&mut self)
        requires
            old(self)@.counter < usize::MAX,
        ensures
            final(self)@ == (UpdateHistogramView {
                counter: (old(self)@.counter + 1) as usize,
                ..old(self)@
            }),
    {
        self.counter += 1;
    }

    /// Ends the frame under way: it is counted under the number of ticks
    /// that it held. Every 600th frame the histogram is handed out, to be
    /// reported, and started afresh.
    pub fn tick(&mut self) -> (report: Option<Vec<(usize, usize)>>)
        requires
            old(self)@.seen() < usize::MAX,
        ensures
            final(self)@.counter == 0,
            old(self)@.due() ==> report is Some && reports(report->0@, old(self)@.counted()),
            old(self)@.due() ==> final(self)@.histogram == Map::<usize, usize>::empty(),
            old(self)@.due() ==> final(self)@.print_count == 0,
            !old(self)@.due() ==> report is None && final(self)@.histogram == old(self)@.counted()
                && final(self)@.print_count == old(self)@.print_count + 1,
    {
        let seen = self.seen();
        put_count(&mut self.histogram, self.counter, seen + 1);
        self.counter = 0;
        if self.print_count >= REPORT_PERIOD - 1 {
            let report = drain_counts(&mut self.histogram);
            self.print_count = 0;
            Some(report)
        } else {
            self.print_count += 1;
            None
        }
    }
}

} // verus!
