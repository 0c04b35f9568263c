//! Small helpers shared by the backends: menu text, unique ids, click
//! counting and a polled hand-off queue.
use std::collections::VecDeque;
use vstd::prelude::*;
use vstd::string::StrSliceExecFns;

verus! {

/// Relies on `String::push`: the character is appended at the end.
#[verifier::external_body]
pub(crate) fn push_char(s: &mut String, c: char)
    ensures
        final(s)@ == old(s)@.push(c),
{
    s.push(c)
}

/// The text kept, and whether an unmatched `&` is pending, after reading `s`
/// from left to right.
pub open spec fn strip_state(s: Seq<char>) -> (Seq<char>, bool)
    decreases s.len(),
{
    if s.len() == 0 {
        (Seq::empty(), false)
    } else {
        let (kept, saw) = strip_state(s.drop_last());
        let c = s.last();
        if c == '&' {
            (if saw { kept.push(c) } else { kept }, !saw)
        } else {
            (kept.push(c), false)
        }
    }
}

/// Menu text with its access-key markers removed: a lone `&` disappears and
/// `&&` stands for one literal `&`.
pub open spec fn stripped(s: Seq<char>) -> Seq<char> {
    strip_state(s).0
}

/// Strip the access keys from the menu string.
///
/// Changes "E&xit" to "Exit". Actual ampersands are escaped as "&&".
pub fn strip_access_key(raw_menu_text: &str) -> (r: String)
    ensures
        r@ == stripped(raw_menu_text@),
{
    let n = raw_menu_text.unicode_len();
    let mut saw_ampersand = false;
    let mut result = String::new();
    let mut i: usize = 0;
    while i < n
        invariant
            n == raw_menu_text@.len(),
            i <= n,
            (result@, saw_ampersand) == strip_state(raw_menu_text@.take(i as int)),
        decreases n - i,
    {
        let c = raw_menu_text.get_char(i);
        assert(raw_menu_text@.take(i + 1).drop_last() =~= raw_menu_text@.take(i as int));
        if c == '&' {
            if saw_ampersand {
                push_char(&mut result, c);
            }
            saw_ampersand = !saw_ampersand;
        } else {
            push_char(&mut result, c);
            saw_ampersand = false;
        }
        i = i + 1;
    }
    assert(raw_menu_text@.take(n as int) =~= raw_menu_text@);
    result
}

/// A counter handing out unique ids, starting at 1.
///
/// Each call of `next` returns the current value and moves the counter on by
/// one. Share it between threads behind a lock.
pub struct Counter {
    next_value: u64,
}

impl View for Counter {
    type V = u64;

    closed spec fn view(&self) -> u64 {
        self.next_value
    }
}

impl Counter {
    /// The counter never stands at zero.
    #[verifier::type_invariant]
    spec fn counter_inv(self) -> bool {
        self.next_value >= 1
    }

    /// Create a new counter.
    pub fn new() -> (r: Counter)
        ensures
            r@ == 1,
    {
        Counter { next_value: 1 }
    }

    /// Return the next value.
    pub fn next(&mut self) -> (r: u64)
        requires
            old(self)@ < u64::MAX,
        ensures
            r == old(self)@,
            r >= 1,
            final(self)@ == old(self)@ + 1,
    {
        proof {
            use_type_invariant(&*self);
        }
        let r = self.next_value;
        self.next_value = self.next_value + 1;
        r
    }

    /// Return the next value, which is never zero: the counter starts at 1
    /// and only moves up.
    pub fn next_nonzero(&mut self) -> (r: u64)
        requires
            old(self)@ < u64::MAX,
        ensures
            r != 0,
            r == old(self)@,
            final(self)@ == old(self)@ + 1,
    {
        self.next()
    }
}

/// A run of calls of `next` on a fresh counter: the values handed out are
/// 1, 2, 3, ... in turn, so they strictly increase and no two are equal.
///
/// `values[i]` is the view of the counter before the `i`-th call and
/// `outs[i]` what that call returned.
pub proof fn lemma_counter_run(values: Seq<u64>, outs: Seq<u64>)
    requires
        values.len() == outs.len() + 1,
        values[0] == 1,
        forall|i: int| 0 <= i < outs.len() ==> outs[i] == values[i],
        forall|i: int| 0 <= i < outs.len() ==> #[trigger] values[i + 1] == values[i] + 1,
    ensures
        forall|i: int| 0 <= i < outs.len() ==> outs[i] == i + 1,
        forall|i: int, j: int| 0 <= i < j < outs.len() ==> outs[i] < outs[j],
{
    assert forall|i: int| 0 <= i < values.len() implies values[i] == i + 1 by {
        lemma_counter_prefix(values, outs, i);
    }
}

proof fn lemma_counter_prefix(values: Seq<u64>, outs: Seq<u64>, i: int)
    requires
        values.len() == outs.len() + 1,
        values[0] == 1,
        forall|k: int| 0 <= k < outs.len() ==> #[trigger] values[k + 1] == values[k] + 1,
        0 <= i < values.len(),
    ensures
        values[i] == i + 1,
    decreases i,
{
    if i > 0 {
        lemma_counter_prefix(values, outs, i - 1);
    }
}

/// The default longest pause, in milliseconds, between two clicks of one run.
pub const MULTI_CLICK_INTERVAL_MS: u64 = 500;

/// The default largest distance between two clicks of one run.
pub const MULTI_CLICK_MAX_DISTANCE: u32 = 5;

/// A pointer position, in whole units.
#[derive(Clone, Copy, Debug, PartialEq, Eq)]
pub struct Point {
    pub x: i32,
    pub y: i32,
}

impl Point {
    pub fn new(x: i32, y: i32) -> (r: Point)
        ensures
            r.x == x,
            r.y == y,
    {
        Point { x, y }
    }
}

/// The squared Euclidean distance between two points.
pub open spec fn distance_squared(a: Point, b: Point) -> int {
    (a.x - b.x) * (a.x - b.x) + (a.y - b.y) * (a.y - b.y)
}

/// Whether a click at `now_ms` and `pos` starts a new run after a click at
/// `last_ms` and `last_pos` (none yet: always).
pub open spec fn starts_new_run(
    last_ms: u64,
    last_pos: Option<Point>,
    now_ms: u64,
    pos: Point,
    max_interval_ms: u64,
    max_distance: u32,
) -> bool {
    match last_pos {
        None => true,
        Some(p) => {
            let elapsed: int = if now_ms >= last_ms { now_ms - last_ms } else { 0 };
            elapsed > max_interval_ms || distance_squared(p, pos) > max_distance * max_distance
        },
    }
}

/// The count after one click: back to 1 on a new run, else one more,
/// saturating at 255.
pub open spec fn next_click_count(count: u8, new_run: bool) -> u8 {
    if new_run {
        1
    } else if count == u8::MAX {
        u8::MAX
    } else {
        (count + 1) as u8
    }
}

/// Relies on `instant::Instant::now`: the current instant; nothing is
/// known of its value.
#[verifier::external_body]
fn instant_now() -> (r: instant::Instant) {
    instant::Instant::now()
}

/// Relies on `instant::Instant::elapsed`: whole milliseconds since `since`;
/// nothing is known of the value, which depends on the clock.
#[verifier::external_body]
fn millis_since(since: &instant::Instant) -> (r: u64) {
    since.elapsed().as_millis() as u64
}

/// `instant::Instant`, carried as an opaque value: the moment a counter was
/// made, from which its click times are measured.
#[verifier::external_type_specification]
#[verifier::external_body]
pub struct ExInstant(instant::Instant);

/// A small helper for determining the click-count of a mouse-down event.
///
/// Click-count is incremented if both the duration and distance between a pair
/// of clicks are below some threshold. Times are milliseconds since the
/// counter was made.
pub struct ClickCounter {
    max_interval_ms: u64,
    max_distance: u32,
    epoch: instant::Instant,
    last_click_ms: u64,
    last_pos: Option<Point>,
    click_count: u8,
}

impl ClickCounter {
    pub closed spec fn max_interval_ms(&self) -> u64 {
        self.max_interval_ms
    }

    pub closed spec fn max_distance(&self) -> u32 {
        self.max_distance
    }

    pub closed spec fn last_click_ms(&self) -> u64 {
        self.last_click_ms
    }

    pub closed spec fn last_pos(&self) -> Option<Point> {
        self.last_pos
    }

    pub closed spec fn click_count(&self) -> u8 {
        self.click_count
    }

    /// Whether a click at `now_ms` and `pos` starts a new run.
    pub open spec fn is_new_run(&self, now_ms: u64, pos: Point) -> bool {
        starts_new_run(
            self.last_click_ms(),
            self.last_pos(),
            now_ms,
            pos,
            self.max_interval_ms(),
            self.max_distance(),
        )
    }

    /// Create a new ClickCounter with the given interval (milliseconds) and
    /// distance. No click has been seen yet, so the first one counts 1.
    pub fn new(max_interval_ms: u64, max_distance: u32) -> (r: ClickCounter)
        ensures
            r.max_interval_ms() == max_interval_ms,
            r.max_distance() == max_distance,
            r.last_pos() is None,
            r.last_click_ms() == 0,
            r.click_count() == 0,
    {
        ClickCounter {
            max_interval_ms,
            max_distance,
            epoch: instant_now(),
            last_click_ms: 0,
            last_pos: None,
            click_count: 0,
        }
    }

    pub fn set_interval_ms(&mut self, millis: u64)
        ensures
            final(self).max_interval_ms() == millis,
            final(self).max_distance() == old(self).max_distance(),
            final(self).last_click_ms() == old(self).last_click_ms(),
            final(self).last_pos() == old(self).last_pos(),
            final(self).click_count() == old(self).click_count(),
    {
        self.max_interval_ms = millis;
    }

    pub fn set_distance(&mut self, distance: u32)
        ensures
            final(self).max_distance() == distance,
            final(self).max_interval_ms() == old(self).max_interval_ms(),
            final(self).last_click_ms() == old(self).last_click_ms(),
            final(self).last_pos() == old(self).last_pos(),
            final(self).click_count() == old(self).click_count(),
    {
        self.max_distance = distance;
    }

    /// Return the click count for a click at `now_ms`, at the provided
    /// position, and remember that click.
    pub fn count_for_click_at(&mut self, now_ms: u64, click_pos: Point) -> (r: u8)
        ensures
            r == next_click_count(old(self).click_count(), old(self).is_new_run(now_ms, click_pos)),
            1 <= r,
            final(self).click_count() == r,
            final(self).last_click_ms() == now_ms,
            final(self).last_pos() == Some(click_pos),
            final(self).max_interval_ms() == old(self).max_interval_ms(),
            final(self).max_distance() == old(self).max_distance(),
    {
        let last_time = self.last_click_ms;
        let last_pos = self.last_pos;
        self.last_click_ms = now_ms;
        self.last_pos = Some(click_pos);
        let new_run = match last_pos {
            None => true,
            Some(p) => {
                let elapsed = now_ms.saturating_sub(last_time);
                let dx = (p.x as i64 - click_pos.x as i64) as i128;
                let dy = (p.y as i64 - click_pos.y as i64) as i128;
                let d = self.max_distance as i128;
                assert(0 <= dx * dx <= 0x1_0000_0000 * 0x1_0000_0000) by (nonlinear_arith)
                    requires
                        -0x1_0000_0000 <= dx <= 0x1_0000_0000,
                ;
                assert(0 <= dy * dy <= 0x1_0000_0000 * 0x1_0000_0000) by (nonlinear_arith)
                    requires
                        -0x1_0000_0000 <= dy <= 0x1_0000_0000,
                ;
                assert(0 <= d * d <= 0x1_0000_0000 * 0x1_0000_0000) by (nonlinear_arith)
                    requires
                        0 <= d <= 0x1_0000_0000,
                ;
                elapsed > self.max_interval_ms || dx * dx + dy * dy > d * d
            },
        };
        if new_run {
            self.click_count = 0;
        }
        let click_count = self.click_count.saturating_add(1);
        self.click_count = click_count;
        click_count
    }

    /// Return the click count for a click occurring now, at the provided
    /// position. The time is read from the clock; the count is the one that
    /// `count_for_click_at` gives for that time.
    pub fn count_for_click(&mut self, click_pos: Point) -> (r: u8)
        ensures
            r == next_click_count(
                old(self).click_count(),
                old(self).is_new_run(final(self).last_click_ms(), click_pos),
            ),
            final(self).click_count() == r,
            final(self).last_pos() == Some(click_pos),
            final(self).max_interval_ms() == old(self).max_interval_ms(),
            final(self).max_distance() == old(self).max_distance(),
    {
        let now_ms = millis_since(&self.epoch);
        self.count_for_click_at(now_ms, click_pos)
    }
}

impl Default for ClickCounter {
    fn default() -> (r: ClickCounter)
        ensures
            r.max_interval_ms() == MULTI_CLICK_INTERVAL_MS,
            r.max_distance() == MULTI_CLICK_MAX_DISTANCE,
            r.last_pos() is None,
            r.click_count() == 0,
    {
        ClickCounter::new(MULTI_CLICK_INTERVAL_MS, MULTI_CLICK_MAX_DISTANCE)
    }
}

/// However many clicks come in, quick and on one spot, the count stays at
/// most 255: once there, a click that continues the run leaves it at 255.
pub proof fn lemma_click_count_saturates(count: u8, new_run: bool)
    ensures
        next_click_count(count, new_run) <= 255,
        !new_run && count == 255 ==> next_click_count(count, new_run) == 255,
        !new_run && count < 255 ==> next_click_count(count, new_run) == count + 1,
{
}

/// A run of clicks that each continue the run, from a fresh count: the
/// `i`-th click counts `i + 1` up to 255, and 255 from then on.
pub proof fn lemma_click_run(counts: Seq<u8>)
    requires
        counts.len() >= 1,
        counts[0] == 1,
        forall|i: int|
            0 <= i < counts.len() - 1 ==> #[trigger] counts[i + 1] == next_click_count(
                counts[i],
                false,
            ),
    ensures
        forall|i: int|
            0 <= i < counts.len() ==> #[trigger] counts[i] == if i + 1 < 255 {
                i + 1
            } else {
                255
            },
{
    assert forall|i: int| 0 <= i < counts.len() implies #[trigger] counts[i] == if i + 1 < 255 {
        i + 1
    } else {
        255
    } by {
        lemma_click_run_prefix(counts, i);
    }
}

proof fn lemma_click_run_prefix(counts: Seq<u8>, i: int)
    requires
        counts.len() >= 1,
        counts[0] == 1,
        forall|k: int|
            0 <= k < counts.len() - 1 ==> #[trigger] counts[k + 1] == next_click_count(
                counts[k],
                false,
            ),
        0 <= i < counts.len(),
    ensures
        counts[i] == if i + 1 < 255 {
            i + 1
        } else {
            255
        },
    decreases i,
{
    if i > 0 {
        lemma_click_run_prefix(counts, i - 1);
    }
}

/// A queue handed from producers to one polling consumer, with a flag that
/// tells a producer when the consumer must be woken.
///
/// The flag is `true` when the consumer's last poll found the queue empty and
/// no item came in since: the next `enqueue` then owes one wake. The flag
/// and the items are one unit, so they are always changed together.
#[verifier::reject_recursive_types(T)]
pub struct SharedQueue<T> {
    items: VecDeque<T>,
    empty_flag: bool,
}

/// The queue's items, front first, and its empty flag.
pub struct QueueView<T> {
    pub items: Seq<T>,
    pub empty_flag: bool,
}

/// The queue and the result after `enqueue(t)`: the item goes to the back,
/// the flag is cleared, and its former value is returned.
pub open spec fn enqueued<T>(q: QueueView<T>, t: T) -> (QueueView<T>, bool) {
    (QueueView { items: q.items.push(t), empty_flag: false }, q.empty_flag)
}

/// The queue and the result after `try_dequeue()`: the front item, if any;
/// when there is none the flag is set.
pub open spec fn dequeued<T>(q: QueueView<T>) -> (QueueView<T>, Option<T>) {
    if q.items.len() == 0 {
        (QueueView { items: q.items, empty_flag: true }, None)
    } else {
        (QueueView { items: q.items.drop_first(), empty_flag: q.empty_flag }, Some(q.items[0]))
    }
}

impl<T> View for SharedQueue<T> {
    type V = QueueView<T>;

    closed spec fn view(&self) -> QueueView<T> {
        QueueView { items: self.items@, empty_flag: self.empty_flag }
    }
}

impl<T> SharedQueue<T> {
    /// A new, empty queue whose first `enqueue` owes a wake.
    pub fn new() -> (r: SharedQueue<T>)
        ensures
            r@ == (QueueView::<T> { items: Seq::empty(), empty_flag: true }),
    {
        SharedQueue { items: VecDeque::new(), empty_flag: true }
    }

    /// Adds a value to the queue. Returns `true` if the queue was empty before the value was added.
    /// In this case, you need to wake the dequeuer.
    #[must_use]
    pub fn enqueue(&mut self, t: T) -> (r: bool)
        ensures
            (final(self)@, r) == enqueued(old(self)@, t),
    {
        self.items.push_back(t);
        let was_empty = self.empty_flag;
        self.empty_flag = false;
        was_empty
    }

    /// Takes the front value, if there is one. When there is none the queue
    /// remembers that its next `enqueue` owes a wake.
    pub fn try_dequeue(&mut self) -> (r: Option<T>)
        ensures
            (final(self)@, r) == dequeued(old(self)@),
    {
        let result = self.items.pop_front();
        if result.is_none() {
            self.empty_flag = true;
        }
        result
    }

    /// The number of values waiting.
    pub fn len(&self) -> (r: usize)
        ensures
            r == self@.items.len(),
    {
        self.items.len()
    }
}

/// The wake signal: the first `enqueue` into a new queue owes a wake and a
/// second one before any dequeue does not; once `try_dequeue` has found the
/// queue empty, the next `enqueue` owes a wake again.
pub proof fn lemma_wake_rearmed<T>(q: QueueView<T>, a: T, b: T, c: T)
    ensures
        ({
            let fresh = QueueView::<T> { items: Seq::empty(), empty_flag: true };
            let (q1, r1) = enqueued(fresh, a);
            let (_q2, r2) = enqueued(q1, b);
            r1 && !r2
        }),
        dequeued(q).1 is None ==> enqueued(dequeued(q).0, c).1,
{
}

/// Items leave in the order they came in: after `enqueue(t)`, the queue's
/// former items come out first, and `t` after them.
pub proof fn lemma_fifo<T>(q: QueueView<T>, t: T)
    ensures
        enqueued(q, t).0.items.take(q.items.len() as int) == q.items,
        enqueued(q, t).0.items.last() == t,
        q.items.len() > 0 ==> dequeued(enqueued(q, t).0).1 == Some(q.items[0]),
        q.items.len() == 0 ==> dequeued(enqueued(q, t).0).1 == Some(t),
{
    assert(q.items.push(t).take(q.items.len() as int) =~= q.items);
}

} // verus!
