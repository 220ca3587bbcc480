//! The item spawner: a bounded set of timed consumable apples.
//!
//! Each tick the spawner deploys at most one new apple while it holds fewer
//! than its configured maximum, at a random playable cell with a lifespan
//! drawn from a fixed range; then every apple's expiry clock advances and
//! the expired ones are dropped silently. The snake consumes apples by
//! handing over its body cells. Nothing stops an apple from spawning under
//! the snake: the spawner does no collision check on purpose.

use vstd::prelude::*;

use crate::frame::{put_spec, write_points_spec, Drawable, Frame};
use crate::timer::{spec_tick, Timer};
use crate::{in_field, Point, NUM_COLS, NUM_ROWS};

verus! {

/// Shortest lifespan a spawned apple can draw, in milliseconds.
pub const MIN_APPEAR_TIME_MS: u64 = 10000;

/// Longest lifespan a spawned apple can draw, in milliseconds.
pub const MAX_APPEAR_TIME_MS: u64 = 20000;

/// Relies on rand's `Rng::gen_range` on the thread-local generator: it
/// returns a uniform sample from `[lo, hi)` and panics only on an empty
/// range, which the precondition rules out.
#[verifier::external_body]
fn rand_range_u64(lo: u64, hi: u64) -> (r: u64)
    requires
        lo < hi,
    ensures
        lo <= r < hi,
{
    rand::Rng::gen_range(&mut rand::thread_rng(), lo..hi)
}

/// A timed consumable on the grid.
#[derive(Clone, Copy, PartialEq, Eq, Structural, Debug)]
pub struct Apple {
    /// The cell the apple occupies.
    pub place: Point,
    /// Expiry clock; its threshold is the apple's sampled lifespan.
    pub timer: Timer,
}

/// An apple as `deploy` creates it: on the playable field, with a fresh
/// expiry clock whose lifespan lies in the fixed range.
pub open spec fn fresh_apple(a: Apple) -> bool {
    &&& in_field(a.place)
    &&& a.timer.total == 0
    &&& !a.timer.finished
    &&& MIN_APPEAR_TIME_MS <= a.timer.max <= MAX_APPEAR_TIME_MS
}

impl Apple {
    /// On the playable field, with a coherent expiry clock whose lifespan
    /// lies in the fixed range.
    pub open spec fn wf(self) -> bool {
        &&& in_field(self.place)
        &&& self.timer.wf()
        &&& MIN_APPEAR_TIME_MS <= self.timer.max <= MAX_APPEAR_TIME_MS
    }

    /// A fresh apple at `place` with a randomly drawn lifespan.
    fn new(place: Point) -> (a: Apple)
        ensures
            a.place == place,
            a.timer.total == 0,
            !a.timer.finished,
            MIN_APPEAR_TIME_MS <= a.timer.max <= MAX_APPEAR_TIME_MS,
            in_field(place) ==> fresh_apple(a) && a.wf(),
    {
        let rand_time = rand_range_u64(MIN_APPEAR_TIME_MS, MAX_APPEAR_TIME_MS + 1);
        Apple { place, timer: Timer::new(rand_time) }
    }

    /// Advances the expiry clock by `delta` milliseconds and reports
    /// whether the apple's lifespan is over.
    pub fn timer_update_check(&mut self, delta: u64) -> (expired: bool)
        ensures
            *final(self) == tick_apple(*old(self), delta),
            expired == final(self).timer.finished,
            old(self).wf() ==> final(self).wf(),
    {
        proof {
            crate::timer::lemma_spec_tick_wf(self.timer, delta);
        }
        self.timer.tick(delta);
        if self.timer.finished() {
            return true;
        }
        false
    }

    /// The cell the apple occupies.
    pub fn get_position(&self) -> (p: Point)
        ensures
            p == self.place,
    {
        self.place
    }
}

/// `a` after `delta` more milliseconds have passed.
pub open spec fn tick_apple(a: Apple, delta: u64) -> Apple {
    Apple { place: a.place, timer: spec_tick(a.timer, delta) }
}

/// The apples that survive a tick of `delta`: every expiry clock advanced,
/// the finished ones dropped, the order of the rest kept.
pub open spec fn tick_filter(s: Seq<Apple>, delta: u64) -> Seq<Apple>
    decreases s.len(),
{
    if s.len() == 0 {
        Seq::empty()
    } else {
        let rest = tick_filter(s.drop_last(), delta);
        let a = tick_apple(s.last(), delta);
        if a.timer.finished {
            rest
        } else {
            rest.push(a)
        }
    }
}

/// The apples whose cell lies on no point of `body`, order kept: what is
/// left after the snake has eaten.
pub open spec fn eat_filter(s: Seq<Apple>, body: Seq<Point>) -> Seq<Apple>
    decreases s.len(),
{
    if s.len() == 0 {
        Seq::empty()
    } else {
        let rest = eat_filter(s.drop_last(), body);
        if body.contains(s.last().place) {
            rest
        } else {
            rest.push(s.last())
        }
    }
}

/// The tick pass never grows the collection; no survivor's clock is
/// finished; and well-formed apples stay well-formed.
pub proof fn lemma_tick_filter_props(s: Seq<Apple>, delta: u64)
    ensures
        tick_filter(s, delta).len() <= s.len(),
        forall|j: int|
            0 <= j < tick_filter(s, delta).len() ==> !(#[trigger] tick_filter(s, delta)[j])
                .timer.finished,
        (forall|i: int| 0 <= i < s.len() ==> (#[trigger] s[i]).wf()) ==> (forall|j: int|
            0 <= j < tick_filter(s, delta).len() ==> (#[trigger] tick_filter(s, delta)[j]).wf()),
    decreases s.len(),
{
    if s.len() > 0 {
        lemma_tick_filter_props(s.drop_last(), delta);
        crate::timer::lemma_spec_tick_wf(s.last().timer, delta);
    }
}

/// Eating never grows the collection, keeps apples well-formed, and every
/// survivor's cell lies on no point of `body`.
pub proof fn lemma_eat_filter_props(s: Seq<Apple>, body: Seq<Point>)
    ensures
        eat_filter(s, body).len() <= s.len(),
        forall|j: int|
            0 <= j < eat_filter(s, body).len() ==> !body.contains(
                (#[trigger] eat_filter(s, body)[j]).place,
            ),
        (forall|i: int| 0 <= i < s.len() ==> (#[trigger] s[i]).wf()) ==> (forall|j: int|
            0 <= j < eat_filter(s, body).len() ==> (#[trigger] eat_filter(s, body)[j]).wf()),
    decreases s.len(),
{
    if s.len() > 0 {
        lemma_eat_filter_props(s.drop_last(), body);
    }
}

/// Once an apple has accumulated its sampled lifespan, the tick pass drops
/// it: every survivor's clock is unfinished and still below its threshold.
pub proof fn lemma_expired_items_removed(s: Seq<Apple>, delta: u64)
    requires
        forall|i: int| 0 <= i < s.len() ==> (#[trigger] s[i]).timer.wf(),
    ensures
        forall|j: int|
            0 <= j < tick_filter(s, delta).len() ==> {
                let kept = #[trigger] tick_filter(s, delta)[j];
                !kept.timer.finished && kept.timer.total < kept.timer.max
            },
    decreases s.len(),
{
    if s.len() > 0 {
        assert forall|i: int|
            0 <= i < s.drop_last().len() implies (#[trigger] s.drop_last()[i]).timer.wf() by {
            assert(s.drop_last()[i] == s[i]);
        }
        lemma_expired_items_removed(s.drop_last(), delta);
        assert(s[s.len() - 1].timer.wf());
        crate::timer::lemma_spec_tick_wf(s.last().timer, delta);
        let rest = tick_filter(s.drop_last(), delta);
        let a = tick_apple(s.last(), delta);
        assert forall|j: int| 0 <= j < tick_filter(s, delta).len() implies {
            let kept = #[trigger] tick_filter(s, delta)[j];
            !kept.timer.finished && kept.timer.total < kept.timer.max
        } by {
            if !a.timer.finished && j == rest.len() {
                assert(tick_filter(s, delta)[j] == a);
                assert(a.timer.finished == (a.timer.total >= a.timer.max));
            } else {
                assert(tick_filter(s, delta)[j] == rest[j]);
            }
        }
    }
}

/// The expired apple itself is gone: no survivor equals the ticked form of
/// an apple whose clock has run out.
pub proof fn lemma_expired_item_not_kept(s: Seq<Apple>, delta: u64, i: int)
    requires
        0 <= i < s.len(),
        spec_tick(s[i].timer, delta).finished,
    ensures
        forall|j: int|
            0 <= j < tick_filter(s, delta).len() ==> #[trigger] tick_filter(s, delta)[j]
                != tick_apple(s[i], delta),
{
    lemma_tick_filter_props(s, delta);
}

/// Maintains a bounded collection of timed apples on the grid.
pub struct AppleDispencer {
    /// The apples currently on the grid.
    pub deployed: Vec<Apple>,
    /// Most apples allowed on the grid at once.
    pub max_count: u8,
}

impl AppleDispencer {
    /// Never more apples than the configured maximum, all well-formed.
    pub open spec fn wf(self) -> bool {
        &&& self.deployed@.len() <= self.max_count
        &&& forall|i: int| 0 <= i < self.deployed@.len() ==> (#[trigger] self.deployed@[i]).wf()
    }

    /// An empty spawner with the given capacity.
    pub fn new(max_count: u8) -> (d: AppleDispencer)
        ensures
            d.deployed@ == Seq::<Apple>::empty(),
            d.max_count == max_count,
            d.wf(),
    {
        let deployed: Vec<Apple> = Vec::new();
        AppleDispencer { max_count, deployed }
    }

    /// One spawner tick: when under capacity, exactly one new apple is
    /// deployed at a random playable cell with a random lifespan; then
    /// every apple's clock advances by `delta` and the expired are dropped.
    pub fn update(&mut self, delta: u64)
        requires
            old(self).wf(),
        ensures
            final(self).max_count == old(self).max_count,
            old(self).deployed@.len() >= old(self).max_count ==> final(self).deployed@
                == tick_filter(old(self).deployed@, delta),
            old(self).deployed@.len() < old(self).max_count ==> (exists|a: Apple|
                #[trigger] fresh_apple(a) && final(self).deployed@ == tick_filter(
                    old(self).deployed@.push(a),
                    delta,
                )),
            final(self).wf(),
            forall|j: int|
                0 <= j < final(self).deployed@.len() ==> !(#[trigger] final(self).deployed@[j])
                    .timer.finished,
    {
        let ghost pre = self.deployed@;
        proof {
            assert(pre.len() < 256);
        }
        if (self.deployed.len() as u8) < self.max_count {
            self.deploy();
        }
        let ghost spawned = self.deployed@;
        proof {
            if pre.len() < self.max_count {
                assert(spawned =~= pre.push(spawned.last()));
                assert(fresh_apple(spawned.last()));
                assert forall|k: int| 0 <= k < spawned.len() implies (#[trigger] spawned[k]).wf() by {
                    if k < pre.len() {
                        assert(spawned[k] == pre[k]);
                    } else {
                        assert(spawned[k] == spawned.last());
                    }
                }
            }
        }
        let n = self.deployed.len();
        let mut kept: Vec<Apple> = Vec::new();
        let mut i: usize = 0;
        while i < n
            invariant
                i <= n,
                n == self.deployed@.len(),
                self.deployed@ == spawned,
                kept@ == tick_filter(spawned.take(i as int), delta),
            decreases n - i,
        {
            proof {
                assert(spawned.take(i + 1).drop_last() =~= spawned.take(i as int));
            }
            let mut a = self.deployed[i];
            let expired = a.timer_update_check(delta);
            if !expired {
                kept.push(a);
            }
            i = i + 1;
        }
        proof {
            assert(spawned.take(n as int) =~= spawned);
            lemma_tick_filter_props(spawned, delta);
        }
        self.deployed = kept;
        proof {
            if pre.len() < self.max_count {
                let a = spawned.last();
                assert(fresh_apple(a) && self.deployed@ == tick_filter(pre.push(a), delta));
            }
        }
    }

    /// Removes every apple whose cell lies on a point of `body` and reports
    /// how many were consumed.
    pub fn eat_apples_if(&mut self, body: &Vec<Point>) -> (eaten: usize)
        ensures
            final(self).deployed@ == eat_filter(old(self).deployed@, body@),
            eaten == old(self).deployed@.len() - final(self).deployed@.len(),
            final(self).max_count == old(self).max_count,
            old(self).wf() ==> final(self).wf(),
    {
        let n = self.deployed.len();
        let mut kept: Vec<Apple> = Vec::new();
        let mut i: usize = 0;
        while i < n
            invariant
                i <= n,
                n == self.deployed@.len(),
                self.deployed@ == old(self).deployed@,
                self.max_count == old(self).max_count,
                kept@ == eat_filter(self.deployed@.take(i as int), body@),
                kept@.len() <= i,
            decreases n - i,
        {
            proof {
                assert(self.deployed@.take(i + 1).drop_last() =~= self.deployed@.take(i as int));
            }
            let a = self.deployed[i];
            if !contains_point(body, a.get_position()) {
                kept.push(a);
            }
            i = i + 1;
        }
        proof {
            assert(self.deployed@.take(n as int) =~= self.deployed@);
            lemma_eat_filter_props(self.deployed@, body@);
        }
        let eaten = n - kept.len();
        self.deployed = kept;
        eaten
    }

    /// Deploys one apple at a uniformly random playable cell — any column,
    /// any row below the reserved top row — with a random lifespan. The
    /// cell may coincide with the snake: spawning does not check.
    fn deploy(&mut self)
        ensures
            final(self).deployed@.len() == old(self).deployed@.len() + 1,
            final(self).deployed@.drop_last() == old(self).deployed@,
            fresh_apple(final(self).deployed@.last()),
            final(self).max_count == old(self).max_count,
    {
        let rand_x = rand_range_u64(0, NUM_COLS as u64);
        let rand_y = rand_range_u64(1, NUM_ROWS as u64);
        let apple = Apple::new(Point::new(rand_x as usize, rand_y as usize));
        self.deployed.push(apple);
        proof {
            assert(self.deployed@.drop_last() =~= old(self).deployed@);
        }
    }
}

/// Whether `p` equals one of the points of `body`.
fn contains_point(body: &Vec<Point>, p: Point) -> (r: bool)
    ensures
        r == body@.contains(p),
{
    let mut i: usize = 0;
    while i < body.len()
        invariant
            i <= body@.len(),
            forall|j: int| 0 <= j < i ==> body@[j] != p,
        decreases body@.len() - i,
    {
        if body[i] == p {
            proof {
                assert(body@[i as int] == p);
            }
            return true;
        }
        i = i + 1;
    }
    false
}

impl Drawable for Apple {
    /// Drawing an apple writes its glyph at its cell.
    open spec fn draws(&self, pre: Seq<char>, post: Seq<char>) -> bool {
        post == put_spec(pre, self.place.x as int, self.place.y as int, 'Q')
    }

    fn draw(&self, frame: &mut Frame) {
        frame.put(self.place.x, self.place.y, 'Q');
    }
}

impl Drawable for AppleDispencer {
    /// Drawing the spawner writes the apple glyph at every deployed cell,
    /// in deployment order.
    open spec fn draws(&self, pre: Seq<char>, post: Seq<char>) -> bool {
        post == write_points_spec(pre, self.deployed@.map_values(|a: Apple| a.place), 'Q')
    }

    fn draw(&self, frame: &mut Frame) {
        let ghost places = self.deployed@.map_values(|a: Apple| a.place);
        let mut i: usize = 0;
        while i < self.deployed.len()
            invariant
                i <= self.deployed@.len(),
                frame.wf(),
                frame@ == write_points_spec(old(frame)@, places.take(i as int), 'Q'),
                places == self.deployed@.map_values(|a: Apple| a.place),
            decreases self.deployed@.len() - i,
        {
            proof {
                assert(places.take(i + 1).drop_last() =~= places.take(i as int));
            }
            let a = self.deployed[i];
            frame.put(a.place.x, a.place.y, 'Q');
            i = i + 1;
        }
        proof {
            assert(places.take(self.deployed@.len() as int) =~= places);
        }
    }
}

} // verus!
