//! The snake simulation: the ordered body, the current direction, the move
//! cadence, turn debouncing, growth, and death detection.
//!
//! The snake is alive until the cell its head would move into either leaves
//! the playable field or already holds a body segment; on that tick it dies
//! without moving, and a dead snake never changes again. Eating an item sets
//! a growth flag; the next committed move then keeps the tail, so the body
//! grows by at most one segment per move however many items were eaten.

use vstd::prelude::*;

use crate::apple::{eat_filter, AppleDispencer};
use crate::frame::{put_spec, write_points_spec, Drawable, Frame};
use crate::timer::{spec_tick, Timer};
use crate::{in_field, Point, NUM_COLS, NUM_ROWS};

verus! {

/// The four movement directions.
#[derive(Clone, Copy, PartialEq, Eq, Structural, Debug)]
pub enum Direction {
    Left,
    Up,
    Right,
    Down,
}

/// The direction that points straight back.
pub open spec fn opposite(d: Direction) -> Direction {
    match d {
        Direction::Left => Direction::Right,
        Direction::Up => Direction::Down,
        Direction::Right => Direction::Left,
        Direction::Down => Direction::Up,
    }
}

/// Whether `b` is at a right angle to `a`: the only turns that are accepted.
pub open spec fn perpendicular(a: Direction, b: Direction) -> bool {
    match a {
        Direction::Left | Direction::Right => b == Direction::Up || b == Direction::Down,
        Direction::Up | Direction::Down => b == Direction::Left || b == Direction::Right,
    }
}

/// Whether a head at `p` moving towards `d` stands on the last playable
/// cell in that direction, so that one more step would leave the field.
pub open spec fn at_border(p: Point, d: Direction) -> bool {
    match d {
        Direction::Left => p.x == 0,
        Direction::Up => p.y == 1,
        Direction::Right => p.x == NUM_COLS - 1,
        Direction::Down => p.y == NUM_ROWS - 1,
    }
}

/// The column the head would move to, as an unbounded integer.
pub open spec fn next_x(p: Point, d: Direction) -> int {
    match d {
        Direction::Left => p.x - 1,
        Direction::Right => p.x + 1,
        Direction::Up | Direction::Down => p.x as int,
    }
}

/// The row the head would move to, as an unbounded integer.
pub open spec fn next_y(p: Point, d: Direction) -> int {
    match d {
        Direction::Up => p.y - 1,
        Direction::Down => p.y + 1,
        Direction::Left | Direction::Right => p.y as int,
    }
}

/// The cell one step from `p` in direction `d`. Meaningful only when the
/// step stays on the field, which callers establish via [`at_border`].
pub open spec fn step_point(p: Point, d: Direction) -> Point {
    Point { x: next_x(p, d) as usize, y: next_y(p, d) as usize }
}

/// From a playable cell, the head is on the border exactly when the next
/// cell would leave the playable field.
pub proof fn lemma_border_is_leaving_field(p: Point, d: Direction)
    requires
        in_field(p),
    ensures
        at_border(p, d) <==> !(0 <= next_x(p, d) < NUM_COLS && 1 <= next_y(p, d) < NUM_ROWS),
{
}

/// The whole simulation state of one snake, as mathematical values.
#[verifier::ext_equal]
pub struct SnakeModel {
    /// Body cells, head first.
    pub body: Seq<Point>,
    /// Current movement direction.
    pub direction: Direction,
    /// The move-cadence clock.
    pub timer: Timer,
    /// False once a collision or border violation was detected.
    pub alive: bool,
    /// Whether a turn may still be accepted before the next committed move.
    pub can_turn: bool,
    /// Whether the next committed move keeps the tail.
    pub adding_tail: bool,
}

impl SnakeModel {
    /// The body is never empty and lies wholly on the playable field.
    pub open spec fn wf(self) -> bool {
        self.body.len() >= 1 && (forall|i: int|
            0 <= i < self.body.len() ==> in_field(#[trigger] self.body[i]))
    }
}

/// One move attempt, taken when the move timer has fired: either the snake
/// dies without moving, or the new head is pushed and the tail kept or
/// dropped according to the growth flag. A dead snake is left as it is.
pub open spec fn move_step(m: SnakeModel) -> SnakeModel {
    if !m.alive {
        m
    } else if at_border(m.body[0], m.direction) {
        SnakeModel { alive: false, ..m }
    } else {
        let next = step_point(m.body[0], m.direction);
        if m.body.contains(next) {
            SnakeModel { alive: false, ..m }
        } else if m.adding_tail {
            SnakeModel { body: m.body.insert(0, next), adding_tail: false, ..m }
        } else {
            SnakeModel { body: m.body.insert(0, next).drop_last(), ..m }
        }
    }
}

/// Whether the move attempt commits: the snake is alive and the next head
/// cell neither leaves the field nor hits the body.
pub open spec fn spec_committed(m: SnakeModel) -> bool {
    &&& m.alive
    &&& !at_border(m.body[0], m.direction)
    &&& !m.body.contains(step_point(m.body[0], m.direction))
}

/// One whole tick of duration `delta`: the move timer advances, and if it
/// fires it is reset, the move attempt runs, and a turn is allowed again.
pub open spec fn update_step(m: SnakeModel, delta: u64) -> SnakeModel {
    let t = spec_tick(m.timer, delta);
    if t.finished {
        let reset = Timer { total: 0, max: m.timer.max, finished: false };
        let moved = move_step(SnakeModel { timer: reset, ..m });
        SnakeModel { can_turn: true, ..moved }
    } else {
        SnakeModel { timer: t, ..m }
    }
}

/// Whether the tick of duration `delta` commits a move: the report a caller
/// uses to trigger the movement sound.
pub open spec fn update_moved(m: SnakeModel, delta: u64) -> bool {
    spec_tick(m.timer, delta).finished && spec_committed(m)
}

/// One turn request: accepted only when no turn was committed since the
/// last move and the requested direction is perpendicular to the current
/// one; otherwise the state is unchanged.
pub open spec fn turn_step(m: SnakeModel, d: Direction) -> SnakeModel {
    if m.can_turn && perpendicular(m.direction, d) {
        SnakeModel { direction: d, can_turn: false, ..m }
    } else {
        m
    }
}

/// The initial body: four segments at row 20, the head at column 20 and
/// the tail stretching left, opposite the initial direction.
pub open spec fn initial_body() -> Seq<Point> {
    seq![
        (Point { x: 20, y: 20 }),
        (Point { x: 19, y: 20 }),
        (Point { x: 18, y: 20 }),
        (Point { x: 17, y: 20 }),
    ]
}

/// The player-controlled snake.
pub struct Snake {
    /// Body cells, head first.
    pub body: Vec<Point>,
    /// Current movement direction.
    pub direction: Direction,
    /// Fires every `speed` milliseconds; each firing commits one move attempt.
    pub timer: Timer,
    /// False once the snake has died.
    pub alive: bool,
    /// Whether a turn may still be accepted before the next committed move.
    pub can_turn: bool,
    /// Whether the next committed move keeps the tail.
    pub adding_tail: bool,
}

impl View for Snake {
    type V = SnakeModel;

    open spec fn view(&self) -> SnakeModel {
        SnakeModel {
            body: self.body@,
            direction: self.direction,
            timer: self.timer,
            alive: self.alive,
            can_turn: self.can_turn,
            adding_tail: self.adding_tail,
        }
    }
}

impl Snake {
    /// The body is never empty and lies wholly on the playable field.
    pub open spec fn wf(self) -> bool {
        self@.wf()
    }

    /// A fresh snake: four segments long, facing right, moving every
    /// `speed` milliseconds, alive, allowed to turn, not growing.
    pub fn new(speed: u64) -> (s: Snake)
        ensures
            s@.body == initial_body(),
            s@.direction == Direction::Right,
            s@.timer == (Timer { total: 0, max: speed, finished: false }),
            s@.alive,
            s@.can_turn,
            !s@.adding_tail,
            s.wf(),
    {
        let head = Point::new(20, 20);
        let mut body: Vec<Point> = Vec::new();
        body.push(head);
        body.push(Point::new(head.x - 1, head.y));
        body.push(Point::new(head.x - 2, head.y));
        body.push(Point::new(head.x - 3, head.y));
        proof {
            assert(body@ =~= initial_body());
        }
        Snake {
            body,
            direction: Direction::Right,
            timer: Timer::new(speed),
            alive: true,
            can_turn: true,
            adding_tail: false,
        }
    }

    /// Advances the move timer by `delta` milliseconds; when it fires, the
    /// timer is reset, one move attempt runs and turning is allowed again.
    /// Returns whether a move was committed — true exactly once per
    /// committed move, never on a tick whose timer did not fire and never
    /// on a tick that kills the snake.
    pub fn update(&mut self, delta: u64) -> (moved: bool)
        requires
            old(self).wf(),
        ensures
            final(self)@ == update_step(old(self)@, delta),
            moved == update_moved(old(self)@, delta),
            final(self).wf(),
    {
        self.timer.tick(delta);
        if self.timer.finished() {
            self.timer.reset();
            let committed = self.next_move();
            self.can_turn = true;
            committed
        } else {
            false
        }
    }

    /// One move attempt: dies on the border or on its own body, otherwise
    /// commits the move, growing by one segment when the growth flag was set.
    fn next_move(&mut self) -> (committed: bool)
        requires
            old(self).wf(),
        ensures
            final(self)@ == move_step(old(self)@),
            committed == spec_committed(old(self)@),
            final(self).wf(),
    {
        let head = self.body[0];
        let mut next = head;
        self.move_or_dead(&mut next);
        if self.is_dead() {
            return false;
        }
        proof {
            lemma_border_is_leaving_field(head, self.direction);
        }
        self.body.insert(0, next);
        if self.adding_tail {
            self.adding_tail = false;
        } else {
            self.body.pop();
        }
        true
    }

    /// Computes the next head cell into `next`, marking the snake dead
    /// instead when that cell would leave the field or hit the body.
    fn move_or_dead(&mut self, next: &mut Point)
        requires
            old(self).wf(),
            *old(next) == old(self)@.body[0],
        ensures
            final(self)@.body == old(self)@.body,
            final(self)@.direction == old(self)@.direction,
            final(self)@.timer == old(self)@.timer,
            final(self)@.can_turn == old(self)@.can_turn,
            final(self)@.adding_tail == old(self)@.adding_tail,
            at_border(*old(next), old(self)@.direction) ==> !final(self)@.alive && *final(next)
                == *old(next),
            !at_border(*old(next), old(self)@.direction) ==> (*final(next) == step_point(
                *old(next),
                old(self)@.direction,
            ) && final(self)@.alive == (old(self)@.alive && !old(self)@.body.contains(
                *final(next),
            ))),
    {
        if self.is_boarder_next(next) {
            self.alive = false;
            return;
        }
        proof {
            lemma_border_is_leaving_field(*next, self.direction);
        }
        match self.direction {
            Direction::Left => next.x = next.x - 1,
            Direction::Up => next.y = next.y - 1,
            Direction::Right => next.x = next.x + 1,
            Direction::Down => next.y = next.y + 1,
        };
        if self.is_tail_next(next) {
            self.alive = false;
        }
    }

    /// Whether `next` is the last playable cell in the current direction.
    fn is_boarder_next(&self, next: &Point) -> (r: bool)
        ensures
            r == at_border(*next, self@.direction),
    {
        match self.direction {
            Direction::Left => next.x == 0,
            Direction::Up => next.y == 1,
            Direction::Right => next.x == NUM_COLS - 1,
            Direction::Down => next.y == NUM_ROWS - 1,
        }
    }

    /// Whether `next` already holds a body segment.
    fn is_tail_next(&self, next: &Point) -> (r: bool)
        ensures
            r == self@.body.contains(*next),
    {
        let mut i: usize = 0;
        while i < self.body.len()
            invariant
                i <= self.body@.len(),
                forall|j: int| 0 <= j < i ==> self.body@[j] != *next,
            decreases self.body@.len() - i,
        {
            if self.body[i] == *next {
                proof {
                    assert(self.body@[i as int] == *next);
                }
                return true;
            }
            i = i + 1;
        }
        false
    }

    /// Whether the snake has died.
    pub fn is_dead(&self) -> (r: bool)
        ensures
            r == !self@.alive,
    {
        !self.alive
    }

    /// Requests a turn. Accepted only when no turn was committed since the
    /// last move and the direction is perpendicular to the current one, so
    /// at most one turn registers per move interval and the snake can never
    /// reverse into its own neck.
    pub fn turn_if_possible(&mut self, new_direction: Direction)
        ensures
            final(self)@ == turn_step(old(self)@, new_direction),
    {
        if !self.can_turn {
            return;
        }
        let ok = match self.direction {
            Direction::Left | Direction::Right => new_direction == Direction::Up || new_direction
                == Direction::Down,
            Direction::Up | Direction::Down => new_direction == Direction::Left || new_direction
                == Direction::Right,
        };
        if ok {
            self.direction = new_direction;
            self.can_turn = false;
        }
    }

    /// Consumes every apple lying on a body cell and reports how many were
    /// eaten. Any consumption sets the growth flag; the flag is idempotent,
    /// so several apples eaten on one tick still grow the body by only one
    /// segment at the next committed move.
    pub fn check_if_ate_apple(&mut self, dispencer: &mut AppleDispencer) -> (ate: usize)
        ensures
            final(dispencer).deployed@ == eat_filter(old(dispencer).deployed@, old(self)@.body),
            final(dispencer).max_count == old(dispencer).max_count,
            ate == old(dispencer).deployed@.len() - final(dispencer).deployed@.len(),
            final(self)@ == (SnakeModel {
                adding_tail: old(self)@.adding_tail || ate > 0,
                ..old(self)@
            }),
            old(dispencer).wf() ==> final(dispencer).wf(),
    {
        let ate = dispencer.eat_apples_if(&self.body);
        if ate > 0 {
            self.adding_tail = true;
        }
        ate
    }

    /// Whether the next committed move will keep the tail.
    pub fn is_growing(&self) -> (r: bool)
        ensures
            r == self@.adding_tail,
    {
        self.adding_tail
    }
}

/// The glyph drawn at the head cell, pointing the way the snake moves.
pub open spec fn head_glyph(d: Direction) -> char {
    match d {
        Direction::Left => '⇐',
        Direction::Up => '⇑',
        Direction::Right => '⇒',
        Direction::Down => '⇓',
    }
}

impl Drawable for Snake {
    /// Drawing writes the direction glyph at the head cell, then the body
    /// glyph at every remaining segment in order; an empty body draws
    /// nothing.
    open spec fn draws(&self, pre: Seq<char>, post: Seq<char>) -> bool {
        if self@.body.len() == 0 {
            post == pre
        } else {
            post == write_points_spec(
                put_spec(
                    pre,
                    self@.body[0].x as int,
                    self@.body[0].y as int,
                    head_glyph(self@.direction),
                ),
                self@.body.drop_first(),
                'X',
            )
        }
    }

    fn draw(&self, frame: &mut Frame) {
        if self.body.len() == 0 {
            return;
        }
        let head = self.body[0];
        let head_char = match self.direction {
            Direction::Left => '⇐',
            Direction::Up => '⇑',
            Direction::Right => '⇒',
            Direction::Down => '⇓',
        };
        frame.put(head.x, head.y, head_char);
        let ghost mid = frame@;
        let mut i: usize = 1;
        while i < self.body.len()
            invariant
                1 <= i <= self.body@.len(),
                frame.wf(),
                frame@ == write_points_spec(mid, self.body@.subrange(1, i as int), 'X'),
            decreases self.body@.len() - i,
        {
            proof {
                assert(self.body@.subrange(1, i + 1).drop_last() =~= self.body@.subrange(
                    1,
                    i as int,
                ));
            }
            let p = self.body[i];
            frame.put(p.x, p.y, 'X');
            i = i + 1;
        }
        proof {
            assert(self.body@.subrange(1, self.body@.len() as int) =~= self.body@.drop_first());
        }
    }
}

/// The state reached by feeding the snake a whole sequence of tick deltas.
pub open spec fn run_ticks(m: SnakeModel, ds: Seq<u64>) -> SnakeModel
    decreases ds.len(),
{
    if ds.len() == 0 {
        m
    } else {
        run_ticks(update_step(m, ds.first()), ds.drop_first())
    }
}

/// One tick never shrinks the body and grows it by at most one segment,
/// however many items were eaten that tick: eating only sets a flag, and a
/// committed move consumes it for a single segment of growth.
pub proof fn lemma_tick_body_len(m: SnakeModel, delta: u64)
    ensures
        m.body.len() <= update_step(m, delta).body.len() <= m.body.len() + 1,
{
}

/// Over any sequence of ticks, body length is non-decreasing and has grown
/// by at most one segment per tick.
pub proof fn lemma_run_ticks_body_len(m: SnakeModel, ds: Seq<u64>)
    ensures
        m.body.len() <= run_ticks(m, ds).body.len() <= m.body.len() + ds.len(),
    decreases ds.len(),
{
    if ds.len() > 0 {
        lemma_tick_body_len(m, ds.first());
        lemma_run_ticks_body_len(update_step(m, ds.first()), ds.drop_first());
    }
}

/// A turn request for the current direction or its opposite never changes
/// the direction, nor anything else.
pub proof fn lemma_turn_ignores_parallel(m: SnakeModel, d: Direction)
    requires
        d == m.direction || d == opposite(m.direction),
    ensures
        turn_step(m, d) == m,
{
}

/// A perpendicular turn request is taken, and every further request before
/// the next committed move is ignored: at most one turn registers per move
/// interval.
pub proof fn lemma_one_turn_per_interval(m: SnakeModel, d1: Direction, d2: Direction)
    requires
        m.can_turn,
        perpendicular(m.direction, d1),
    ensures
        turn_step(m, d1).direction == d1,
        turn_step(turn_step(m, d1), d2) == turn_step(m, d1),
{
}

/// The state after a whole sequence of turn requests, none of them
/// interrupted by a committed move.
pub open spec fn run_turns(m: SnakeModel, ds: Seq<Direction>) -> SnakeModel
    decreases ds.len(),
{
    if ds.len() == 0 {
        m
    } else {
        run_turns(turn_step(m, ds.first()), ds.drop_first())
    }
}

/// However many requests follow an accepted turn before the next committed
/// move, none of them changes anything: the accepted direction stands.
pub proof fn lemma_requests_after_accepted_turn_ignored(
    m: SnakeModel,
    d1: Direction,
    ds: Seq<Direction>,
)
    requires
        m.can_turn,
        perpendicular(m.direction, d1),
    ensures
        run_turns(turn_step(m, d1), ds) == turn_step(m, d1),
        run_turns(turn_step(m, d1), ds).direction == d1,
    decreases ds.len(),
{
    if ds.len() > 0 {
        lemma_one_turn_per_interval(m, d1, ds.first());
        lemma_requests_after_accepted_turn_ignored(m, d1, ds.drop_first());
    }
}

/// The snake dies exactly on the tick whose move would take the head off
/// the playable field or onto an existing body segment, and its body does
/// not move on that tick; on every other firing tick the move commits.
pub proof fn lemma_death_exact(m: SnakeModel, delta: u64)
    requires
        m.wf(),
        m.alive,
    ensures
        ({
            let fired = spec_tick(m.timer, delta).finished;
            let head = m.body[0];
            let leaves = !(0 <= next_x(head, m.direction) < NUM_COLS && 1 <= next_y(
                head,
                m.direction,
            ) < NUM_ROWS);
            let dies = fired && (leaves || m.body.contains(step_point(head, m.direction)));
            &&& update_step(m, delta).alive == !dies
            &&& (dies ==> update_step(m, delta).body == m.body)
            &&& (fired && !dies ==> update_step(m, delta).body == (if m.adding_tail {
                m.body.insert(0, step_point(head, m.direction))
            } else {
                m.body.insert(0, step_point(head, m.direction)).drop_last()
            }))
        }),
{
    lemma_border_is_leaving_field(m.body[0], m.direction);
}

} // verus!
