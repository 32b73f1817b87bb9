//! The grid simulation: snake body, heading, food, board and game state,
//! advanced one discrete step per tick.

use rand::RngExt;
use std::collections::VecDeque;
use vstd::prelude::*;

use crate::geom::Heading;
use crate::geom::Location;
use crate::geom::in_bounds;

verus! {

/// Whether the game is still running. The transition to `Over` is one-way:
/// once over, the simulation no longer changes.
#[derive(Clone, Copy, PartialEq, Eq, Structural, Debug)]
pub enum GameState {
    Playing,
    Over,
}

/// The mathematical state of a simulation: the snake head-first, the current
/// heading, the food cell, the board bounds and the game state.
#[verifier::ext_equal]
pub struct SimView {
    pub snake: Seq<Location>,
    pub heading: Heading,
    pub food: Location,
    pub width: i32,
    pub height: i32,
    pub state: GameState,
}

impl SimView {
    /// The invariant every simulation maintains: a positive board, a
    /// non-empty snake, food on the board, and — while play goes on — every
    /// segment on the board. After a wall collision the head may rest one
    /// cell outside, but the game is then over and nothing moves again.
    pub open spec fn wf(self) -> bool {
        &&& 1 <= self.width
        &&& 1 <= self.height
        &&& 1 <= self.snake.len()
        &&& in_bounds(self.food, self.width, self.height)
        &&& self.state == GameState::Playing ==> forall|j: int|
            0 <= j < self.snake.len() ==> in_bounds(
                #[trigger] self.snake[j],
                self.width,
                self.height,
            )
    }
}

/// The cell the head moves into on the next tick: the current head plus the
/// unit vector of the current heading.
pub open spec fn next_head(m: SimView) -> Location {
    Location {
        x: (m.snake[0].x + m.heading.dx()) as i32,
        y: (m.snake[0].y + m.heading.dy()) as i32,
    }
}

/// Whether the next tick reaches the food cell.
pub open spec fn eats(m: SimView) -> bool {
    m.state == GameState::Playing && next_head(m) == m.food
}

/// The snake after one tick: the next head is pushed on the front; the tail
/// is kept when the food is reached (the snake grows by one) and popped
/// otherwise (the snake moves).
pub open spec fn step_snake(m: SimView) -> Seq<Location> {
    if m.state != GameState::Playing {
        m.snake
    } else {
        let grown = seq![next_head(m)] + m.snake;
        if eats(m) {
            grown
        } else {
            grown.drop_last()
        }
    }
}

/// Whether the next head lies outside the board.
pub open spec fn hits_wall(m: SimView) -> bool {
    m.state == GameState::Playing && !in_bounds(next_head(m), m.width, m.height)
}

/// Whether the next head coincides with a segment of the snake's body after
/// the tick's growth or movement has been resolved — food consumption is
/// settled first, so a retained tail counts as body.
pub open spec fn hits_self(m: SimView) -> bool {
    m.state == GameState::Playing && exists|j: int|
        1 <= j < step_snake(m).len() && #[trigger] step_snake(m)[j] == next_head(m)
}

/// The game state after one tick: unchanged once over; otherwise `Over` as
/// soon as the wall or the body is hit, both checked on every tick.
pub open spec fn step_state(m: SimView) -> GameState {
    if m.state != GameState::Playing {
        m.state
    } else if hits_wall(m) || hits_self(m) {
        GameState::Over
    } else {
        GameState::Playing
    }
}

/// The whole state after one tick in which `new_food` is the replacement
/// food cell, used only when the food is reached this tick.
pub open spec fn step_model(m: SimView, new_food: Location) -> SimView {
    if m.state != GameState::Playing {
        m
    } else {
        SimView {
            snake: step_snake(m),
            heading: m.heading,
            food: if eats(m) { new_food } else { m.food },
            width: m.width,
            height: m.height,
            state: step_state(m),
        }
    }
}

/// An owned copy of everything a renderer needs; mutating it cannot touch
/// the simulation it was taken from.
#[derive(Clone, Debug)]
pub struct Snapshot {
    pub snake: Vec<Location>,
    pub food: Location,
    pub width: i32,
    pub height: i32,
    pub state: GameState,
}

/// The simulation core. It owns its state exclusively; it is mutated only by
/// `set_heading` and by the two step operations, and read through copies.
pub struct GridSimulation {
    snake: VecDeque<Location>,
    heading: Heading,
    food: Location,
    width: i32,
    height: i32,
    state: GameState,
}

impl View for GridSimulation {
    type V = SimView;

    closed spec fn view(&self) -> SimView {
        SimView {
            snake: self.snake@,
            heading: self.heading,
            food: self.food,
            width: self.width,
            height: self.height,
            state: self.state,
        }
    }
}

/// Relies on rand's `random_range` (through the thread-local generator):
/// a uniformly drawn integer in `[0, bound)`; the range is non-empty, so the
/// call does not panic.
#[verifier::external_body]
fn random_coordinate(bound: i32) -> (r: i32)
    requires
        1 <= bound,
    ensures
        0 <= r < bound,
{
    rand::rng().random_range(0..bound)
}

impl GridSimulation {
    /// A new simulation in the `Playing` state, with the snake given
    /// head-first. The board must be positive and every given cell on it.
    pub fn new(width: i32, height: i32, snake: Vec<Location>, heading: Heading, food: Location) -> (sim: Self)
        requires
            1 <= width,
            1 <= height,
            1 <= snake@.len(),
            forall|j: int| 0 <= j < snake@.len() ==> in_bounds(#[trigger] snake@[j], width, height),
            in_bounds(food, width, height),
        ensures
            sim@.wf(),
            sim@.snake == snake@,
            sim@.heading == heading,
            sim@.food == food,
            sim@.width == width,
            sim@.height == height,
            sim@.state == GameState::Playing,
    {
        let mut body: VecDeque<Location> = VecDeque::new();
        let mut i: usize = 0;
        while i < snake.len()
            invariant
                i <= snake@.len(),
                body@ == snake@.subrange(0, i as int),
            decreases snake@.len() - i,
        {
            body.push_back(snake[i]);
            proof {
                assert(snake@.subrange(0, i as int).push(snake@[i as int]) =~= snake@.subrange(
                    0,
                    i as int + 1,
                ));
            }
            i = i + 1;
        }
        proof {
            assert(body@ =~= snake@);
        }
        GridSimulation { snake: body, heading, food, width, height, state: GameState::Playing }
    }

    /// One tick with the replacement food cell supplied by the caller, so a
    /// deterministic source can stand in for the random draw. A no-op once
    /// the game is over. While playing: the head advances one cell along the
    /// heading; on reaching the food the snake keeps its tail (growing by
    /// one) and the food moves to `new_food`, otherwise the tail is popped;
    /// then the wall and the body are both checked, and either collision
    /// ends the game.
    pub fn step_with_food(&mut self, new_food: Location)
        requires
            old(self)@.wf(),
            in_bounds(new_food, old(self)@.width, old(self)@.height),
        ensures
            final(self)@.wf(),
            final(self)@ == step_model(old(self)@, new_food),
    {
        let ghost m = self@;
        if self.state != GameState::Playing {
            proof {
                assert(self@ =~= step_model(m, new_food));
            }
            return;
        }
        assert(in_bounds(m.snake[0], m.width, m.height));
        let head: Location = self.snake[0];
        let next: Location = match self.heading {
            Heading::Up => Location { x: head.x, y: head.y - 1 },
            Heading::Down => Location { x: head.x, y: head.y + 1 },
            Heading::Left => Location { x: head.x - 1, y: head.y },
            Heading::Right => Location { x: head.x + 1, y: head.y },
        };
        assert(next == next_head(m));
        self.snake.push_front(next);
        if next == self.food {
            self.food = new_food;
            assert(self.snake@ =~= step_snake(m));
        } else {
            self.snake.pop_back();
            proof {
                assert(self.snake@ =~= (seq![next] + m.snake).drop_last());
            }
        }
        let hit_wall = next.x < 0 || next.x >= self.width || next.y < 0 || next.y >= self.height;
        assert(hit_wall == hits_wall(m));
        let mut hit_body = false;
        let mut i: usize = 1;
        while i < self.snake.len()
            invariant
                1 <= i <= self.snake@.len(),
                self.snake@ == step_snake(m),
                hit_body == exists|j: int|
                    1 <= j < i && #[trigger] step_snake(m)[j] == next_head(m),
                next == next_head(m),
            decreases self.snake@.len() - i,
        {
            if self.snake[i] == next {
                hit_body = true;
                proof {
                    assert(step_snake(m)[i as int] == next_head(m));
                }
            }
            i = i + 1;
        }
        assert(hit_body == hits_self(m));
        if hit_wall || hit_body {
            self.state = GameState::Over;
        }
        proof {
            assert(self@.state == step_state(m));
            assert forall|j: int|
                self@.state == GameState::Playing && 0 <= j < self@.snake.len() implies in_bounds(
                #[trigger] self@.snake[j],
                self@.width,
                self@.height,
            ) by {
                if j == 0 {
                    assert(self@.snake[0] == next_head(m));
                } else {
                    assert(self@.snake[j] == m.snake[j - 1]);
                    assert(in_bounds(m.snake[j - 1], m.width, m.height));
                }
            }
            assert(self@ =~= step_model(m, new_food));
        }
    }

    /// One tick, drawing the replacement food cell uniformly at random over
    /// the board when the food is reached. Everything but the food's new
    /// position is pinned down; of the food only that it lands on the board.
    /// The draw does not reject cells occupied by the body: the food may
    /// reappear under the snake. That is deliberate, documented behaviour,
    /// not an oversight.
    pub fn step(&mut self)
        requires
            old(self)@.wf(),
        ensures
            final(self)@.wf(),
            final(self)@.snake == step_snake(old(self)@),
            final(self)@.state == step_state(old(self)@),
            final(self)@.heading == old(self)@.heading,
            final(self)@.width == old(self)@.width,
            final(self)@.height == old(self)@.height,
            !eats(old(self)@) ==> final(self)@.food == old(self)@.food,
            eats(old(self)@) ==> in_bounds(final(self)@.food, old(self)@.width, old(self)@.height),
    {
        let fx = random_coordinate(self.width);
        let fy = random_coordinate(self.height);
        self.step_with_food(Location { x: fx, y: fy });
    }

    /// Turn the snake, unless the request is the exact opposite of the
    /// current heading — an about-turn would run the head straight into the
    /// neck, so it is ignored and the heading kept. Ignored as well once the
    /// game is over, so a frozen board sees no direction churn. Nothing else
    /// changes, and the call always succeeds.
    pub fn set_heading(&mut self, requested: Heading)
        ensures
            final(self)@.heading == if old(self)@.state == GameState::Playing && requested
                != old(self)@.heading.spec_opposite() {
                requested
            } else {
                old(self)@.heading
            },
            requested == old(self)@.heading.spec_opposite() ==> final(self)@.heading == old(
                self,
            )@.heading,
            final(self)@.snake == old(self)@.snake,
            final(self)@.food == old(self)@.food,
            final(self)@.width == old(self)@.width,
            final(self)@.height == old(self)@.height,
            final(self)@.state == old(self)@.state,
            old(self)@.wf() ==> final(self)@.wf(),
    {
        if self.state == GameState::Playing && requested != self.heading.opposite() {
            self.heading = requested;
        }
    }

    /// An owned copy of the renderable state: the snake head-first, the
    /// food, the board bounds and the game state. The copy shares nothing
    /// with the simulation, so changing it affects no later step.
    pub fn snapshot(&self) -> (s: Snapshot)
        ensures
            s.snake@ == self@.snake,
            s.food == self@.food,
            s.width == self@.width,
            s.height == self@.height,
            s.state == self@.state,
    {
        let mut body: Vec<Location> = Vec::new();
        let mut i: usize = 0;
        while i < self.snake.len()
            invariant
                i <= self.snake@.len(),
                body@ == self@.snake.subrange(0, i as int),
            decreases self.snake@.len() - i,
        {
            body.push(self.snake[i]);
            proof {
                assert(self@.snake.subrange(0, i as int).push(self@.snake[i as int])
                    =~= self@.snake.subrange(0, i as int + 1));
            }
            i = i + 1;
        }
        proof {
            assert(body@ =~= self@.snake);
        }
        Snapshot {
            snake: body,
            food: self.food,
            width: self.width,
            height: self.height,
            state: self.state,
        }
    }

    /// The number of segments in the snake, head included.
    pub fn len(&self) -> (n: usize)
        ensures
            n == self@.snake.len(),
    {
        self.snake.len()
    }

    /// The segment at index `i`, counting from the head.
    pub fn segment(&self, i: usize) -> (l: Location)
        requires
            i < self@.snake.len(),
        ensures
            l == self@.snake[i as int],
    {
        self.snake[i]
    }

    /// The current heading.
    pub fn heading(&self) -> (h: Heading)
        ensures
            h == self@.heading,
    {
        self.heading
    }

    /// The current food cell.
    pub fn food(&self) -> (f: Location)
        ensures
            f == self@.food,
    {
        self.food
    }

    /// The board width, in cells.
    pub fn width(&self) -> (w: i32)
        ensures
            w == self@.width,
    {
        self.width
    }

    /// The board height, in cells.
    pub fn height(&self) -> (h: i32)
        ensures
            h == self@.height,
    {
        self.height
    }

    /// Whether the game is still running or already over.
    pub fn game_state(&self) -> (s: GameState)
        ensures
            s == self@.state,
    {
        self.state
    }
}

/// Law: on a tick that does not reach the food, the snake's length is
/// conserved, the head is translated by exactly the unit vector of the
/// current heading, and every other segment takes its predecessor's place.
pub proof fn lemma_movement(m: SimView)
    requires
        m.wf(),
        m.state == GameState::Playing,
        !eats(m),
    ensures
        step_snake(m).len() == m.snake.len(),
        step_snake(m)[0].x == m.snake[0].x + m.heading.dx(),
        step_snake(m)[0].y == m.snake[0].y + m.heading.dy(),
        forall|j: int| 1 <= j < step_snake(m).len() ==> #[trigger] step_snake(m)[j] == m.snake[j
            - 1],
{
    assert(in_bounds(m.snake[0], m.width, m.height));
}

/// Law: on a tick that reaches the food, the snake grows by exactly one
/// segment: the new head is the food cell, every segment that existed
/// before the step is still present one place further back, and in
/// particular the old tail is retained.
pub proof fn lemma_growth(m: SimView)
    requires
        m.wf(),
        m.state == GameState::Playing,
        eats(m),
    ensures
        step_snake(m).len() == m.snake.len() + 1,
        step_snake(m)[0] == m.food,
        forall|j: int| 1 <= j < step_snake(m).len() ==> #[trigger] step_snake(m)[j] == m.snake[j
            - 1],
        step_snake(m).last() == m.snake.last(),
{
    assert(step_snake(m).last() == step_snake(m)[m.snake.len() as int]);
}

/// Law: a tick whose next head cell lies outside the board ends the game.
pub proof fn lemma_wall_termination(m: SimView)
    requires
        m.wf(),
        m.state == GameState::Playing,
        !in_bounds(next_head(m), m.width, m.height),
    ensures
        step_state(m) == GameState::Over,
{
}

/// Law: a tick whose next head cell coincides with any body segment — any
/// index past the head in the snake as it stands after growth or movement
/// is resolved — ends the game.
pub proof fn lemma_self_termination(m: SimView, j: int)
    requires
        m.wf(),
        m.state == GameState::Playing,
        1 <= j < step_snake(m).len(),
        step_snake(m)[j] == next_head(m),
    ensures
        step_state(m) == GameState::Over,
{
    assert(hits_self(m));
}

/// Law: once the game is over the simulation is frozen — a step changes
/// nothing, whatever food cell the tick would have placed.
pub proof fn lemma_over_is_frozen(m: SimView, new_food: Location)
    requires
        m.state == GameState::Over,
    ensures
        step_model(m, new_food) == m,
{
    assert(step_model(m, new_food) =~= m);
}

} // verus!
