use simple_snake::GameState;
use simple_snake::GridSimulation;
use simple_snake::Heading;
use simple_snake::Location;

fn loc(x: i32, y: i32) -> Location {
    Location { x, y }
}

fn straight_snake() -> Vec<Location> {
    vec![loc(5, 5), loc(5, 6), loc(5, 7)]
}

#[test]
fn movement_up_conserves_length() {
    let mut sim = GridSimulation::new(10, 10, straight_snake(), Heading::Up, loc(0, 0));
    sim.step_with_food(loc(1, 1));
    let s = sim.snapshot();
    assert_eq!(s.snake, vec![loc(5, 4), loc(5, 5), loc(5, 6)]);
    assert_eq!(s.food, loc(0, 0));
    assert_eq!(s.state, GameState::Playing);
}

#[test]
fn movement_each_heading_translates_head_by_unit_vector() {
    let cases = [
        (Heading::Up, loc(5, 4)),
        (Heading::Down, loc(5, 6)),
        (Heading::Left, loc(4, 5)),
        (Heading::Right, loc(6, 5)),
    ];
    for (heading, expected_head) in cases {
        let mut sim = GridSimulation::new(10, 10, vec![loc(5, 5)], heading, loc(0, 0));
        sim.step_with_food(loc(1, 1));
        let s = sim.snapshot();
        assert_eq!(s.snake, vec![expected_head]);
        assert_eq!(s.state, GameState::Playing);
    }
}

#[test]
fn growth_scenario_board_ten_by_ten() {
    // Board 10x10, snake (5,5),(5,6),(5,7) head-first, heading Up, food (5,4):
    // one step eats, keeps the tail, and relocates the food.
    let mut sim = GridSimulation::new(10, 10, straight_snake(), Heading::Up, loc(5, 4));
    sim.step_with_food(loc(1, 1));
    let s = sim.snapshot();
    assert_eq!(s.snake, vec![loc(5, 4), loc(5, 5), loc(5, 6), loc(5, 7)]);
    assert_eq!(s.snake.len(), 4);
    assert_eq!(s.food, loc(1, 1));
    assert_eq!(s.state, GameState::Playing);
}

#[test]
fn growth_by_random_step_keeps_food_on_board() {
    // A 3x1 board forces the relocated food onto y == 0 and x in [0, 3):
    // a draw that ignored its bound would land outside.
    let mut sim = GridSimulation::new(3, 1, vec![loc(1, 0)], Heading::Right, loc(2, 0));
    sim.step();
    assert_eq!(sim.len(), 2);
    assert_eq!(sim.game_state(), GameState::Playing);
    let food = sim.food();
    assert!(0 <= food.x && food.x < 3);
    assert_eq!(food.y, 0);
}

#[test]
fn anti_reversal_keeps_heading() {
    let opposites = [
        (Heading::Up, Heading::Down),
        (Heading::Down, Heading::Up),
        (Heading::Left, Heading::Right),
        (Heading::Right, Heading::Left),
    ];
    for (current, requested) in opposites {
        let mut sim = GridSimulation::new(10, 10, vec![loc(5, 5)], current, loc(0, 0));
        sim.set_heading(requested);
        assert_eq!(sim.heading(), current);
    }
}

#[test]
fn perpendicular_turn_is_applied() {
    let mut sim = GridSimulation::new(10, 10, straight_snake(), Heading::Up, loc(0, 0));
    sim.set_heading(Heading::Left);
    assert_eq!(sim.heading(), Heading::Left);
    sim.set_heading(Heading::Down);
    assert_eq!(sim.heading(), Heading::Down);
}

#[test]
fn wall_scenario_head_leaves_right_edge() {
    // Board 10x10, head (9,5), heading Right: next is (10,5), x == width,
    // so the game ends on this step.
    let mut sim = GridSimulation::new(10, 10, vec![loc(9, 5)], Heading::Right, loc(0, 0));
    sim.step();
    let s = sim.snapshot();
    assert_eq!(s.state, GameState::Over);
    assert_eq!(s.snake, vec![loc(10, 5)]);
}

#[test]
fn wall_termination_on_every_edge() {
    let cases = [
        (loc(0, 5), Heading::Left),
        (loc(9, 5), Heading::Right),
        (loc(5, 0), Heading::Up),
        (loc(5, 9), Heading::Down),
    ];
    for (head, heading) in cases {
        let mut sim = GridSimulation::new(10, 10, vec![head], heading, loc(3, 3));
        sim.step();
        assert_eq!(sim.game_state(), GameState::Over);
    }
}

#[test]
fn self_termination_on_moving_into_body() {
    // Head (5,5) turning right into (6,5), which stays occupied because the
    // popped tail is (7,5), not (6,5).
    let body = vec![loc(5, 5), loc(5, 6), loc(6, 6), loc(6, 5), loc(7, 5)];
    let mut sim = GridSimulation::new(10, 10, body, Heading::Right, loc(0, 0));
    sim.step();
    assert_eq!(sim.game_state(), GameState::Over);
}

#[test]
fn moving_into_vacated_tail_cell_is_not_a_collision() {
    // The same turn with the tail at (6,5): the tail leaves the cell on the
    // very step the head enters it, so play goes on.
    let body = vec![loc(5, 5), loc(5, 6), loc(6, 6), loc(6, 5)];
    let mut sim = GridSimulation::new(10, 10, body, Heading::Right, loc(0, 0));
    sim.step();
    assert_eq!(sim.game_state(), GameState::Playing);
}

#[test]
fn self_termination_when_growth_retains_the_hit_segment() {
    // Eating on the neck cell: growth keeps every old segment, so the new
    // head coincides with the old segment at (5,6).
    let mut sim = GridSimulation::new(10, 10, straight_snake(), Heading::Down, loc(5, 6));
    sim.step_with_food(loc(1, 1));
    let s = sim.snapshot();
    assert_eq!(s.state, GameState::Over);
    assert_eq!(s.snake, vec![loc(5, 6), loc(5, 5), loc(5, 6), loc(5, 7)]);
}

#[test]
fn over_freezes_stepping_and_heading() {
    let mut sim = GridSimulation::new(10, 10, vec![loc(9, 5)], Heading::Right, loc(0, 0));
    sim.step();
    assert_eq!(sim.game_state(), GameState::Over);
    let frozen = sim.snapshot();
    sim.step();
    sim.step_with_food(loc(4, 4));
    sim.set_heading(Heading::Down);
    let after = sim.snapshot();
    assert_eq!(after.snake, frozen.snake);
    assert_eq!(after.food, frozen.food);
    assert_eq!(after.state, GameState::Over);
    assert_eq!(sim.heading(), Heading::Right);
}

#[test]
fn snapshot_reports_whole_state() {
    let sim = GridSimulation::new(12, 8, straight_snake(), Heading::Left, loc(2, 3));
    let s = sim.snapshot();
    assert_eq!(s.snake, straight_snake());
    assert_eq!(s.food, loc(2, 3));
    assert_eq!(s.width, 12);
    assert_eq!(s.height, 8);
    assert_eq!(s.state, GameState::Playing);
}

#[test]
fn mutating_a_snapshot_does_not_affect_the_simulation() {
    let mut sim = GridSimulation::new(10, 10, straight_snake(), Heading::Up, loc(0, 0));
    let mut s = sim.snapshot();
    s.snake.clear();
    s.snake.push(loc(9, 9));
    s.food = loc(9, 9);
    s.state = GameState::Over;
    sim.step_with_food(loc(1, 1));
    let after = sim.snapshot();
    assert_eq!(after.snake, vec![loc(5, 4), loc(5, 5), loc(5, 6)]);
    assert_eq!(after.food, loc(0, 0));
    assert_eq!(after.state, GameState::Playing);
}

#[test]
fn getters_report_construction_values() {
    let sim = GridSimulation::new(12, 8, straight_snake(), Heading::Left, loc(2, 3));
    assert_eq!(sim.width(), 12);
    assert_eq!(sim.height(), 8);
    assert_eq!(sim.heading(), Heading::Left);
    assert_eq!(sim.food(), loc(2, 3));
    assert_eq!(sim.len(), 3);
    assert_eq!(sim.segment(0), loc(5, 5));
    assert_eq!(sim.segment(2), loc(5, 7));
}

#[test]
fn opposite_is_an_involution() {
    for h in [Heading::Up, Heading::Down, Heading::Left, Heading::Right] {
        assert_eq!(h.opposite().opposite(), h);
        assert_ne!(h.opposite(), h);
    }
}
