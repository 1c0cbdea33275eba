use snake_verifier::board::GameState;
use snake_verifier::game::Position;

#[test]
fn new_board_places_snake_at_centre() {
    let g = GameState::new(10, 10);
    assert_eq!(g.snake, vec![Position::new(5, 5), Position::new(4, 5), Position::new(3, 5)]);
    assert_eq!(g.food, Position::new(0, 0));
    assert_eq!(g.grid_width, 10);
    assert_eq!(g.grid_height, 10);
    let odd = GameState::new(7, 3);
    assert_eq!(odd.snake[0], Position::new(3, 1));
    assert_eq!(odd.snake[2], Position::new(1, 1));
}

#[test]
fn collision_with_walls() {
    let g = GameState::new(10, 10);
    assert!(g.check_collision(-1, 5));
    assert!(g.check_collision(10, 5));
    assert!(g.check_collision(5, -1));
    assert!(g.check_collision(5, 10));
    assert!(!g.check_collision(0, 0));
    assert!(!g.check_collision(9, 9));
}

#[test]
fn collision_with_body_but_not_head() {
    let g = GameState::new(10, 10);
    assert!(g.check_collision(4, 5));
    assert!(!g.check_collision(5, 5));
    assert!(!g.check_collision(6, 5));
}

#[test]
fn vacated_tail_is_no_collision() {
    let g = GameState::new(10, 10);
    assert!(!g.check_collision(3, 5));
    let mut curled = GameState::new(10, 10);
    curled.snake = vec![
        Position::new(5, 5),
        Position::new(5, 6),
        Position::new(4, 6),
        Position::new(4, 5),
        Position::new(3, 5),
    ];
    assert!(curled.check_collision(4, 5));
    assert!(curled.check_collision(4, 6));
    assert!(!curled.check_collision(3, 5));
}

#[test]
fn tail_under_food_stays_and_collides() {
    let mut g = GameState::new(10, 10);
    g.food = Position::new(3, 5);
    assert!(g.check_collision(3, 5));
}

#[test]
fn food_is_placed_off_the_snake() {
    let narrow = GameState::new(4, 1);
    assert_eq!(narrow.snake, vec![Position::new(2, 0), Position::new(1, 0), Position::new(0, 0)]);
    assert_eq!(narrow.food, Position::new(3, 0));
    let five = GameState::new(5, 1);
    assert_eq!(five.food, Position::new(4, 0));
    assert!(!five.snake.contains(&five.food));
    let six = GameState::new(6, 1);
    assert_eq!(six.food, Position::new(0, 0));
    assert!(!six.snake.contains(&six.food));
}

#[test]
fn score_must_match_length_exactly() {
    let mut g = GameState::new(10, 10);
    assert!(g.verify_score(0));
    assert!(!g.verify_score(10));
    assert!(!g.verify_score(5));
    assert!(!g.verify_score(-10));
    g.snake.insert(0, Position::new(6, 5));
    assert!(g.verify_score(10));
    assert!(!g.verify_score(0));
    assert!(!g.verify_score(20));
}
