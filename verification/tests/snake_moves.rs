use std::collections::VecDeque;

use snake::snake::Snake;
use snake::snake::SnakeError;
use snake::Direction;
use snake::Point;

fn body(points: &[(usize, usize)]) -> VecDeque<Point> {
    points.iter().map(|&(x, y)| Point { x, y }).collect()
}

#[test]
fn opposite_directions_are_incompatible() {
    let all = [
        Direction::Up,
        Direction::Down,
        Direction::Left,
        Direction::Right,
    ];
    for a in all {
        for b in all {
            let opposite = matches!(
                (a, b),
                (Direction::Up, Direction::Down)
                    | (Direction::Down, Direction::Up)
                    | (Direction::Left, Direction::Right)
                    | (Direction::Right, Direction::Left)
            );
            assert_eq!(a.is_compatible_with(b), !opposite);
        }
    }
    assert!(Direction::Left.is_compatible_with(Direction::Left));
    assert!(!Direction::Left.is_compatible_with(Direction::Right));
    assert!(Direction::Left.is_compatible_with(Direction::Up));
}

#[test]
fn a_new_snake_heads_right() {
    let snake = Snake::new(body(&[(7, 3), (6, 3)])).unwrap();
    assert_eq!(snake.heading(), Direction::Right);
    assert_eq!(snake.body, body(&[(7, 3), (6, 3)]));
    assert_eq!(snake.head(), Point { x: 7, y: 3 });
    assert_eq!(snake.cells(), body(&[(7, 3), (6, 3)]));
}

#[test]
fn a_snake_needs_a_head() {
    assert_eq!(Snake::new(VecDeque::new()).err(), Some(SnakeError::EmptyBody));
}

#[test]
fn crawl_shifts_the_body() {
    let mut snake = Snake::new(body(&[(7, 3), (6, 3), (5, 3)])).unwrap();
    snake.crawl(Direction::Right);
    assert_eq!(snake.body, body(&[(8, 3), (7, 3), (6, 3)]));
    snake.crawl(Direction::Up);
    assert_eq!(snake.body, body(&[(8, 2), (8, 3), (7, 3)]));
    assert_eq!(snake.heading(), Direction::Up);
    snake.crawl(Direction::Left);
    assert_eq!(snake.body, body(&[(7, 2), (8, 2), (8, 3)]));
    snake.crawl(Direction::Down);
    assert_eq!(snake.body, body(&[(7, 3), (7, 2), (8, 2)]));
    assert_eq!(snake.heading(), Direction::Down);
}

#[test]
fn crawl_ignores_a_reversal() {
    let mut snake = Snake::new(body(&[(7, 3), (6, 3)])).unwrap();
    snake.crawl(Direction::Left);
    assert_eq!(snake.heading(), Direction::Right);
    assert_eq!(snake.body, body(&[(8, 3), (7, 3)]));
    snake.crawl(Direction::Down);
    snake.crawl(Direction::Up);
    assert_eq!(snake.heading(), Direction::Down);
    assert_eq!(snake.body, body(&[(8, 5), (8, 4)]));
}

#[test]
fn eat_doubles_the_tail() {
    let mut snake = Snake::new(body(&[(7, 3), (6, 3)])).unwrap();
    snake.eat();
    assert_eq!(snake.body, body(&[(7, 3), (6, 3), (6, 3)]));
    assert_eq!(snake.heading(), Direction::Right);
    snake.crawl(Direction::Right);
    assert_eq!(snake.body, body(&[(8, 3), (7, 3), (6, 3)]));
    let mut single = Snake::new(body(&[(1, 1)])).unwrap();
    single.eat();
    assert_eq!(single.body, body(&[(1, 1), (1, 1)]));
}

#[test]
fn head_and_body_tests() {
    let snake = Snake::new(body(&[(7, 3), (6, 3), (6, 4)])).unwrap();
    assert!(snake.is_head_on(Point { x: 7, y: 3 }));
    assert!(!snake.is_head_on(Point { x: 6, y: 3 }));
    assert!(!snake.is_head_on(Point { x: 3, y: 7 }));
    assert!(snake.occupies(Point { x: 7, y: 3 }));
    assert!(snake.occupies(Point { x: 6, y: 4 }));
    assert!(!snake.occupies(Point { x: 7, y: 4 }));
    assert!(!snake.hits_self());
    let knot = Snake::new(body(&[(7, 3), (6, 3), (7, 3)])).unwrap();
    assert!(knot.hits_self());
    let single = Snake::new(body(&[(7, 3)])).unwrap();
    assert!(!single.hits_self());
}

#[test]
fn can_crawl_guards_the_edges() {
    let mut corner = Snake::new(body(&[(0, 0)])).unwrap();
    assert!(!corner.can_crawl(Direction::Up));
    assert!(corner.can_crawl(Direction::Down));
    assert!(corner.can_crawl(Direction::Right));
    // left reverses the heading, so the snake would go right
    assert!(corner.can_crawl(Direction::Left));
    corner.crawl(Direction::Down);
    assert!(!corner.can_crawl(Direction::Left));
    // up reverses the heading now, so the snake would go down
    assert!(corner.can_crawl(Direction::Up));
    let far = Snake::new(body(&[(usize::MAX, usize::MAX)])).unwrap();
    assert!(!far.can_crawl(Direction::Right));
    assert!(!far.can_crawl(Direction::Left));
    assert!(!far.can_crawl(Direction::Down));
    assert!(far.can_crawl(Direction::Up));
}
