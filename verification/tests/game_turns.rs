use snake::events::Event;
use snake::events::Key;
use snake::game::Action;
use snake::game::Game;
use snake::game::Wake;
use snake::game::FAILURE_PAUSE_MILLIS;
use snake::game::FIRST_LEVEL;
use snake::game::LOST_BANNER;
use snake::game::TICK_MILLIS;
use snake::level::Level;
use snake::level::LevelError;
use snake::Direction;
use snake::Point;

fn cells(points: &[(usize, usize)]) -> Vec<Point> {
    points.iter().map(|&(x, y)| Point { x, y }).collect()
}

fn rendered(action: Action) -> Vec<Point> {
    match action {
        Action::Render(shot) => shot.body.into_iter().collect(),
        _ => panic!("the turn rendered nothing"),
    }
}

#[test]
fn the_first_level_loads() {
    let level = Level::from_str(FIRST_LEVEL).unwrap();
    assert_eq!(level.width(), 40);
    assert_eq!(level.height(), 15);
    assert_eq!(level.snake().body, cells(&[(8, 3), (8, 4)]));
    assert_eq!(level.food(), Point { x: 23, y: 3 });
    assert_eq!(level.walls().len(), 2 * 40 + 2 * 13);
}

#[test]
fn a_new_game_goes_right() {
    let game = Game::new().unwrap();
    assert_eq!(game.direction(), Direction::Right);
    assert_eq!(game.ended(), None);
    assert_eq!(game.level().snake().body, cells(&[(8, 3), (8, 4)]));
    assert_eq!(TICK_MILLIS, 500);
    assert_eq!(FAILURE_PAUSE_MILLIS, 1000);
    assert_eq!(LOST_BANNER, "You lost!");
}

#[test]
fn every_turn_steps_the_level() {
    let mut game = Game::new().unwrap();
    assert!(game.can_turn(Wake::Timer));
    assert_eq!(rendered(game.turn(Wake::Timer)), cells(&[(9, 3), (8, 3)]));
    assert_eq!(rendered(game.turn(Wake::Input(Event::Idle))), cells(&[(10, 3), (9, 3)]));
    assert_eq!(rendered(game.turn(Wake::Exhausted)), cells(&[(11, 3), (10, 3)]));
    assert_eq!(game.direction(), Direction::Right);
    assert_eq!(
        rendered(game.turn(Wake::Input(Event::Direction(Direction::Down)))),
        cells(&[(11, 4), (11, 3)])
    );
    assert_eq!(game.direction(), Direction::Down);
    assert_eq!(rendered(game.turn(Wake::Timer)), cells(&[(11, 5), (11, 4)]));
    // a reversal is held as the direction, and dropped by the snake
    assert_eq!(
        rendered(game.turn(Wake::Input(Event::Direction(Direction::Up)))),
        cells(&[(11, 6), (11, 5)])
    );
    assert_eq!(game.direction(), Direction::Up);
    assert_eq!(game.level().snake().heading(), Direction::Down);
}

#[test]
fn quit_and_failure_leave_the_game_alone() {
    let mut game = Game::new().unwrap();
    assert!(game.can_turn(Wake::Input(Event::Quit)));
    assert!(matches!(game.turn(Wake::Input(Event::Quit)), Action::Quit));
    assert!(matches!(game.turn(Wake::Failed), Action::PauseThenQuit));
    assert_eq!(game.level().snake().body, cells(&[(8, 3), (8, 4)]));
    assert_eq!(game.direction(), Direction::Right);
    assert_eq!(game.ended(), None);
}

#[test]
fn the_game_eats_and_ends_at_the_wall() {
    let mut game = Game::new().unwrap();
    for step in 1..15 {
        assert_eq!(rendered(game.turn(Wake::Timer)), cells(&[(8 + step, 3), (7 + step, 3)]));
    }
    assert_eq!(rendered(game.turn(Wake::Timer)), cells(&[(23, 3), (22, 3), (22, 3)]));
    let food = game.level().food();
    assert!(!game.level().walls().contains(&food));
    assert!(!game.level().snake().body.contains(&food));
    assert!(food.x < 40 && food.y < 15);
    // straight on to the right wall, eating once more if the new food lies
    // ahead
    let mut last = Action::Quit;
    let mut turns = 0;
    while game.ended().is_none() {
        assert!(turns < 40);
        assert!(game.can_turn(Wake::Timer));
        last = game.turn(Wake::Timer);
        turns += 1;
    }
    assert!(matches!(last, Action::Banner(LevelError::SnakeHitWall)));
    assert_eq!(game.ended(), Some(LevelError::SnakeHitWall));
    assert_eq!(game.level().snake().head(), Point { x: 39, y: 3 });

    // the game is over: the level is left alone, the banner shown again
    let body = game.level().snake().cells();
    assert!(game.can_turn(Wake::Input(Event::Direction(Direction::Up))));
    assert!(matches!(
        game.turn(Wake::Input(Event::Direction(Direction::Up))),
        Action::Banner(LevelError::SnakeHitWall)
    ));
    assert!(matches!(game.turn(Wake::Timer), Action::Banner(LevelError::SnakeHitWall)));
    assert_eq!(game.level().snake().cells(), body);
    assert_eq!(game.direction(), Direction::Up);
    assert!(matches!(game.turn(Wake::Input(Event::Quit)), Action::Quit));
}

#[test]
fn keys_are_classified() {
    assert_eq!(Event::from_key(Key::Char('q')), Event::Quit);
    assert_eq!(Event::from_key(Key::Char('h')), Event::Direction(Direction::Left));
    assert_eq!(Event::from_key(Key::Left), Event::Direction(Direction::Left));
    assert_eq!(Event::from_key(Key::Char('j')), Event::Direction(Direction::Down));
    assert_eq!(Event::from_key(Key::Down), Event::Direction(Direction::Down));
    assert_eq!(Event::from_key(Key::Char('k')), Event::Direction(Direction::Up));
    assert_eq!(Event::from_key(Key::Up), Event::Direction(Direction::Up));
    assert_eq!(Event::from_key(Key::Char('l')), Event::Direction(Direction::Right));
    assert_eq!(Event::from_key(Key::Right), Event::Direction(Direction::Right));
    assert_eq!(Event::from_key(Key::Char('Q')), Event::Idle);
    assert_eq!(Event::from_key(Key::Char(' ')), Event::Idle);
    assert_eq!(Event::from_key(Key::Other), Event::Idle);
}
