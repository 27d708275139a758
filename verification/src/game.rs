//! The game loop's decisions: what each turn of the loop does to the game,
//! and what it asks of whoever runs the loop.

use vstd::prelude::*;

use crate::events::Event;
use crate::grid::parse;
use crate::grid::LoadError;
use crate::level::Level;
use crate::level::LevelError;
use crate::level::LevelView;
use crate::level::Snapshot;
use crate::Direction;

verus! {

/// The level that a game starts on.
pub const FIRST_LEVEL: &'static str =
    "########################################\n#                                      #\n#                                      #\n#       h              f               #\n#       b                              #\n#                                      #\n#                                      #\n#                                      #\n#                                      #\n#                                      #\n#                                      #\n#                                      #\n#                                      #\n#                                      #\n########################################";

/// The time between two steps of the game, in milliseconds.
pub const TICK_MILLIS: u64 = 500;

/// The time to wait before the loop ends after the input has failed, in
/// milliseconds.
pub const FAILURE_PAUSE_MILLIS: u64 = 1000;

/// The banner shown once the game is over.
pub const LOST_BANNER: &'static str = "You lost!";

/// Why a game could not be made or has ended.
#[derive(PartialEq, Eq, Debug, Clone, Copy, Structural)]
pub enum GameError {
    Quit,
    /// The first level did not load.
    Other(LoadError),
}

/// What woke the loop.
#[derive(PartialEq, Eq, Debug, Clone, Copy, Structural)]
pub enum Wake {
    /// The timer fired.
    Timer,
    /// The input gave an item.
    Input(Event),
    /// The input has no more items.
    Exhausted,
    /// The input failed.
    Failed,
}

/// What the loop is to do after a turn.
pub enum Action {
    /// Show the level, and go on.
    Render(Snapshot),
    /// Show the banner: the game is over for the reason given. Go on.
    Banner(LevelError),
    /// Leave the loop.
    Quit,
    /// Wait for `FAILURE_PAUSE_MILLIS`, then leave the loop.
    PauseThenQuit,
}

/// The direction that the loop holds after it was woken by `wake` while
/// holding `current`: a direction from the input replaces it at once.
pub open spec fn steered(current: Direction, wake: Wake) -> Direction {
    match wake {
        Wake::Input(Event::Direction(d)) => d,
        _ => current,
    }
}

/// Whether `wake` makes the loop end without another step.
pub open spec fn leaves(wake: Wake) -> bool {
    wake == Wake::Input(Event::Quit) || wake == Wake::Failed
}

/// The game as a mathematical value.
pub struct GameView {
    pub level: LevelView,
    /// The direction that the next step will ask for.
    pub direction: Direction,
    /// How the game ended, once it has.
    pub ended: Option<LevelError>,
}

impl GameView {
    /// While the game runs its level is well formed; the snake always has a
    /// head.
    pub open spec fn wf(self) -> bool {
        &&& self.level.snake.wf()
        &&& self.ended is None ==> self.level.wf()
    }

    /// Whether a turn woken by `wake` asks the level for no step into cells
    /// without coordinates.
    pub open spec fn can_turn(self, wake: Wake) -> bool {
        !leaves(wake) && self.ended is None ==> self.level.can_tick(
            steered(self.direction, wake),
        )
    }

    /// One turn of the loop from `self` to `next`, woken by `wake`, with what
    /// it asks of the loop. A request to quit and a failed input end the loop
    /// and change nothing. Every other turn takes the direction from the
    /// input, if it brought one, and then makes one step of the level with
    /// the direction held: a snapshot is rendered, a collision ends the game
    /// and shows the banner. Once the game has ended the level is left alone
    /// and the banner is shown again.
    pub open spec fn turns_to(self, wake: Wake, next: GameView, action: Action) -> bool {
        if wake == Wake::Input(Event::Quit) {
            next == self && action == Action::Quit
        } else if wake == Wake::Failed {
            next == self && action == Action::PauseThenQuit
        } else {
            &&& next.direction == steered(self.direction, wake)
            &&& match self.ended {
                Some(cause) => {
                    &&& next.level == self.level
                    &&& next.ended == self.ended
                    &&& action == Action::Banner(cause)
                },
                None => match action {
                    Action::Render(shot) => {
                        &&& next.ended is None
                        &&& self.level.ticks_to(
                            next.direction,
                            next.level,
                            Ok::<Snapshot, LevelError>(shot),
                        )
                    },
                    Action::Banner(cause) => {
                        &&& next.ended == Some(cause)
                        &&& self.level.ticks_to(
                            next.direction,
                            next.level,
                            Err::<Snapshot, LevelError>(cause),
                        )
                    },
                    _ => false,
                },
            }
        }
    }
}

/// A game: its level, the direction held for the next step, and how it
/// ended, once it has.
pub struct Game {
    level: Level,
    direction: Direction,
    ended: Option<LevelError>,
}

impl View for Game {
    type V = GameView;

    closed spec fn view(&self) -> GameView {
        GameView { level: self.level@, direction: self.direction, ended: self.ended }
    }
}

impl Game {
    /// A game on the first level, about to go right.
    pub fn new() -> (made: Result<Game, GameError>)
        ensures
            match parse(FIRST_LEVEL@) {
                Ok(level) => made is Ok && made->Ok_0@ == (GameView {
                    level,
                    direction: Direction::Right,
                    ended: None,
                }) && made->Ok_0@.wf(),
                Err(e) => made == Err::<Game, GameError>(GameError::Other(e)),
            },
    {
        match Level::from_str(FIRST_LEVEL) {
            Ok(level) => Ok(Game { level, direction: Direction::Right, ended: None }),
            Err(e) => Err(GameError::Other(e)),
        }
    }

    /// The level that the game is played on.
    pub fn level(&self) -> (level: &Level)
        ensures
            level@ == self@.level,
    {
        &self.level
    }

    /// The direction that the next step will ask for.
    pub fn direction(&self) -> (direction: Direction)
        ensures
            direction == self@.direction,
    {
        self.direction
    }

    /// How the game ended, once it has.
    pub fn ended(&self) -> (ended: Option<LevelError>)
        ensures
            ended == self@.ended,
    {
        self.ended
    }

    /// Whether `turn` may be called with `wake`.
    pub fn can_turn(&self, wake: Wake) -> (ok: bool)
        requires
            self@.wf(),
        ensures
            ok == self@.can_turn(wake),
    {
        match wake {
            Wake::Input(Event::Quit) | Wake::Failed => true,
            Wake::Input(Event::Direction(d)) => self.ended.is_some() || self.level.can_tick(d),
            _ => self.ended.is_some() || self.level.can_tick(self.direction),
        }
    }

    /// One turn of the loop: takes what woke the loop, and says what the loop
    /// is to do.
    pub fn turn(&mut self, wake: Wake) -> (action: Action)
        requires
            old(self)@.wf(),
            old(self)@.can_turn(wake),
        ensures
            old(self)@.turns_to(wake, final(self)@, action),
            final(self)@.wf(),
    {
        match wake {
            Wake::Input(Event::Quit) => {
                return Action::Quit;
            },
            Wake::Failed => {
                return Action::PauseThenQuit;
            },
            Wake::Input(Event::Direction(d)) => {
                self.direction = d;
            },
            _ => {},
        }
        match self.ended {
            Some(cause) => Action::Banner(cause),
            None => match self.level.tick(self.direction) {
                Ok(shot) => Action::Render(shot),
                Err(cause) => {
                    self.ended = Some(cause);
                    Action::Banner(cause)
                },
            },
        }
    }
}

} // verus!
