//! The level: the game plan with its walls, the food and the snake, loaded
//! from text and advanced one step at a time.

use rand::thread_rng;
use std::collections::VecDeque;
use vstd::prelude::*;

use crate::grid::cell_fault;
use crate::grid::grid_cells;
use crate::grid::grid_fault;
use crate::grid::heads_before;
use crate::grid::is_glyph;
use crate::grid::lemma_grid_fault_stays;
use crate::grid::lemma_loaded_wf;
use crate::grid::lemma_row_fault_stays;
use crate::grid::parse;
use crate::grid::row_cells;
use crate::grid::row_fault;
use crate::grid::LoadError;
use crate::random::gen_below;
use crate::snake::Snake;
use crate::snake::SnakeView;
use crate::text::chars_of;
use crate::text::lines_of;
use crate::text::rows;
use crate::text::split_lines;
use crate::Direction;
use crate::Point;

verus! {

/// A step's outcome that ends the game.
#[derive(PartialEq, Eq, Debug, Clone, Copy, Structural)]
pub enum LevelError {
    /// The head lies on a wall.
    SnakeHitWall,
    /// The head lies on another cell of the body.
    SnakeHitSelf,
    /// The snake ate, and no cell of the grid is left for new food.
    BoardFull,
}

/// A snapshot as a mathematical value.
pub struct SnapshotView {
    pub width: usize,
    pub height: usize,
    pub walls: Seq<Point>,
    pub food: Point,
    pub body: Seq<Point>,
}

/// A copy of what a level shows at one instant. It shares nothing with the
/// level it was taken of.
#[derive(Clone)]
pub struct Snapshot {
    pub width: usize,
    pub height: usize,
    pub walls: Vec<Point>,
    pub food: Point,
    /// The snake's cells, head first.
    pub body: VecDeque<Point>,
}

impl View for Snapshot {
    type V = SnapshotView;

    open spec fn view(&self) -> SnapshotView {
        SnapshotView {
            width: self.width,
            height: self.height,
            walls: self.walls@,
            food: self.food,
            body: self.body@,
        }
    }
}

/// The level as a mathematical value.
pub struct LevelView {
    pub width: usize,
    pub height: usize,
    /// The wall cells, in the order of the text.
    pub walls: Seq<Point>,
    pub food: Point,
    pub snake: SnakeView,
}

/// A level: the grid's size, its walls, the food and the snake.
#[derive(Clone)]
pub struct Level {
    width: usize,
    height: usize,
    walls: Vec<Point>,
    food: Point,
    snake: Snake,
}

impl View for Level {
    type V = LevelView;

    closed spec fn view(&self) -> LevelView {
        LevelView {
            width: self.width,
            height: self.height,
            walls: self.walls@,
            food: self.food,
            snake: self.snake@,
        }
    }
}

impl LevelView {
    /// The snake has a head, and the food lies on no wall and under no cell
    /// of the snake.
    pub open spec fn wf(self) -> bool {
        &&& self.snake.wf()
        &&& !self.walls.contains(self.food)
        &&& !self.snake.body.contains(self.food)
    }

    pub open spec fn in_grid(self, p: Point) -> bool {
        p.x < self.width && p.y < self.height
    }

    /// A cell of the grid that is no wall and holds no cell of the snake.
    pub open spec fn is_free(self, p: Point) -> bool {
        self.in_grid(p) && !self.walls.contains(p) && !self.snake.body.contains(p)
    }

    /// The free cells among the first `upto` columns of row `y`, from left to
    /// right.
    pub open spec fn free_in_row(self, y: int, upto: nat) -> Seq<Point>
        decreases upto,
    {
        if upto == 0 {
            Seq::empty()
        } else {
            let before = self.free_in_row(y, (upto - 1) as nat);
            let p = Point { x: (upto - 1) as usize, y: y as usize };
            if self.is_free(p) {
                before.push(p)
            } else {
                before
            }
        }
    }

    /// The free cells of the first `upto` rows, in reading order.
    pub open spec fn free_in_rows(self, upto: nat) -> Seq<Point>
        decreases upto,
    {
        if upto == 0 {
            Seq::empty()
        } else {
            self.free_in_rows((upto - 1) as nat) + self.free_in_row(upto - 1, self.width as nat)
        }
    }

    /// All free cells, in reading order.
    pub open spec fn free_cells(self) -> Seq<Point> {
        self.free_in_rows(self.height as nat)
    }

    /// Whether any cell is free.
    pub open spec fn has_free_cell(self) -> bool {
        exists|p: Point| self.is_free(p)
    }

    pub open spec fn snapshot(self) -> SnapshotView {
        SnapshotView {
            width: self.width,
            height: self.height,
            walls: self.walls,
            food: self.food,
            body: self.snake.body,
        }
    }

    /// Whether a step asked to go in direction `requested` reaches a cell that
    /// has coordinates.
    pub open spec fn can_tick(self, requested: Direction) -> bool {
        self.snake.can_crawl(requested)
    }

    /// Whether that step puts the head on the food.
    pub open spec fn eats(self, requested: Direction) -> bool {
        self.snake.crawl(requested).head() == self.food
    }

    /// The level after the snake has made that step and, where it reached the
    /// food, has grown; the food is still where it was.
    pub open spec fn advanced(self, requested: Direction) -> LevelView {
        let crawled = self.snake.crawl(requested);
        LevelView {
            width: self.width,
            height: self.height,
            walls: self.walls,
            food: self.food,
            snake: if self.eats(requested) {
                crawled.eat()
            } else {
                crawled
            },
        }
    }

    /// The collision that the level shows, if any. A wall is looked for
    /// first.
    pub open spec fn collision(self) -> Option<LevelError> {
        if self.walls.contains(self.snake.head()) {
            Some(LevelError::SnakeHitWall)
        } else if self.snake.hits_self() {
            Some(LevelError::SnakeHitSelf)
        } else {
            None
        }
    }

    /// What inspecting the level gives: its collision, or else its snapshot.
    pub open spec fn judged(self, result: Result<Snapshot, LevelError>) -> bool {
        match self.collision() {
            Some(e) => result == Err::<Snapshot, LevelError>(e),
            None => result is Ok && result->Ok_0@ == self.snapshot(),
        }
    }

    /// One step of the game from `self` to `next`, asked to go in direction
    /// `requested`, with what it returns. The snake makes its step. Where its
    /// head reaches the food it grows, and the food moves to a cell that is
    /// free then; where none is, the step ends with `BoardFull` and the food
    /// stays. Otherwise the step's result is what inspecting `next` gives.
    pub open spec fn ticks_to(
        self,
        requested: Direction,
        next: LevelView,
        result: Result<Snapshot, LevelError>,
    ) -> bool {
        let grown = self.advanced(requested);
        &&& next.width == self.width
        &&& next.height == self.height
        &&& next.walls == self.walls
        &&& next.snake == grown.snake
        &&& if self.eats(requested) && !grown.has_free_cell() {
            next.food == self.food && result == Err::<Snapshot, LevelError>(LevelError::BoardFull)
        } else {
            &&& if self.eats(requested) {
                grown.is_free(next.food)
            } else {
                next.food == self.food
            }
            &&& next.judged(result)
        }
    }

    /// A step that does not reach the food leaves the food clear of the
    /// snake.
    pub proof fn lemma_step_keeps_food_clear(self, requested: Direction)
        requires
            self.wf(),
        ensures
            !self.eats(requested) ==> !self.snake.crawl(requested).body.contains(self.food),
    {
        broadcast use vstd::seq_lib::lemma_seq_concat_contains_all_elements;

        let rest = self.snake.body.drop_last();
        if rest.contains(self.food) {
            let i = choose|i: int| 0 <= i < rest.len() && rest[i] == self.food;
            assert(self.snake.body[i] == self.food);
        }
        let front = seq![self.snake.head().neighbour(self.snake.effective(requested))];
        if front.contains(self.food) {
            assert(front[0] == self.food);
        }
    }

    /// A step moves the head by exactly one cell in the effective direction
    /// and keeps the snake's length, or adds one cell to it where the head
    /// reaches the food. A step that succeeds shows just that. It succeeds
    /// exactly if the level it leads to shows no collision and, where the
    /// snake ate, a cell was free for the food.
    pub proof fn lemma_step_moves_head(
        self,
        requested: Direction,
        next: LevelView,
        result: Result<Snapshot, LevelError>,
    )
        requires
            self.wf(),
            self.ticks_to(requested, next, result),
        ensures
            next.snake.heading == self.snake.effective(requested),
            next.snake.head() == self.snake.head().neighbour(self.snake.effective(requested)),
            !self.eats(requested) ==> next.snake.body.len() == self.snake.body.len(),
            self.eats(requested) ==> next.snake.body.len() == self.snake.body.len() + 1,
            result is Ok <==> next.collision() is None && (self.eats(requested)
                ==> self.advanced(requested).has_free_cell()),
            result is Ok ==> result->Ok_0@.body == next.snake.body,
            result is Ok ==> result->Ok_0@.food == next.food,
    {
    }

    /// Where the head reaches the food the snake grows by one cell, and the
    /// food moves to a cell of the grid that is neither a wall nor a cell of
    /// the grown snake, unless the grid has no such cell.
    pub proof fn lemma_growth(
        self,
        requested: Direction,
        next: LevelView,
        result: Result<Snapshot, LevelError>,
    )
        requires
            self.wf(),
            self.ticks_to(requested, next, result),
            self.eats(requested),
        ensures
            next.snake.body.len() == self.snake.body.len() + 1,
            result == Err::<Snapshot, LevelError>(LevelError::BoardFull)
                <==> !self.advanced(requested).has_free_cell(),
            result != Err::<Snapshot, LevelError>(LevelError::BoardFull) ==> {
                &&& next.in_grid(next.food)
                &&& !next.walls.contains(next.food)
                &&& !next.snake.body.contains(next.food)
            },
    {
    }

    /// A step whose head lands on a wall fails with `SnakeHitWall`; the snake
    /// has moved, and nothing else has changed: it has not grown and the food
    /// is where it was.
    pub proof fn lemma_wall_hit(
        self,
        requested: Direction,
        next: LevelView,
        result: Result<Snapshot, LevelError>,
    )
        requires
            self.wf(),
            self.ticks_to(requested, next, result),
            self.walls.contains(self.snake.head().neighbour(self.snake.effective(requested))),
        ensures
            result == Err::<Snapshot, LevelError>(LevelError::SnakeHitWall),
            next.snake == self.snake.crawl(requested),
            next.food == self.food,
            next.walls == self.walls,
    {
    }

    /// A step whose head lands on no wall but on another cell of the body
    /// fails with `SnakeHitSelf`, unless the snake ate and the grid has no
    /// cell left for the food.
    pub proof fn lemma_self_hit(
        self,
        requested: Direction,
        next: LevelView,
        result: Result<Snapshot, LevelError>,
        i: int,
    )
        requires
            self.wf(),
            self.ticks_to(requested, next, result),
            !self.walls.contains(next.snake.head()),
            1 <= i < next.snake.body.len(),
            next.snake.body[i] == next.snake.head(),
            result != Err::<Snapshot, LevelError>(LevelError::BoardFull),
        ensures
            result == Err::<Snapshot, LevelError>(LevelError::SnakeHitSelf),
    {
    }

    /// Every cell on the rim of the grid is a wall.
    pub open spec fn fenced(self) -> bool {
        forall|p: Point|
            self.in_grid(p) && (p.x == 0 || p.y == 0 || p.x == self.width - 1 || p.y
                == self.height - 1) ==> #[trigger] self.walls.contains(p)
    }

    /// The head lies in the grid and on no wall.
    pub open spec fn head_inside(self) -> bool {
        self.in_grid(self.snake.head()) && !self.walls.contains(self.snake.head())
    }

    /// In a fenced level a snake with its head inside can step in every
    /// direction, and stays in the grid.
    pub proof fn lemma_fenced_can_tick(self, requested: Direction)
        requires
            self.snake.wf(),
            self.fenced(),
            self.head_inside(),
        ensures
            self.can_tick(requested),
            self.in_grid(self.snake.crawl(requested).head()),
    {
    }

    /// In a fenced level every step that succeeds leaves the head inside, so
    /// that steps can follow one another for as long as they succeed, in
    /// whatever directions.
    pub proof fn lemma_fenced_step(
        self,
        requested: Direction,
        next: LevelView,
        result: Result<Snapshot, LevelError>,
    )
        requires
            self.wf(),
            self.fenced(),
            self.head_inside(),
            self.ticks_to(requested, next, result),
            result is Ok,
        ensures
            next.wf(),
            next.fenced(),
            next.head_inside(),
            forall|d: Direction| next.can_tick(d),
    {
        self.lemma_fenced_can_tick(requested);
        self.lemma_step_keeps_food_clear(requested);
        assert forall|d: Direction| next.can_tick(d) by {
            next.lemma_fenced_can_tick(d);
        }
    }

    /// The free cells of a row are listed without fail: a cell is in the list
    /// exactly if it is free and lies in the row's columns looked at.
    pub proof fn lemma_free_in_row(self, y: int, upto: nat, p: Point)
        requires
            0 <= y <= usize::MAX,
            upto <= self.width,
        ensures
            self.free_in_row(y, upto).contains(p) <==> self.is_free(p) && p.y == y && p.x < upto,
        decreases upto,
    {
        broadcast use vstd::seq_lib::lemma_seq_contains_after_push;

        if upto > 0 {
            self.lemma_free_in_row(y, (upto - 1) as nat, p);
        }
    }

    /// A cell is among the free cells of the first rows exactly if it is free
    /// and lies in one of them.
    pub proof fn lemma_free_in_rows(self, upto: nat, p: Point)
        requires
            upto <= self.height,
        ensures
            self.free_in_rows(upto).contains(p) <==> self.is_free(p) && p.y < upto,
        decreases upto,
    {
        broadcast use vstd::seq_lib::lemma_seq_concat_contains_all_elements;

        if upto > 0 {
            self.lemma_free_in_rows((upto - 1) as nat, p);
            self.lemma_free_in_row(upto - 1, self.width as nat, p);
        }
    }

    /// The list of free cells holds exactly the free cells.
    pub proof fn lemma_free_cells(self, p: Point)
        ensures
            self.free_cells().contains(p) <==> self.is_free(p),
    {
        self.lemma_free_in_rows(self.height as nat, p);
    }

    /// The list of free cells is empty exactly if no cell is free.
    pub proof fn lemma_has_free_cell(self)
        ensures
            self.has_free_cell() <==> self.free_cells().len() > 0,
    {
        let free = self.free_cells();
        if free.len() > 0 {
            assert(free.contains(free[0]));
            self.lemma_free_cells(free[0]);
        }
        if self.has_free_cell() {
            let p = choose|p: Point| self.is_free(p);
            self.lemma_free_cells(p);
        }
    }
}

/// Whether `cells` holds `point`.
fn holds(cells: &Vec<Point>, point: Point) -> (found: bool)
    ensures
        found == cells@.contains(point),
{
    let mut i: usize = 0;
    while i < cells.len()
        invariant
            i <= cells@.len(),
            forall|k: int| 0 <= k < i ==> cells@[k] != point,
        decreases cells@.len() - i,
    {
        if cells[i] == point {
            return true;
        }
        i += 1;
    }
    false
}

impl Level {
    /// The number of columns: the length of the first line of the text.
    pub fn width(&self) -> (width: usize)
        ensures
            width == self@.width,
    {
        self.width
    }

    /// The number of rows.
    pub fn height(&self) -> (height: usize)
        ensures
            height == self@.height,
    {
        self.height
    }

    /// The cell that holds the food.
    pub fn food(&self) -> (food: Point)
        ensures
            food == self@.food,
    {
        self.food
    }

    /// The wall cells.
    pub fn walls(&self) -> (walls: &Vec<Point>)
        ensures
            walls@ == self@.walls,
    {
        &self.walls
    }

    /// The snake.
    pub fn snake(&self) -> (snake: &Snake)
        ensures
            snake@ == self@.snake,
    {
        &self.snake
    }

    /// A copy of what the level shows now.
    pub fn snapshot(&self) -> (shot: Snapshot)
        ensures
            shot@ == self@.snapshot(),
    {
        Snapshot {
            width: self.width,
            height: self.height,
            walls: self.walls.clone(),
            food: self.food,
            body: self.snake.cells(),
        }
    }

    /// The cells of the grid that are no wall and hold no cell of the snake,
    /// in reading order.
    pub fn free_cells(&self) -> (free: Vec<Point>)
        ensures
            free@ == self@.free_cells(),
    {
        let mut free: Vec<Point> = Vec::new();
        let mut y: usize = 0;
        while y < self.height
            invariant
                y <= self.height,
                free@ == self@.free_in_rows(y as nat),
            decreases self.height - y,
        {
            let mut x: usize = 0;
            while x < self.width
                invariant
                    y < self.height,
                    x <= self.width,
                    free@ == self@.free_in_rows(y as nat) + self@.free_in_row(y as int, x as nat),
                decreases self.width - x,
            {
                let point = Point { x, y };
                if !holds(&self.walls, point) && !self.snake.occupies(point) {
                    free.push(point);
                }
                x += 1;
            }
            y += 1;
        }
        free
    }

    /// The collision that the level shows, or else its snapshot.
    pub fn inspect(&self) -> (result: Result<Snapshot, LevelError>)
        requires
            self@.snake.wf(),
        ensures
            self@.judged(result),
    {
        if holds(&self.walls, self.snake.head()) {
            return Err(LevelError::SnakeHitWall);
        }
        if self.snake.hits_self() {
            return Err(LevelError::SnakeHitSelf);
        }
        Ok(self.snapshot())
    }

    /// Whether `tick` may be called with `direction`: whether the cell that
    /// the head would reach has coordinates.
    pub fn can_tick(&self, direction: Direction) -> (ok: bool)
        requires
            self@.snake.wf(),
        ensures
            ok == self@.can_tick(direction),
    {
        self.snake.can_crawl(direction)
    }

    /// Moves the food to the free cell numbered `pick`, counted from 0 in
    /// reading order. Where there is no such cell the food stays, and the
    /// result is `false`.
    pub fn put_food(&mut self, pick: usize) -> (placed: bool)
        ensures
            placed == (pick < old(self)@.free_cells().len()),
            final(self)@.width == old(self)@.width,
            final(self)@.height == old(self)@.height,
            final(self)@.walls == old(self)@.walls,
            final(self)@.snake == old(self)@.snake,
            placed ==> final(self)@.food == old(self)@.free_cells()[pick as int],
            placed ==> old(self)@.is_free(final(self)@.food),
            !placed ==> final(self)@.food == old(self)@.food,
    {
        let free = self.free_cells();
        if pick < free.len() {
            proof {
                assert(free@.contains(free@[pick as int]));
                self@.lemma_free_cells(free@[pick as int]);
            }
            self.food = free[pick];
            true
        } else {
            false
        }
    }

    /// Moves the food to a free cell picked at random. Where no cell is free
    /// the food stays, and the result is `false`.
    fn generate_food(&mut self) -> (placed: bool)
        ensures
            final(self)@.width == old(self)@.width,
            final(self)@.height == old(self)@.height,
            final(self)@.walls == old(self)@.walls,
            final(self)@.snake == old(self)@.snake,
            placed == old(self)@.has_free_cell(),
            placed ==> old(self)@.is_free(final(self)@.food),
            !placed ==> final(self)@.food == old(self)@.food,
    {
        let room = self.free_cells().len();
        proof {
            self@.lemma_has_free_cell();
        }
        if room == 0 {
            return false;
        }
        let mut rng = thread_rng();
        let drawn = gen_below(&mut rng, room);
        self.put_food(drawn)
    }

    /// One step of the game. The snake moves one cell in direction
    /// `direction`, or straight on where that would reverse it. Where its head
    /// reaches the food it grows by one cell, and the food moves to a free
    /// cell picked at random. The step then fails if the head lies on a wall
    /// or on another cell of the body, and gives the level's snapshot if not.
    /// The level keeps the step in either case.
    pub fn tick(&mut self, direction: Direction) -> (result: Result<Snapshot, LevelError>)
        requires
            old(self)@.wf(),
            old(self)@.can_tick(direction),
        ensures
            old(self)@.ticks_to(direction, final(self)@, result),
            result != Err::<Snapshot, LevelError>(LevelError::BoardFull) ==> final(self)@.wf(),
    {
        proof {
            old(self)@.lemma_step_keeps_food_clear(direction);
        }
        self.snake.crawl(direction);

        if self.snake.is_head_on(self.food) {
            self.snake.eat();

            if !self.generate_food() {
                return Err(LevelError::BoardFull);
            }
        }
        self.inspect()
    }
}

/// `found` is the only cell of `cells`, or there is none.
spec fn is_only(found: Option<Point>, cells: Seq<Point>) -> bool {
    match found {
        None => cells.len() == 0,
        Some(p) => cells == seq![p],
    }
}

/// `found` is the last cell of `cells`, or there is none.
spec fn is_last(found: Option<Point>, cells: Seq<Point>) -> bool {
    match found {
        None => cells.len() == 0,
        Some(p) => cells.len() > 0 && cells.last() == p,
    }
}

impl Level {
    /// Loads a level from its text: `#` is a wall, `h` the snake's head, `b`
    /// a further cell of its body, `f` the food, a blank an empty cell.
    pub fn from_str(s: &str) -> (loaded: Result<Level, LoadError>)
        ensures
            match parse(s@) {
                Ok(level) => loaded is Ok && loaded->Ok_0@ == level,
                Err(e) => loaded == Err::<Level, LoadError>(e),
            },
            loaded is Ok ==> loaded->Ok_0@.wf(),
    {
        let chars = chars_of(s);
        let lines = split_lines(&chars);
        let ghost grid = rows(lines@);
        if lines.len() == 0 {
            return Err(LoadError::NoLine);
        }
        let width = lines[0].len();
        let height = lines.len();

        let mut head: Option<Point> = None;
        let mut tail: VecDeque<Point> = VecDeque::new();
        let mut food: Option<Point> = None;
        let mut walls: Vec<Point> = Vec::new();

        let mut y: usize = 0;
        while y < height
            invariant
                height == lines.len(),
                grid == rows(lines@),
                grid == lines_of(s@),
                y <= height,
                walls@ == grid_cells(grid, '#', y as nat),
                tail@ == grid_cells(grid, 'b', y as nat),
                is_only(head, grid_cells(grid, 'h', y as nat)),
                is_last(food, grid_cells(grid, 'f', y as nat)),
                grid_fault(grid, y as nat) is None,
            ensures
                y == height,
            decreases height - y,
        {
            let line = &lines[y];
            let mut x: usize = 0;
            while x < line.len()
                invariant
                    height == lines.len(),
                    grid == rows(lines@),
                    grid == lines_of(s@),
                    y < height,
                    line@ == grid[y as int],
                    x <= line.len(),
                    walls@ == grid_cells(grid, '#', y as nat) + row_cells(
                        grid[y as int],
                        y as int,
                        '#',
                        x as nat,
                    ),
                    tail@ == grid_cells(grid, 'b', y as nat) + row_cells(
                        grid[y as int],
                        y as int,
                        'b',
                        x as nat,
                    ),
                    is_only(
                        head,
                        grid_cells(grid, 'h', y as nat) + row_cells(
                            grid[y as int],
                            y as int,
                            'h',
                            x as nat,
                        ),
                    ),
                    is_last(
                        food,
                        grid_cells(grid, 'f', y as nat) + row_cells(
                            grid[y as int],
                            y as int,
                            'f',
                            x as nat,
                        ),
                    ),
                    grid_fault(grid, y as nat) is None,
                    row_fault(grid, y as int, x as nat) is None,
                ensures
                    x == line.len(),
                decreases line.len() - x,
            {
                let c = line[x];
                let point = Point { x, y };
                let ghost fault = cell_fault(grid, x as int, y as int);
                match c {
                    '#' => {
                        walls.push(point);
                    },
                    ' ' => {},
                    'h' => {
                        if head.is_some() {
                            proof {
                                assert(heads_before(grid, x as int, y as int) > 0);
                                assert(fault == Some(LoadError::MultipleHeads));
                                assert(row_fault(grid, y as int, (x + 1) as nat) == fault);
                                lemma_row_fault_stays(
                                    grid,
                                    y as int,
                                    (x + 1) as nat,
                                    grid[y as int].len(),
                                );
                                assert(grid_fault(grid, (y + 1) as nat) == fault);
                                lemma_grid_fault_stays(grid, (y + 1) as nat, grid.len());
                            }
                            return Err(LoadError::MultipleHeads);
                        }
                        head = Some(point);
                        assert(grid_cells(grid, 'h', y as nat) + row_cells(
                            grid[y as int],
                            y as int,
                            'h',
                            (x + 1) as nat,
                        ) =~= seq![point]);
                    },
                    'b' => {
                        tail.push_back(point);
                    },
                    'f' => {
                        food = Some(point);
                    },
                    _ => {
                        proof {
                            assert(!is_glyph(c));
                            assert(row_fault(grid, y as int, (x + 1) as nat) == fault);
                            lemma_row_fault_stays(
                                grid,
                                y as int,
                                (x + 1) as nat,
                                grid[y as int].len(),
                            );
                            assert(grid_fault(grid, (y + 1) as nat) == fault);
                            lemma_grid_fault_stays(grid, (y + 1) as nat, grid.len());
                        }
                        return Err(LoadError::InvalidChar { ch: c, x, y });
                    },
                }
                assert(fault is None);
                x += 1;
            }
            y += 1;
        }

        let head = match head {
            Some(head) => head,
            None => {
                return Err(LoadError::HeadNotFound);
            },
        };
        let food = match food {
            Some(food) => food,
            None => {
                return Err(LoadError::FoodNotFound);
            },
        };
        let mut body = tail;
        body.push_front(head);
        proof {
            assert forall|y: int| 0 <= y < grid.len() implies (#[trigger] grid[y]).len()
                <= usize::MAX by {
                assert(grid[y].len() == lines@[y].len());
            }
            lemma_loaded_wf(grid);
        }
        match Snake::new(body) {
            Ok(snake) => Ok(Level { width, height, walls, food, snake }),
            Err(_) => Err(LoadError::HeadNotFound),
        }
    }
}

impl std::str::FromStr for Level {
    type Err = LoadError;

    /// Loads a level from its text, as `Level::from_str` does.
    fn from_str(s: &str) -> (loaded: Result<Level, LoadError>)
        ensures
            match parse(s@) {
                Ok(level) => loaded is Ok && loaded->Ok_0@ == level,
                Err(e) => loaded == Err::<Level, LoadError>(e),
            },
            loaded is Ok ==> loaded->Ok_0@.wf(),
    {
        Level::from_str(s)
    }
}

} // verus!
