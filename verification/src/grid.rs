//! The text of a level read as a grid of glyphs, and what loading it gives.

use vstd::prelude::*;

use crate::level::LevelView;
use crate::snake::SnakeView;
use crate::text::count;
use crate::text::count_in_lines;
use crate::text::lemma_lines_keep_count;
use crate::text::lines_of;
use crate::Direction;
use crate::Point;

verus! {

/// Why a text is no level.
#[derive(PartialEq, Eq, Debug, Clone, Copy, Structural)]
pub enum LoadError {
    /// The text has no line at all.
    NoLine,
    /// A second `h` was found.
    MultipleHeads,
    /// A character other than `#`, ` `, `h`, `b` and `f`, with its column
    /// and row.
    InvalidChar { ch: char, x: usize, y: usize },
    /// No `h` was found.
    HeadNotFound,
    /// No `f` was found.
    FoodNotFound,
}

/// The characters that a level text is written in, line endings apart.
pub open spec fn is_glyph(c: char) -> bool {
    c == '#' || c == ' ' || c == 'h' || c == 'b' || c == 'f'
}

/// The cells among the first `upto` columns of row `y` that hold `glyph`,
/// from left to right.
pub open spec fn row_cells(line: Seq<char>, y: int, glyph: char, upto: nat) -> Seq<Point>
    decreases upto,
{
    if upto == 0 {
        Seq::empty()
    } else {
        let before = row_cells(line, y, glyph, (upto - 1) as nat);
        if line[upto - 1] == glyph {
            before.push(Point { x: (upto - 1) as usize, y: y as usize })
        } else {
            before
        }
    }
}

/// The cells of the first `upto` rows of `grid` that hold `glyph`, in reading
/// order.
pub open spec fn grid_cells(grid: Seq<Seq<char>>, glyph: char, upto: nat) -> Seq<Point>
    decreases upto,
{
    if upto == 0 {
        Seq::empty()
    } else {
        grid_cells(grid, glyph, (upto - 1) as nat) + row_cells(
            grid[upto - 1],
            upto - 1,
            glyph,
            grid[upto - 1].len(),
        )
    }
}

/// All cells of `grid` that hold `glyph`, in reading order.
pub open spec fn cells_of(grid: Seq<Seq<char>>, glyph: char) -> Seq<Point> {
    grid_cells(grid, glyph, grid.len())
}

/// The number of `h` cells that come before column `x` of row `y` in reading
/// order.
pub open spec fn heads_before(grid: Seq<Seq<char>>, x: int, y: int) -> nat {
    grid_cells(grid, 'h', y as nat).len() + row_cells(grid[y], y, 'h', x as nat).len()
}

/// What is wrong with the cell in column `x` of row `y`, if anything: a
/// character that is no glyph, or an `h` after another one.
pub open spec fn cell_fault(grid: Seq<Seq<char>>, x: int, y: int) -> Option<LoadError> {
    let c = grid[y][x];
    if !is_glyph(c) {
        Some(LoadError::InvalidChar { ch: c, x: x as usize, y: y as usize })
    } else if c == 'h' && heads_before(grid, x, y) > 0 {
        Some(LoadError::MultipleHeads)
    } else {
        None
    }
}

/// The first fault among the first `upto` cells of row `y`.
pub open spec fn row_fault(grid: Seq<Seq<char>>, y: int, upto: nat) -> Option<LoadError>
    decreases upto,
{
    if upto == 0 {
        None
    } else {
        match row_fault(grid, y, (upto - 1) as nat) {
            Some(e) => Some(e),
            None => cell_fault(grid, upto - 1, y),
        }
    }
}

/// The first fault, in reading order, among the first `upto` rows.
pub open spec fn grid_fault(grid: Seq<Seq<char>>, upto: nat) -> Option<LoadError>
    decreases upto,
{
    if upto == 0 {
        None
    } else {
        match grid_fault(grid, (upto - 1) as nat) {
            Some(e) => Some(e),
            None => row_fault(grid, upto - 1, grid[upto - 1].len()),
        }
    }
}

/// What loading `text` gives. The text must have a line, only glyphs in its
/// lines, exactly one `h` and at least one `f`; the first fault in reading
/// order is the one reported. The width is the length of the first line, the
/// height the number of lines. The snake's body is the `h` cell followed by the
/// `b` cells in reading order; the food is the last `f` cell.
pub open spec fn parse(text: Seq<char>) -> Result<LevelView, LoadError> {
    let grid = lines_of(text);
    let heads = cells_of(grid, 'h');
    let foods = cells_of(grid, 'f');
    if grid.len() == 0 {
        Err(LoadError::NoLine)
    } else if grid_fault(grid, grid.len()) is Some {
        Err(grid_fault(grid, grid.len())->0)
    } else if heads.len() == 0 {
        Err(LoadError::HeadNotFound)
    } else if foods.len() == 0 {
        Err(LoadError::FoodNotFound)
    } else {
        Ok(
            LevelView {
                width: grid[0].len() as usize,
                height: grid.len() as usize,
                walls: cells_of(grid, '#'),
                food: foods.last(),
                snake: SnakeView { body: heads + cells_of(grid, 'b'), heading: Direction::Right },
            },
        )
    }
}

/// A fault found in a row stays the row's first fault when more cells are
/// looked at.
pub proof fn lemma_row_fault_stays(grid: Seq<Seq<char>>, y: int, found: nat, upto: nat)
    requires
        found <= upto,
        row_fault(grid, y, found) is Some,
    ensures
        row_fault(grid, y, upto) == row_fault(grid, y, found),
    decreases upto,
{
    if found < upto {
        lemma_row_fault_stays(grid, y, found, (upto - 1) as nat);
    }
}

/// A fault found in the grid stays the grid's first fault when more rows are
/// looked at.
pub proof fn lemma_grid_fault_stays(grid: Seq<Seq<char>>, found: nat, upto: nat)
    requires
        found <= upto,
        grid_fault(grid, found) is Some,
    ensures
        grid_fault(grid, upto) == grid_fault(grid, found),
    decreases upto,
{
    if found < upto {
        lemma_grid_fault_stays(grid, found, (upto - 1) as nat);
    }
}

/// The grid's rows and columns can be counted in `usize`.
pub open spec fn fits(grid: Seq<Seq<char>>) -> bool {
    &&& grid.len() <= usize::MAX
    &&& forall|y: int| 0 <= y < grid.len() ==> (#[trigger] grid[y]).len() <= usize::MAX
}

/// Whether column `p.x` of row `p.y` of `grid` exists and holds `glyph`.
pub open spec fn glyph_at(grid: Seq<Seq<char>>, p: Point, glyph: char) -> bool {
    p.y < grid.len() && p.x < grid[p.y as int].len() && grid[p.y as int][p.x as int] == glyph
}

/// A cell is listed for a glyph in a row exactly if it lies in the columns
/// looked at and holds the glyph.
pub proof fn lemma_row_cells(line: Seq<char>, y: int, glyph: char, upto: nat, p: Point)
    requires
        0 <= y <= usize::MAX,
        upto <= line.len() <= usize::MAX,
    ensures
        row_cells(line, y, glyph, upto).contains(p) <==> p.y == y && p.x < upto && line[p.x as int]
            == glyph,
    decreases upto,
{
    broadcast use vstd::seq_lib::lemma_seq_contains_after_push;

    if upto > 0 {
        lemma_row_cells(line, y, glyph, (upto - 1) as nat, p);
    }
}

/// A cell is listed for a glyph in the first rows exactly if it lies in one
/// of them and holds the glyph.
pub proof fn lemma_grid_cells(grid: Seq<Seq<char>>, glyph: char, upto: nat, p: Point)
    requires
        fits(grid),
        upto <= grid.len(),
    ensures
        grid_cells(grid, glyph, upto).contains(p) <==> p.y < upto && glyph_at(grid, p, glyph),
    decreases upto,
{
    broadcast use vstd::seq_lib::lemma_seq_concat_contains_all_elements;

    if upto > 0 {
        lemma_grid_cells(grid, glyph, (upto - 1) as nat, p);
        lemma_row_cells(grid[upto - 1], upto - 1, glyph, grid[upto - 1].len(), p);
    }
}

/// The cells listed for a glyph are the cells that hold it.
pub proof fn lemma_cells_of(grid: Seq<Seq<char>>, glyph: char, p: Point)
    requires
        fits(grid),
    ensures
        cells_of(grid, glyph).contains(p) <==> glyph_at(grid, p, glyph),
{
    lemma_grid_cells(grid, glyph, grid.len(), p);
}

/// In a grid that loads, the food lies on no wall and under no cell of the
/// snake, and the snake has a head: the `h` cell.
pub proof fn lemma_loaded_wf(grid: Seq<Seq<char>>)
    requires
        fits(grid),
        cells_of(grid, 'h').len() > 0,
        cells_of(grid, 'f').len() > 0,
    ensures
        ({
            let food = cells_of(grid, 'f').last();
            let body = cells_of(grid, 'h') + cells_of(grid, 'b');
            &&& glyph_at(grid, food, 'f')
            &&& !cells_of(grid, '#').contains(food)
            &&& !body.contains(food)
            &&& body.len() > 0
            &&& glyph_at(grid, body[0], 'h')
        }),
{
    broadcast use vstd::seq_lib::lemma_seq_concat_contains_all_elements;

    let foods = cells_of(grid, 'f');
    let heads = cells_of(grid, 'h');
    let food = foods.last();
    assert(foods[foods.len() - 1] == food);
    assert(foods.contains(food));
    assert(heads.contains(heads[0]));
    lemma_cells_of(grid, 'f', food);
    lemma_cells_of(grid, '#', food);
    lemma_cells_of(grid, 'h', food);
    lemma_cells_of(grid, 'b', food);
    lemma_cells_of(grid, 'h', heads[0]);
}

/// Every character of every line is a glyph.
pub open spec fn all_glyphs(grid: Seq<Seq<char>>) -> bool {
    forall|y: int, x: int|
        0 <= y < grid.len() && 0 <= x < grid[y].len() ==> is_glyph(#[trigger] grid[y][x])
}

/// A row lists as many cells for a glyph as the glyph occurs in the columns
/// looked at.
pub proof fn lemma_row_cells_len(line: Seq<char>, y: int, glyph: char, upto: nat)
    requires
        upto <= line.len(),
    ensures
        row_cells(line, y, glyph, upto).len() == count(line.take(upto as int), glyph),
    decreases upto,
{
    if upto > 0 {
        lemma_row_cells_len(line, y, glyph, (upto - 1) as nat);
        assert(line.take(upto as int).drop_last() == line.take(upto - 1));
    }
}

/// The grid lists as many cells for a glyph as the glyph occurs in the rows
/// looked at.
pub proof fn lemma_grid_cells_len(grid: Seq<Seq<char>>, glyph: char, upto: nat)
    requires
        upto <= grid.len(),
    ensures
        grid_cells(grid, glyph, upto).len() == count_in_lines(grid.take(upto as int), glyph),
    decreases upto,
{
    if upto > 0 {
        lemma_grid_cells_len(grid, glyph, (upto - 1) as nat);
        let last = grid[upto - 1];
        lemma_row_cells_len(last, upto - 1, glyph, last.len());
        assert(last.take(last.len() as int) == last);
        assert(grid.take(upto as int).drop_last() == grid.take(upto - 1));
    }
}

/// A row without fault up to a column holds only glyphs up to there, and at
/// most one head was seen by then.
pub proof fn lemma_row_without_fault(grid: Seq<Seq<char>>, y: int, upto: nat)
    requires
        0 <= y < grid.len(),
        upto <= grid[y].len(),
        grid_cells(grid, 'h', y as nat).len() <= 1,
    ensures
        row_fault(grid, y, upto) is None <==> heads_before(grid, upto as int, y) <= 1 && forall|
            x: int,
        |
            0 <= x < upto ==> is_glyph(#[trigger] grid[y][x]),
    decreases upto,
{
    if upto > 0 {
        lemma_row_without_fault(grid, y, (upto - 1) as nat);
    }
}

/// The rows looked at are without fault exactly if they hold only glyphs and
/// at most one head.
pub proof fn lemma_grid_without_fault(grid: Seq<Seq<char>>, upto: nat)
    requires
        upto <= grid.len(),
    ensures
        grid_fault(grid, upto) is None <==> grid_cells(grid, 'h', upto).len() <= 1 && forall|
            y: int,
            x: int,
        |
            0 <= y < upto && 0 <= x < grid[y].len() ==> is_glyph(#[trigger] grid[y][x]),
    decreases upto,
{
    if upto > 0 {
        let y = upto - 1;
        lemma_grid_without_fault(grid, y as nat);
        if grid_cells(grid, 'h', y as nat).len() <= 1 {
            lemma_row_without_fault(grid, y, grid[y].len());
        }
    }
}

/// A text loads exactly if it has a line, every character of its lines is a
/// glyph, exactly one of them is `h`, and at least one is `f`.
pub proof fn lemma_loads_iff(text: Seq<char>)
    ensures
        parse(text) is Ok <==> {
            &&& lines_of(text).len() > 0
            &&& all_glyphs(lines_of(text))
            &&& cells_of(lines_of(text), 'h').len() == 1
            &&& cells_of(lines_of(text), 'f').len() >= 1
        },
{
    let grid = lines_of(text);
    lemma_grid_without_fault(grid, grid.len());
}

/// A text without an `h`, with more than one `h`, or without an `f` does not
/// load.
pub proof fn lemma_load_needs_one_head_and_food(text: Seq<char>)
    ensures
        parse(text) is Ok ==> count(text, 'h') == 1 && count(text, 'f') >= 1,
{
    let grid = lines_of(text);
    lemma_loads_iff(text);
    lemma_grid_cells_len(grid, 'h', grid.len());
    lemma_grid_cells_len(grid, 'f', grid.len());
    assert(grid.take(grid.len() as int) == grid);
    lemma_lines_keep_count(text, 'h');
    lemma_lines_keep_count(text, 'f');
}

} // verus!
