use vstd::prelude::*;

verus! {

/// The role a cell plays in the maze: exactly one `Start` and one `Goal`
/// are expected per maze, every other cell is `Normal`.
#[derive(Clone, Copy, PartialEq, Eq, Structural, Debug)]
pub enum FieldKind {
    /// An ordinary cell.
    Normal,
    /// The cell where the marble starts.
    Start,
    /// The cell the marble must reach.
    Goal,
}

/// The four cardinal directions, used to query passages.
#[derive(Clone, Copy, PartialEq, Eq, Structural, Debug)]
pub enum Direction {
    /// Towards smaller row numbers.
    North,
    /// Towards larger column numbers.
    East,
    /// Towards larger row numbers.
    South,
    /// Towards smaller column numbers.
    West,
}

/// One maze cell: its role and its passage set. A `true` passage flag means
/// the wall towards the neighbour in that direction is absent.
#[derive(Clone, Copy, PartialEq, Eq, Structural, Debug)]
pub struct Cell {
    /// The role of this cell.
    pub kind: FieldKind,
    /// Passage towards the cell one row up.
    pub north: bool,
    /// Passage towards the cell one column right.
    pub east: bool,
    /// Passage towards the cell one row down.
    pub south: bool,
    /// Passage towards the cell one column left.
    pub west: bool,
}

impl Cell {
    /// An ordinary cell with no passages at all.
    pub fn closed_normal() -> (r: Cell)
        ensures
            r == (Cell { kind: FieldKind::Normal, north: false, east: false, south: false, west: false }),
    {
        Cell { kind: FieldKind::Normal, north: false, east: false, south: false, west: false }
    }

    /// Whether a passage exists in the given direction.
    pub fn has_passage(&self, dir: Direction) -> (r: bool)
        ensures
            r == self.spec_passage(dir),
    {
        match dir {
            Direction::North => self.north,
            Direction::East => self.east,
            Direction::South => self.south,
            Direction::West => self.west,
        }
    }

    /// The passage flag for a direction.
    pub open spec fn spec_passage(self, dir: Direction) -> bool {
        match dir {
            Direction::North => self.north,
            Direction::East => self.east,
            Direction::South => self.south,
            Direction::West => self.west,
        }
    }
}

/// A rectangular maze topology: `width * height` cells in row-major order
/// (row 0 first, and within a row, column 0 first).
#[derive(Clone, Debug)]
pub struct MazeGrid {
    /// Number of columns.
    pub width: usize,
    /// Number of rows.
    pub height: usize,
    /// The cells, row-major: the cell at `(col, row)` is `cells[row * width + col]`.
    pub cells: Vec<Cell>,
}

impl MazeGrid {
    /// A grid is well formed when it holds exactly one cell per coordinate.
    pub open spec fn wf(self) -> bool {
        self.cells@.len() == self.width * self.height
    }

    /// The cell at `(col, row)`; meaningful for in-range coordinates only.
    pub open spec fn spec_cell(self, col: int, row: int) -> Cell {
        self.cells@[row * self.width + col]
    }

    /// The cell at row-major index `idx`.
    pub open spec fn spec_cell_at(self, idx: int) -> Cell {
        self.cells@[idx]
    }

    /// Retrieve the cell at `(col, row)`, or `None` when the coordinates lie
    /// outside the grid; querying an edge neighbour never panics.
    pub fn get(&self, col: usize, row: usize) -> (r: Option<Cell>)
        requires
            self.wf(),
        ensures
            match r {
                Some(c) => col < self.width && row < self.height && c == self.spec_cell(col as int, row as int),
                None => col >= self.width || row >= self.height,
            },
    {
        if col < self.width && row < self.height {
            // Reading the length binds cells@.len() (== width * height) to a
            // usize, so the index arithmetic below is known not to overflow.
            let n = self.cells.len();
            proof {
                lemma_row_major_index_in_range(self.width as int, self.height as int, col as int, row as int);
            }
            Some(self.cells[row * self.width + col])
        } else {
            None
        }
    }

    /// Build a grid from its parts.
    pub fn new(width: usize, height: usize, cells: Vec<Cell>) -> (r: MazeGrid)
        requires
            cells@.len() == width * height,
        ensures
            r.wf(),
            r.width == width,
            r.height == height,
            r.cells@ == cells@,
    {
        MazeGrid { width, height, cells }
    }

    /// How many cells of the grid carry the given role.
    pub open spec fn spec_kind_count(self, kind: FieldKind) -> int {
        count_kind_upto(self.cells@, kind, self.cells@.len() as int)
    }

    /// Count the cells of a given role, executable counterpart of
    /// [`Self::spec_kind_count`].
    pub fn kind_count(&self, kind: FieldKind) -> (r: usize)
        ensures
            r == self.spec_kind_count(kind),
    {
        let mut count: usize = 0;
        let mut i: usize = 0;
        while i < self.cells.len()
            invariant
                i <= self.cells@.len(),
                count == count_kind_upto(self.cells@, kind, i as int),
                count <= i,
            decreases self.cells@.len() - i,
        {
            if self.cells[i].kind == kind {
                count = count + 1;
            }
            i = i + 1;
        }
        count
    }
}

/// A row-major index computed from in-range coordinates is itself in range.
pub proof fn lemma_row_major_index_in_range(width: int, height: int, col: int, row: int)
    requires
        0 <= col < width,
        0 <= row < height,
    ensures
        0 <= row * width + col < width * height,
    decreases height,
{
    if row == 0 {
        assert(col < width * height) by (nonlinear_arith)
            requires 0 <= col < width, height >= 1;
    } else {
        lemma_row_major_index_in_range(width, height - 1, col, row - 1);
        assert(row * width + col == (row - 1) * width + col + width) by (nonlinear_arith);
        assert(width * (height - 1) + width == width * height) by (nonlinear_arith);
    }
}

/// How many of the first `n` cells carry the role `kind`.
pub open spec fn count_kind_upto(cells: Seq<Cell>, kind: FieldKind, n: int) -> int
    decreases n,
{
    if n <= 0 {
        0
    } else {
        count_kind_upto(cells, kind, n - 1) + if cells[n - 1].kind == kind { 1int } else { 0int }
    }
}

} // verus!
