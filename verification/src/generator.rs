use vstd::prelude::*;

use maze_generator::prelude::Generator;

use vstd::arithmetic::div_mod::{
    lemma_fundamental_div_mod, lemma_fundamental_div_mod_converse_div,
    lemma_fundamental_div_mod_converse_mod, lemma_mod_bound,
};

use crate::compiler::MAX_GRID_DIM;
use crate::maze::{lemma_row_major_index_in_range, Cell, Direction, FieldKind, MazeGrid};

verus! {

/// The interchangeable maze-generation algorithms of the outside provider.
#[derive(Clone, Copy, PartialEq, Eq, Structural, Debug)]
pub enum Algorithm {
    /// Eller's algorithm.
    Ellers,
    /// The growing-tree algorithm.
    GrowingTree,
    /// Prim's algorithm.
    Prims,
    /// Recursive backtracking.
    RecursiveBacktracking,
}

impl Default for Algorithm {
    /// The default generation algorithm.
    fn default() -> (r: Algorithm)
        ensures
            r == Algorithm::GrowingTree,
    {
        Algorithm::GrowingTree
    }
}

/// What maze to ask the provider for: an algorithm and the grid size.
#[derive(Clone, Copy, PartialEq, Eq, Structural, Debug)]
pub struct MazeConfig {
    /// Which algorithm generates the topology.
    pub algorithm: Algorithm,
    /// Number of rows.
    pub height: i32,
    /// Number of columns.
    pub width: i32,
}

impl Default for MazeConfig {
    /// The default configuration: a 15 by 15 growing-tree maze.
    fn default() -> (r: MazeConfig)
        ensures
            r == (MazeConfig { algorithm: Algorithm::GrowingTree, height: 15, width: 15 }),
    {
        MazeConfig { algorithm: Algorithm::GrowingTree, height: 15, width: 15 }
    }
}

/// Maze generation failed in the outside provider (or the entropy source
/// failed); fatal for the level being set up, never retried.
#[derive(Clone, Debug)]
pub struct GenerationError {
    /// The provider's description of the failure.
    pub message: String,
}

#[verifier::external_type_specification]
#[verifier::external_body]
/// The outside provider's maze value; opaque here, read only through the
/// field accessors below.
pub struct ExMaze(maze_generator::prelude::Maze);

#[verifier::external_type_specification]
#[verifier::external_body]
/// The outside provider's view of a single maze field; opaque here.
pub struct ExField(maze_generator::prelude::Field);

#[verifier::external_type_specification]
#[verifier::external_body]
/// The error type the outside provider reports generation failures with.
pub struct ExAnyhowError(anyhow::Error);

#[verifier::external_type_specification]
#[verifier::external_body]
/// The error type of the system entropy source.
pub struct ExEntropyError(getrandom::Error);

/// What a provider field holds, read as one of this library's cells: its
/// role and its four passage flags. A `Field` value determines them, so the
/// accessor wrappers below are all specified against this one name.
pub uninterp spec fn field_view(f: maze_generator::prelude::Field) -> Cell;

/// What a provider maze holds: the cell at each in-range (column, row)
/// coordinate pair. A `Maze` value determines its fields, so the field
/// lookup and the generator wrappers speak of this name.
pub uninterp spec fn maze_contents(m: maze_generator::prelude::Maze) -> Map<(int, int), Cell>;

/// The (width, height) a provider maze was built with.
pub uninterp spec fn maze_size_of(m: maze_generator::prelude::Maze) -> (int, int);

/// Whether (x, y) addresses a field inside the provider maze.
pub open spec fn maze_in_range(m: maze_generator::prelude::Maze, x: int, y: int) -> bool {
    0 <= x && x < maze_size_of(m).0 && 0 <= y && y < maze_size_of(m).1
}

/// The outcome of Eller's algorithm on a 32-byte seed and a size: the
/// generated maze's contents, or `None` for the runs that end in the
/// provider's internal error. Seeded generation runs a seeded ChaCha
/// stream through deterministic data structures, so success and contents
/// are a function of the seed and the size alone; what they are takes the
/// whole algorithm to state, hence a name.
pub uninterp spec fn ellers_outcome_of(seed: Seq<u8>, width: int, height: int) -> Option<
    Map<(int, int), Cell>,
>;

/// The outcome of the growing-tree algorithm on a 32-byte seed and a size;
/// named for the same reason as [`ellers_outcome_of`].
pub uninterp spec fn growing_tree_outcome_of(seed: Seq<u8>, width: int, height: int) -> Option<
    Map<(int, int), Cell>,
>;

/// The outcome of Prim's algorithm on a 32-byte seed and a size; named for
/// the same reason as [`ellers_outcome_of`].
pub uninterp spec fn prims_outcome_of(seed: Seq<u8>, width: int, height: int) -> Option<
    Map<(int, int), Cell>,
>;

/// The outcome of recursive backtracking on a 32-byte seed and a size;
/// named for the same reason as [`ellers_outcome_of`].
pub uninterp spec fn rb_outcome_of(seed: Seq<u8>, width: int, height: int) -> Option<
    Map<(int, int), Cell>,
>;

/// What the provider's error type renders through `Display`: a function of
/// the error value alone, named so that callers can pin a reported message
/// to the provider's own rendering.
pub uninterp spec fn anyhow_text(e: anyhow::Error) -> Seq<char>;

/// What the entropy source's error type renders through `Display`.
pub uninterp spec fn entropy_error_text(e: getrandom::Error) -> Seq<char>;

/// Recursive backtracking carves with one recursion frame per carved cell,
/// so large mazes overrun a thread's stack; this bound keeps the whole
/// recursion inside a default 2 MB thread stack even unoptimized. Its
/// wrapper refuses larger mazes, and [`generate_grid`] reports them as
/// generation failures before the call.
pub const MAX_RB_CELLS: i64 = 2_000;

/// Relies on `EllersGenerator::new` and `Generator::generate` of the
/// maze_generator crate: generates a maze with Eller's algorithm, from the
/// given seed or from entropy when none is given. A produced maze has the
/// requested size, and with a seed given both success and contents are the
/// function of seed and size that [`ellers_outcome_of`] names; an unseeded
/// run depends on entropy, so nothing is promised of its contents.
#[verifier::external_body]
fn generate_ellers(seed: Option<[u8; 32]>, width: i32, height: i32) -> (r: Result<
    maze_generator::prelude::Maze,
    anyhow::Error,
>)
    requires
        1 <= width,
        1 <= height,
        width as int * height as int <= i32::MAX as int,
    ensures
        r matches Ok(m) ==> maze_size_of(m) == (width as int, height as int),
        seed matches Some(s) ==> (r is Err <==> ellers_outcome_of(s@, width as int, height as int) is None),
        seed matches Some(s) && r matches Ok(m) ==> ellers_outcome_of(s@, width as int, height as int)
            == Some(maze_contents(m)),
{
    maze_generator::ellers_algorithm::EllersGenerator::new(seed).generate(width, height)
}

/// Relies on `GrowingTreeGenerator::new` and `Generator::generate` of the
/// maze_generator crate, as [`generate_ellers`] relies on Eller's.
#[verifier::external_body]
fn generate_growing_tree(seed: Option<[u8; 32]>, width: i32, height: i32) -> (r: Result<
    maze_generator::prelude::Maze,
    anyhow::Error,
>)
    requires
        1 <= width,
        1 <= height,
        width as int * height as int <= i32::MAX as int,
    ensures
        r matches Ok(m) ==> maze_size_of(m) == (width as int, height as int),
        seed matches Some(s) ==> (r is Err <==> growing_tree_outcome_of(s@, width as int, height as int) is None),
        seed matches Some(s) && r matches Ok(m) ==> growing_tree_outcome_of(s@, width as int, height as int)
            == Some(maze_contents(m)),
{
    maze_generator::growing_tree::GrowingTreeGenerator::new(seed).generate(width, height)
}

/// Relies on `PrimsGenerator::new` and `Generator::generate` of the
/// maze_generator crate, as [`generate_ellers`] relies on Eller's.
#[verifier::external_body]
fn generate_prims(seed: Option<[u8; 32]>, width: i32, height: i32) -> (r: Result<
    maze_generator::prelude::Maze,
    anyhow::Error,
>)
    requires
        1 <= width,
        1 <= height,
        width as int * height as int <= i32::MAX as int,
    ensures
        r matches Ok(m) ==> maze_size_of(m) == (width as int, height as int),
        seed matches Some(s) ==> (r is Err <==> prims_outcome_of(s@, width as int, height as int) is None),
        seed matches Some(s) && r matches Ok(m) ==> prims_outcome_of(s@, width as int, height as int)
            == Some(maze_contents(m)),
{
    maze_generator::prims_algorithm::PrimsGenerator::new(seed).generate(width, height)
}

/// Relies on `RbGenerator::new` and `Generator::generate` of the
/// maze_generator crate, as [`generate_ellers`] relies on Eller's. The
/// algorithm recurses once per carved cell, so mazes beyond
/// [`MAX_RB_CELLS`] cells would overrun a default thread stack; the
/// precondition refuses them.
#[verifier::external_body]
fn generate_recursive_backtracking(seed: Option<[u8; 32]>, width: i32, height: i32) -> (r: Result<
    maze_generator::prelude::Maze,
    anyhow::Error,
>)
    requires
        1 <= width,
        1 <= height,
        width as int * height as int <= MAX_RB_CELLS as int,
    ensures
        r matches Ok(m) ==> maze_size_of(m) == (width as int, height as int),
        seed matches Some(s) ==> (r is Err <==> rb_outcome_of(s@, width as int, height as int) is None),
        seed matches Some(s) && r matches Ok(m) ==> rb_outcome_of(s@, width as int, height as int)
            == Some(maze_contents(m)),
{
    maze_generator::recursive_backtracking::RbGenerator::new(seed).generate(width, height)
}

/// Relies on `Maze::get_field` of the maze_generator crate: yields the
/// field at the given coordinates exactly when they lie inside the maze,
/// and that field reads as the maze's cell at those coordinates.
#[verifier::external_body]
fn maze_field(m: &maze_generator::prelude::Maze, x: i32, y: i32) -> (r: Option<
    maze_generator::prelude::Field,
>)
    ensures
        r is None ==> !maze_in_range(*m, x as int, y as int),
        r matches Some(f) ==> maze_in_range(*m, x as int, y as int) && field_view(f)
            == maze_contents(*m)[(x as int, y as int)],
{
    m.get_field(&maze_generator::prelude::Coordinates::new(x, y))
}

/// Relies on the public `field_type` field of `Field` in the
/// maze_generator crate, translating its three variants one to one.
#[verifier::external_body]
fn field_kind(f: &maze_generator::prelude::Field) -> (r: FieldKind)
    ensures
        r == field_view(*f).kind,
{
    match f.field_type {
        maze_generator::prelude::FieldType::Start => FieldKind::Start,
        maze_generator::prelude::FieldType::Goal => FieldKind::Goal,
        maze_generator::prelude::FieldType::Normal => FieldKind::Normal,
    }
}

/// Relies on `Field::has_passage` of the maze_generator crate, translating
/// the direction one to one.
#[verifier::external_body]
fn field_passage(f: &maze_generator::prelude::Field, dir: Direction) -> (r: bool)
    ensures
        r == field_view(*f).spec_passage(dir),
{
    f.has_passage(
        &match dir {
            Direction::North => maze_generator::prelude::Direction::North,
            Direction::East => maze_generator::prelude::Direction::East,
            Direction::South => maze_generator::prelude::Direction::South,
            Direction::West => maze_generator::prelude::Direction::West,
        },
    )
}

/// Relies on `getrandom::fill`: fills the buffer from the system entropy
/// source. The bytes are random, so nothing is promised of them.
#[verifier::external_body]
fn entropy_seed() -> (r: Result<[u8; 32], getrandom::Error>) {
    let mut buf = [0u8; 32];
    match getrandom::fill(&mut buf) {
        Ok(()) => Ok(buf),
        Err(e) => Err(e),
    }
}

/// Relies on the `Display` implementation of `getrandom::Error`: the
/// returned text is that rendering of the error value.
#[verifier::external_body]
fn entropy_error_message(e: &getrandom::Error) -> (r: String)
    ensures
        r@ == entropy_error_text(*e),
{
    format!("{e}")
}

/// Relies on the `Display` implementation of `anyhow::Error`: the
/// returned text is that rendering of the error value.
#[verifier::external_body]
fn anyhow_message(e: &anyhow::Error) -> (r: String)
    ensures
        r@ == anyhow_text(*e),
{
    format!("{e}")
}

/// Draw a fresh 32-byte generation seed from the system entropy source.
/// The bytes are random, so nothing is promised of the value; a failure of
/// the entropy source is reported as a generation failure whose message is
/// the source's own rendering of its error.
pub fn random_seed() -> (r: Result<[u8; 32], GenerationError>)
    ensures
        r matches Err(ge) ==> exists|e: getrandom::Error| ge.message@ == entropy_error_text(e),
{
    match entropy_seed() {
        Ok(seed) => Ok(seed),
        Err(e) => {
            let message = entropy_error_message(&e);
            proof {
                assert(message@ == entropy_error_text(e));
            }
            Err(GenerationError { message })
        },
    }
}

/// The grid reads the maze faithfully: every in-range grid cell equals the
/// maze's cell at those coordinates.
pub open spec fn grid_matches_maze(g: MazeGrid, m: maze_generator::prelude::Maze) -> bool {
    forall|col: int, row: int|
        0 <= col < g.width && 0 <= row < g.height ==> #[trigger] g.spec_cell(col, row)
            == maze_contents(m)[(col, row)]
}

/// Read the provider's maze value out into a well-formed grid of the given
/// size, cell by cell: each in-range grid cell is the maze's cell at those
/// coordinates. The provider answers every in-range lookup, so the
/// defensive all-open default below is unreachable; it keeps the read
/// total without trusting that.
fn grid_from_maze(m: &maze_generator::prelude::Maze, width: i32, height: i32) -> (g: MazeGrid)
    requires
        1 <= width,
        1 <= height,
        width as int * height as int <= i32::MAX as int,
        maze_size_of(*m) == (width as int, height as int),
    ensures
        g.wf(),
        g.width == width as usize,
        g.height == height as usize,
        grid_matches_maze(g, *m),
{
    let w = width as usize;
    let h = height as usize;
    let mut cells: Vec<Cell> = Vec::new();
    let mut row: usize = 0;
    while row < h
        invariant
            w == width as int,
            h == height as int,
            1 <= w,
            1 <= h,
            w * h <= i32::MAX as int,
            maze_size_of(*m) == (w as int, h as int),
            row <= h,
            cells@.len() == row * w,
            forall|i: int|
                0 <= i < cells@.len() ==> #[trigger] cells@[i] == maze_contents(*m)[(i % (w as int), i / (w as int))],
        decreases h - row,
    {
        let mut col: usize = 0;
        while col < w
            invariant
                w == width as int,
                h == height as int,
                1 <= w,
                1 <= h,
                w * h <= i32::MAX as int,
                maze_size_of(*m) == (w as int, h as int),
                row < h,
                col <= w,
                cells@.len() == row * w + col,
                forall|i: int|
                    0 <= i < cells@.len() ==> #[trigger] cells@[i] == maze_contents(*m)[(i % (w as int), i / (w as int))],
            decreases w - col,
        {
            proof {
                lemma_row_major_index_in_range(w as int, h as int, col as int, row as int);
                assert(w as int <= w as int * h as int && h as int <= w as int * h as int)
                    by (nonlinear_arith)
                    requires 1 <= w, 1 <= h;
            }
            let cell = match maze_field(m, col as i32, row as i32) {
                Some(f) => Cell {
                    kind: field_kind(&f),
                    north: field_passage(&f, Direction::North),
                    east: field_passage(&f, Direction::East),
                    south: field_passage(&f, Direction::South),
                    west: field_passage(&f, Direction::West),
                },
                None => Cell {
                    kind: FieldKind::Normal,
                    north: true,
                    east: true,
                    south: true,
                    west: true,
                },
            };
            proof {
                lemma_fundamental_div_mod_converse_mod(
                    row * w + col,
                    w as int,
                    row as int,
                    col as int,
                );
                lemma_fundamental_div_mod_converse_div(
                    row * w + col,
                    w as int,
                    row as int,
                    col as int,
                );
                assert(row as int * (w as int) + col == (row * w + col) as int)
                    by (nonlinear_arith);
            }
            cells.push(cell);
            col = col + 1;
        }
        proof {
            assert(row * w + w == (row + 1) * w) by (nonlinear_arith);
        }
        row = row + 1;
    }
    proof {
        assert(h * w == w * h) by (nonlinear_arith);
    }
    let g = MazeGrid::new(w, h, cells);
    proof {
        assert forall|col: int, row: int|
            0 <= col < g.width && 0 <= row < g.height implies #[trigger] g.spec_cell(col, row)
            == maze_contents(*m)[(col, row)] by {
            lemma_row_major_index_in_range(w as int, h as int, col, row);
            lemma_fundamental_div_mod_converse_mod(row * (w as int) + col, w as int, row, col);
            lemma_fundamental_div_mod_converse_div(row * (w as int) + col, w as int, row, col);
        }
    }
    g
}

/// The outcome the algorithm a configuration selects derives from a seed
/// and a size: the strategy table from algorithm tag to named generator
/// outcome.
pub open spec fn spec_seeded_outcome(
    algorithm: Algorithm,
    seed: Seq<u8>,
    width: int,
    height: int,
) -> Option<Map<(int, int), Cell>> {
    match algorithm {
        Algorithm::Ellers => ellers_outcome_of(seed, width, height),
        Algorithm::GrowingTree => growing_tree_outcome_of(seed, width, height),
        Algorithm::Prims => prims_outcome_of(seed, width, height),
        Algorithm::RecursiveBacktracking => rb_outcome_of(seed, width, height),
    }
}

/// Whether a configuration stays inside the recursion bound of its
/// algorithm: only recursive backtracking has one.
pub open spec fn spec_depth_ok(config: MazeConfig) -> bool {
    config.algorithm == Algorithm::RecursiveBacktracking ==> config.width as int
        * config.height as int <= MAX_RB_CELLS as int
}

/// The grid is exactly what seeded generation under this configuration
/// determines: the selected algorithm succeeds on this seed and size, the
/// grid has the configured size, and every cell holds the generated
/// maze's contents there.
pub open spec fn spec_grid_matches_seeded(config: MazeConfig, seed: Seq<u8>, g: MazeGrid) -> bool {
    match spec_seeded_outcome(config.algorithm, seed, config.width as int, config.height as int) {
        Some(contents) => {
            &&& g.wf()
            &&& g.width == config.width as usize
            &&& g.height == config.height as usize
            &&& forall|col: int, row: int|
                0 <= col < g.width && 0 <= row < g.height ==> #[trigger] g.spec_cell(col, row)
                    == contents[(col, row)]
        },
        None => false,
    }
}

/// Ask the outside provider for a maze of the configured algorithm and
/// size, then read it out into the library's own grid type, cell by cell.
/// A produced grid has the configured size; and when a seed is given,
/// success and cells are exactly what the selected algorithm derives from
/// that seed and size — no retry, no fallback algorithm and no default
/// maze can stand in. An unseeded run draws on entropy, so its contents
/// are unpinned, and the compiler is verified over every possible content
/// either way. A failure is reported as a [`GenerationError`] carrying the
/// provider's own rendering of its error; the one failure of this
/// function's own is a recursive-backtracking maze beyond the recursion
/// bound, refused before the provider is called.
pub fn generate_grid(config: &MazeConfig, seed: Option<[u8; 32]>) -> (r: Result<
    MazeGrid,
    GenerationError,
>)
    requires
        1 <= config.width,
        1 <= config.height,
        config.width as int * config.height as int <= i32::MAX as int,
        config.width <= MAX_GRID_DIM as i32,
        config.height <= MAX_GRID_DIM as i32,
    ensures
        match r {
            Ok(g) => g.wf() && g.width == config.width as usize && g.height
                == config.height as usize && g.width <= MAX_GRID_DIM && g.height <= MAX_GRID_DIM
                && spec_depth_ok(*config) && (seed matches Some(s) ==> spec_grid_matches_seeded(
                *config,
                s@,
                g,
            )),
            Err(_) => true,
        },
        !spec_depth_ok(*config) ==> r is Err,
        seed matches Some(s) ==> (spec_depth_ok(*config) && r is Err ==> spec_seeded_outcome(
            config.algorithm,
            s@,
            config.width as int,
            config.height as int,
        ) is None),
        r matches Err(ge) ==> (spec_depth_ok(*config) ==> exists|e: anyhow::Error|
            ge.message@ == anyhow_text(e)),
{
    if config.algorithm == Algorithm::RecursiveBacktracking && config.width as i64
        * config.height as i64 > MAX_RB_CELLS {
        let message = "recursive backtracking cannot traverse a maze this large".to_owned();
        return Err(GenerationError { message });
    }
    let generated = match config.algorithm {
        Algorithm::Ellers => generate_ellers(seed, config.width, config.height),
        Algorithm::GrowingTree => generate_growing_tree(seed, config.width, config.height),
        Algorithm::Prims => generate_prims(seed, config.width, config.height),
        Algorithm::RecursiveBacktracking => generate_recursive_backtracking(
            seed,
            config.width,
            config.height,
        ),
    };
    match generated {
        Ok(maze) => {
            let g = grid_from_maze(&maze, config.width, config.height);
            proof {
                if let Some(s) = seed {
                    let contents = spec_seeded_outcome(
                        config.algorithm,
                        s@,
                        config.width as int,
                        config.height as int,
                    )->Some_0;
                    assert forall|col: int, row: int|
                        0 <= col < g.width && 0 <= row < g.height implies #[trigger] g.spec_cell(
                        col,
                        row,
                    ) == contents[(col, row)] by {
                        assert(g.spec_cell(col, row) == maze_contents(maze)[(col, row)]);
                    }
                }
            }
            Ok(g)
        },
        Err(e) => {
            let message = anyhow_message(&e);
            proof {
                assert(message@ == anyhow_text(e));
            }
            Err(GenerationError { message })
        },
    }
}

/// Law: once a seed is given, maze generation is a pure function of the
/// algorithm, the size and the seed. Any two grids that seeded generation
/// can return for the same configuration and seed are the same grid: same
/// size, and cell for cell the same contents.
pub proof fn lemma_seeded_generation_deterministic(
    config: MazeConfig,
    seed: Seq<u8>,
    g1: MazeGrid,
    g2: MazeGrid,
)
    requires
        1 <= config.width,
        1 <= config.height,
        spec_grid_matches_seeded(config, seed, g1),
        spec_grid_matches_seeded(config, seed, g2),
    ensures
        g1.width == g2.width,
        g1.height == g2.height,
        g1.cells@ == g2.cells@,
{
    let outcome = spec_seeded_outcome(
        config.algorithm,
        seed,
        config.width as int,
        config.height as int,
    );
    assert(outcome is Some);
    let w = g1.width as int;
    let h = g1.height as int;
    assert(g1.cells@.len() == g2.cells@.len());
    assert forall|i: int| 0 <= i < g1.cells@.len() implies g1.cells@[i] == g2.cells@[i] by {
        lemma_fundamental_div_mod(i, w);
        lemma_mod_bound(i, w);
        let col = i % w;
        let row = i / w;
        assert(row < h) by (nonlinear_arith)
            requires
                i == w * row + col,
                0 <= col,
                i < w * h,
                1 <= w,
        ;
        assert(0 <= row) by (nonlinear_arith)
            requires
                i == w * row + col,
                col < w,
                0 <= i,
                1 <= w,
        ;
        assert(row * w + col == i) by (nonlinear_arith)
            requires
                i == w * row + col,
        ;
        assert(g1.cells@[i] == g1.spec_cell(col, row));
        assert(g2.cells@[i] == g2.spec_cell(col, row));
    }
    assert(g1.cells@ =~= g2.cells@);
}

} // verus!
