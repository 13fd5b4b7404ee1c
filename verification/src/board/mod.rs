//! The board: a square grid of tiles with one stair, and what stands in the
//! way on it.

pub mod tile;
pub mod utils;

use crate::board::tile::Tile;
use crate::board::tile::TileKind;
use crate::random::random_below;
use crate::states::GameState;
use crate::vectors::Vector2Int;
use vstd::prelude::*;

verus! {

/// The number of cells along each side of the board.
pub const SIZE: u8 = 6;

/// Out of a thousand cells, how many are a wall or a bush.
pub const OBSTACLE_PERMILLE: u32 = 75;

/// Out of a thousand such cells, how many are a wall.
pub const WALL_PERMILLE: u32 = 500;

/// Where something stands on the grid.
#[derive(Debug, Clone, Copy, PartialEq, Eq, Hash, Structural)]
pub struct Position {
    pub v: Vector2Int,
}

/// Marks what stands in the way of a move. A move may end on a blocker only
/// if it is targetable.
#[derive(Debug, Clone, Copy, PartialEq, Eq, Hash, Structural)]
pub struct Blocker {
    pub is_targetable: bool,
}

/// The tiles of a level, row by row from the row `y == 0`, and the cell of
/// its stair.
pub struct Board {
    pub tiles: Vec<Tile>,
    pub stair_v: Vector2Int,
}

/// Whether `v` lies on the grid.
pub open spec fn in_bounds(v: Vector2Int) -> bool {
    0 <= v.x < SIZE && 0 <= v.y < SIZE
}

/// The place of the cell `v` in the rows of tiles.
pub open spec fn cell_index(v: Vector2Int) -> int {
    v.y * SIZE + v.x
}

/// The cell whose tile stands at place `index`.
pub open spec fn cell_at(index: int) -> Vector2Int {
    Vector2Int { x: (index % (SIZE as int)) as i32, y: (index / (SIZE as int)) as i32 }
}

/// The kind of tile that two draws out of a thousand give: an obstacle when
/// the first is low enough, and then a wall or a bush by the second.
pub open spec fn spec_kind_from_rolls(obstacle_roll: u32, wall_roll: u32) -> TileKind {
    if obstacle_roll < OBSTACLE_PERMILLE {
        if wall_roll < WALL_PERMILLE {
            TileKind::Wall
        } else {
            TileKind::Bush
        }
    } else {
        TileKind::Floor
    }
}

impl Board {
    /// The number of tiles that lie on the grid.
    pub open spec fn tile_count(&self) -> nat {
        if self.tiles@.len() <= SIZE * SIZE {
            self.tiles@.len()
        } else {
            (SIZE * SIZE) as nat
        }
    }

    /// Whether the board has a tile at `v`.
    pub open spec fn has_tile(&self, v: Vector2Int) -> bool {
        in_bounds(v) && cell_index(v) < self.tiles@.len()
    }

    /// The kind of the tile at `v`, where the board has one.
    pub open spec fn kind_at(&self, v: Vector2Int) -> TileKind {
        self.tiles@[cell_index(v)].kind
    }

    /// A complete board: a tile for every cell of the grid, the stair in the
    /// lower half, and no other stair.
    pub open spec fn wf(&self) -> bool {
        &&& self.tiles@.len() == SIZE * SIZE
        &&& in_bounds(self.stair_v)
        &&& self.stair_v.y < SIZE / 2
        &&& forall|i: int|
            0 <= i < self.tiles@.len() ==> ((#[trigger] self.tiles@[i]).kind == TileKind::Stair
                <==> i == cell_index(self.stair_v))
    }

    /// The wall tiles as blockers, row by row: none of them is targetable.
    pub open spec fn spec_wall_blockers(&self) -> Seq<(Position, Blocker)> {
        Seq::new(self.tile_count(), |i: int| i).filter(
            |i: int| self.tiles@[i].kind == TileKind::Wall,
        ).map_values(|i: int| (Position { v: cell_at(i) }, Blocker { is_targetable: false }))
    }

    /// The number of tiles that lie on the grid.
    pub fn count_tiles(&self) -> (count: usize)
        ensures
            count == self.tile_count(),
    {
        if self.tiles.len() <= (SIZE as usize) * (SIZE as usize) {
            self.tiles.len()
        } else {
            (SIZE as usize) * (SIZE as usize)
        }
    }

    /// Whether the board has a tile at `v`.
    pub fn contains(&self, v: Vector2Int) -> (found: bool)
        ensures
            found == self.has_tile(v),
    {
        v.x >= 0 && v.x < SIZE as i32 && v.y >= 0 && v.y < SIZE as i32 && (v.y as usize)
            * (SIZE as usize) + (v.x as usize) < self.tiles.len()
    }

    /// The kind of the tile at `v`, if the board has one there.
    pub fn tile_kind(&self, v: Vector2Int) -> (kind: Option<TileKind>)
        ensures
            kind == if self.has_tile(v) {
                Some(self.kind_at(v))
            } else {
                None
            },
    {
        if self.contains(v) {
            Some(self.tiles[(v.y as usize) * (SIZE as usize) + (v.x as usize)].kind)
        } else {
            None
        }
    }

    /// The walls of the board, as the blockers they are.
    pub fn wall_blockers(&self) -> (blockers: Vec<(Position, Blocker)>)
        ensures
            blockers@ == self.spec_wall_blockers(),
    {
        let mut blockers: Vec<(Position, Blocker)> = Vec::new();
        let mut i: usize = 0;
        let ghost places = Seq::new(self.tile_count(), |i: int| i);
        let ghost is_wall = |i: int| self.tiles@[i].kind == TileKind::Wall;
        let ghost as_blocker = |i: int|
            (Position { v: cell_at(i) }, Blocker { is_targetable: false });
        let count: usize = self.count_tiles();
        while i < count
            invariant
                0 <= i <= count == self.tile_count() <= SIZE * SIZE,
                places == Seq::new(self.tile_count(), |i: int| i),
                is_wall == |i: int| self.tiles@[i].kind == TileKind::Wall,
                as_blocker == |i: int|
                    (Position { v: cell_at(i) }, Blocker { is_targetable: false }),
                blockers@ == places.take(i as int).filter(is_wall).map_values(as_blocker),
            decreases count - i,
        {
            proof {
                assert(places.take(i + 1) =~= places.take(i as int).push(i as int));
                places.take(i as int).lemma_filter_push(i as int, is_wall);
            }
            if self.tiles[i].kind == TileKind::Wall {
                let v = Vector2Int::new((i % (SIZE as usize)) as i32, (i / (SIZE as usize)) as i32);
                blockers.push((Position { v }, Blocker { is_targetable: false }));
            }
            i = i + 1;
        }
        assert(places.take(i as int) =~= places);
        blockers
    }
}

/// A complete board has a tile for every cell of the grid, and for no other.
pub proof fn lemma_complete_board_covers_grid(board: &Board, v: Vector2Int)
    requires
        board.wf(),
    ensures
        board.has_tile(v) == in_bounds(v),
{
}

/// Every wall of the board is a blocker that is no target: no move ends on
/// a wall.
pub proof fn lemma_walls_are_no_target(board: &Board, v: Vector2Int)
    requires
        board.has_tile(v),
        board.kind_at(v) == TileKind::Wall,
    ensures
        exists|k: int|
            0 <= k < board.spec_wall_blockers().len() && (#[trigger] board.spec_wall_blockers()[k])
                == (Position { v }, Blocker { is_targetable: false }),
{
    let places = Seq::new(board.tile_count(), |i: int| i);
    let is_wall = |i: int| board.tiles@[i].kind == TileKind::Wall;
    let c = cell_index(v);
    places.lemma_filter_contains(is_wall, c);
    let k = choose|k: int| 0 <= k < places.filter(is_wall).len() && places.filter(is_wall)[k] == c;
    assert(board.spec_wall_blockers()[k] == (Position { v }, Blocker { is_targetable: false }));
}

/// The kind of tile for two draws below a thousand.
pub fn tile_kind_from_rolls(obstacle_roll: u32, wall_roll: u32) -> (kind: TileKind)
    ensures
        kind == spec_kind_from_rolls(obstacle_roll, wall_roll),
{
    if obstacle_roll < OBSTACLE_PERMILLE {
        if wall_roll < WALL_PERMILLE {
            TileKind::Wall
        } else {
            TileKind::Bush
        }
    } else {
        TileKind::Floor
    }
}

/// A fresh board: the stair at a random cell of the lower half, every other
/// tile a floor, a wall or a bush by two draws of its own.
pub fn generate_board() -> (board: Board)
    ensures
        board.wf(),
{
    let stair_x: u32 = random_below(SIZE as u32);
    let stair_y: u32 = random_below((SIZE / 2) as u32);
    let stair_v = Vector2Int::new(stair_x as i32, stair_y as i32);
    let mut tiles: Vec<Tile> = Vec::new();
    let mut y: u8 = 0;
    while y < SIZE
        invariant
            0 <= y <= SIZE,
            tiles@.len() == y * SIZE,
            in_bounds(stair_v),
            stair_v.y < SIZE / 2,
            forall|i: int|
                0 <= i < tiles@.len() ==> ((#[trigger] tiles@[i]).kind == TileKind::Stair <==> i
                    == cell_index(stair_v)),
        decreases SIZE - y,
    {
        let mut x: u8 = 0;
        while x < SIZE
            invariant
                0 <= x <= SIZE,
                0 <= y < SIZE,
                tiles@.len() == y * SIZE + x,
                in_bounds(stair_v),
                stair_v.y < SIZE / 2,
                forall|i: int|
                    0 <= i < tiles@.len() ==> ((#[trigger] tiles@[i]).kind == TileKind::Stair
                        <==> i == cell_index(stair_v)),
            decreases SIZE - x,
        {
            let v = Vector2Int::new(x as i32, y as i32);
            let obstacle_roll: u32 = random_below(1000);
            let wall_roll: u32 = random_below(1000);
            let mut kind = tile_kind_from_rolls(obstacle_roll, wall_roll);
            if v == stair_v {
                kind = TileKind::Stair;
            }
            tiles.push(Tile { kind });
            x = x + 1;
        }
        y = y + 1;
    }
    Board { tiles, stair_v }
}

/// Discards the board. While a level is being generated this lets the
/// spawning begin.
pub fn clear_board(board: &mut Option<Board>, game_state: &mut GameState)
    ensures
        *final(board) is None,
        *final(game_state) == if *old(game_state) == GameState::MapGenerate {
            GameState::Spawning
        } else {
            *old(game_state)
        },
{
    *board = None;
    if *game_state == GameState::MapGenerate {
        *game_state = GameState::Spawning;
    }
}

} // verus!
