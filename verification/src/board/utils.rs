//! Where on a board something new may be put.

use crate::board::Board;
use crate::board::cell_at;
use crate::board::SIZE;
use crate::random::pick_random;
use crate::vectors::Vector2Int;
use vstd::prelude::*;

verus! {

/// The cells of the board that none of the given positions takes, row by row.
pub open spec fn spec_possible_spawn_positions(
    blocker_positions: Seq<Vector2Int>,
    board: &Board,
) -> Seq<Vector2Int> {
    Seq::new(board.tile_count(), |i: int| cell_at(i)).filter(
        |v: Vector2Int| !blocker_positions.contains(v),
    )
}

/// Whether one of the positions is `v`.
pub fn is_taken(blocker_positions: &Vec<Vector2Int>, v: Vector2Int) -> (taken: bool)
    ensures
        taken == blocker_positions@.contains(v),
{
    let mut i: usize = 0;
    while i < blocker_positions.len()
        invariant
            0 <= i <= blocker_positions@.len(),
            forall|j: int| 0 <= j < i ==> blocker_positions@[j] != v,
        decreases blocker_positions@.len() - i,
    {
        if blocker_positions[i] == v {
            return true;
        }
        i = i + 1;
    }
    false
}

/// The free cells of the board.
pub fn get_possible_spawn_positions(blocker_positions: &Vec<Vector2Int>, board: &Board) -> (free:
    Vec<Vector2Int>)
    ensures
        free@ == spec_possible_spawn_positions(blocker_positions@, board),
{
    let mut free: Vec<Vector2Int> = Vec::new();
    let mut i: usize = 0;
    let ghost cells = Seq::new(board.tile_count(), |i: int| cell_at(i));
    let ghost is_free = |v: Vector2Int| !blocker_positions@.contains(v);
    let count: usize = board.count_tiles();
    while i < count
        invariant
            0 <= i <= count == board.tile_count() <= SIZE * SIZE,
            cells == Seq::new(board.tile_count(), |i: int| cell_at(i)),
            is_free == |v: Vector2Int| !blocker_positions@.contains(v),
            free@ == cells.take(i as int).filter(is_free),
        decreases count - i,
    {
        let v = Vector2Int::new((i % (SIZE as usize)) as i32, (i / (SIZE as usize)) as i32);
        proof {
            assert(cells.take(i + 1) =~= cells.take(i as int).push(v));
            cells.take(i as int).lemma_filter_push(v, is_free);
        }
        if !is_taken(blocker_positions, v) {
            free.push(v);
        }
        i = i + 1;
    }
    assert(cells.take(i as int) =~= cells);
    free
}

/// A free cell of the board picked at random, if there is one.
pub fn get_spawn_position(blocker_positions: &Vec<Vector2Int>, board: &Board) -> (position: Option<
    Vector2Int,
>)
    ensures
        position is None <==> spec_possible_spawn_positions(blocker_positions@, board).len() == 0,
        position matches Some(v) ==> spec_possible_spawn_positions(
            blocker_positions@,
            board,
        ).contains(v),
{
    let positions = get_possible_spawn_positions(blocker_positions, board);
    pick_random(&positions)
}

} // verus!
