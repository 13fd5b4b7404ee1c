//! Behaviours: the offsets a unit may move by, and the check its moves must
//! pass.

use crate::board::Blocker;
use crate::board::Board;
use crate::board::Position;
use crate::units::action::is_untargetable;
use crate::units::action::untargetable_at;
use crate::units::action::Validator;
use crate::vectors::diagonal_direction_list;
use crate::vectors::diagonal_directions;
use crate::vectors::fits_i32;
use crate::vectors::ortho_direction_list;
use crate::vectors::ortho_directions;
use crate::vectors::Vector2Int;
use vstd::prelude::*;

verus! {

/// A pattern of offsets and the validator that moves by them must pass.
#[derive(Debug)]
pub struct Behaviour {
    pub pattern: Vec<Vector2Int>,
    pub validator: Validator,
}

/// What a behaviour is, whatever holds it: its offsets in order and its
/// validator.
pub struct BehaviourModel {
    pub pattern: Seq<Vector2Int>,
    pub validator: Validator,
}

impl View for Behaviour {
    type V = BehaviourModel;

    open spec fn view(&self) -> BehaviourModel {
        BehaviourModel { pattern: self.pattern@, validator: self.validator }
    }
}

impl Clone for Behaviour {
    fn clone(&self) -> (copy: Behaviour)
        ensures
            copy@ == self@,
    {
        let mut pattern: Vec<Vector2Int> = Vec::new();
        let mut i: usize = 0;
        while i < self.pattern.len()
            invariant
                0 <= i <= self.pattern@.len(),
                pattern@ == self.pattern@.take(i as int),
            decreases self.pattern@.len() - i,
        {
            pattern.push(self.pattern[i]);
            i = i + 1;
        }
        assert(pattern@ =~= self.pattern@);
        Behaviour { pattern, validator: self.validator }
    }
}

/// The cell that lies `offset` away from `source`, where there is one.
pub open spec fn target_of(source: Vector2Int, offset: Vector2Int) -> Vector2Int {
    Vector2Int { x: (source.x + offset.x) as i32, y: (source.y + offset.y) as i32 }
}

impl BehaviourModel {
    /// Whether the move from `source` by `offset` is open to this behaviour:
    /// the target is a tile of the board, no blocker that is no target stands
    /// on it, and the validator lets the move pass.
    pub open spec fn reaches(
        self,
        source: Vector2Int,
        offset: Vector2Int,
        board: &Board,
        blockers: Seq<(Position, Blocker)>,
    ) -> bool {
        &&& fits_i32(source.x + offset.x)
        &&& fits_i32(source.y + offset.y)
        &&& board.has_tile(target_of(source, offset))
        &&& !untargetable_at(blockers, target_of(source, offset))
        &&& self.validator.allows(source, target_of(source, offset), blockers)
    }

    /// The cells open to a unit with this behaviour that stands on `source`,
    /// in the order of the pattern.
    pub open spec fn possible_positions(
        self,
        source: Vector2Int,
        board: &Board,
        blockers: Seq<(Position, Blocker)>,
    ) -> Seq<Vector2Int> {
        self.pattern.filter(|offset: Vector2Int| self.reaches(source, offset, board, blockers))
            .map_values(|offset: Vector2Int| target_of(source, offset))
    }
}

impl Behaviour {
    /// The cells that a unit on `source` may move to.
    pub fn possible_positions(
        &self,
        source: Vector2Int,
        board: &Board,
        blockers: &Vec<(Position, Blocker)>,
    ) -> (positions: Vec<Vector2Int>)
        ensures
            positions@ == self@.possible_positions(source, board, blockers@),
            forall|i: int| 0 <= i < positions@.len() ==> board.has_tile(#[trigger] positions@[i]),
            forall|i: int|
                0 <= i < positions@.len() ==> !untargetable_at(
                    blockers@,
                    #[trigger] positions@[i],
                ),
            forall|i: int|
                0 <= i < positions@.len() ==> self.validator.allows(
                    source,
                    #[trigger] positions@[i],
                    blockers@,
                ),
    {
        let mut positions: Vec<Vector2Int> = Vec::new();
        let ghost open = |offset: Vector2Int| self@.reaches(source, offset, board, blockers@);
        let ghost target = |offset: Vector2Int| target_of(source, offset);
        let mut i: usize = 0;
        while i < self.pattern.len()
            invariant
                0 <= i <= self.pattern@.len(),
                open == |offset: Vector2Int| self@.reaches(source, offset, board, blockers@),
                target == |offset: Vector2Int| target_of(source, offset),
                positions@ == self.pattern@.take(i as int).filter(open).map_values(target),
                forall|k: int|
                    0 <= k < positions@.len() ==> board.has_tile(#[trigger] positions@[k]),
                forall|k: int|
                    0 <= k < positions@.len() ==> !untargetable_at(
                        blockers@,
                        #[trigger] positions@[k],
                    ),
                forall|k: int|
                    0 <= k < positions@.len() ==> self.validator.allows(
                        source,
                        #[trigger] positions@[k],
                        blockers@,
                    ),
            decreases self.pattern@.len() - i,
        {
            let offset = self.pattern[i];
            proof {
                assert(self.pattern@.take(i + 1) =~= self.pattern@.take(i as int).push(offset));
                self.pattern@.take(i as int).lemma_filter_push(offset, open);
            }
            let x: i64 = source.x as i64 + offset.x as i64;
            let y: i64 = source.y as i64 + offset.y as i64;
            if i32::MIN as i64 <= x && x <= i32::MAX as i64 && i32::MIN as i64 <= y && y
                <= i32::MAX as i64 {
                let p = Vector2Int::new(x as i32, y as i32);
                if board.contains(p) && !is_untargetable(blockers, p) && self.validator.is_valid(
                    source,
                    p,
                    blockers,
                ) {
                    positions.push(p);
                }
            }
            i = i + 1;
        }
        assert(self.pattern@.take(i as int) =~= self.pattern@);
        positions
    }
}

/// Every cell that `possible_positions` gives is a tile of the board, holds
/// no blocker that is no target, and is reached by a move that the validator
/// lets pass.
pub proof fn lemma_possible_positions_are_open(
    behaviour: BehaviourModel,
    source: Vector2Int,
    board: &Board,
    blockers: Seq<(Position, Blocker)>,
    i: int,
)
    requires
        0 <= i < behaviour.possible_positions(source, board, blockers).len(),
    ensures
        board.has_tile(behaviour.possible_positions(source, board, blockers)[i]),
        !untargetable_at(blockers, behaviour.possible_positions(source, board, blockers)[i]),
        behaviour.validator.allows(
            source,
            behaviour.possible_positions(source, board, blockers)[i],
            blockers,
        ),
{
}

/// What `possible_positions` gives depends on nothing but the offsets, the
/// validator, the source, the tiles and the blockers: two behaviours with the
/// same view, on boards with the same tiles and with the same blockers, have
/// the same cells open to them, in the same order.
pub proof fn lemma_possible_positions_repeatable(
    first: Behaviour,
    second: Behaviour,
    source: Vector2Int,
    first_board: &Board,
    second_board: &Board,
    blockers: Seq<(Position, Blocker)>,
)
    requires
        first@ == second@,
        first_board.tiles@ == second_board.tiles@,
    ensures
        first@.possible_positions(source, first_board, blockers) == second@.possible_positions(
            source,
            second_board,
            blockers,
        ),
{
    let model = first@;
    let open_first = |offset: Vector2Int| model.reaches(source, offset, first_board, blockers);
    let open_second = |offset: Vector2Int| model.reaches(source, offset, second_board, blockers);
    assert(open_first =~= open_second);
}

/// The steps `directions`, each taken once, twice and so on up to `range`
/// times: all of them once first, then all of them twice.
pub open spec fn spec_ranged_positions(directions: Seq<Vector2Int>, range: int) -> Seq<
    Vector2Int,
> {
    Seq::new(
        (range * directions.len()) as nat,
        |k: int|
            Vector2Int {
                x: (directions[k % (directions.len() as int)].x * (k / (directions.len() as int)
                    + 1)) as i32,
                y: (directions[k % (directions.len() as int)].y * (k / (directions.len() as int)
                    + 1)) as i32,
            },
    )
}

/// The eight moves of a chess knight.
pub open spec fn knight_offsets() -> Seq<Vector2Int> {
    seq![
        Vector2Int { x: 2, y: 1 },
        Vector2Int { x: 1, y: 2 },
        Vector2Int { x: -2i32, y: 1 },
        Vector2Int { x: -1i32, y: 2 },
        Vector2Int { x: -2i32, y: -1i32 },
        Vector2Int { x: -1i32, y: -2i32 },
        Vector2Int { x: 2, y: -1i32 },
        Vector2Int { x: 1, y: -2i32 },
    ]
}

/// One step along each axis, and two steps forward.
pub open spec fn turtle_offsets() -> Seq<Vector2Int> {
    seq![
        Vector2Int { x: 0, y: 1 },
        Vector2Int { x: 0, y: -1i32 },
        Vector2Int { x: 1, y: 0 },
        Vector2Int { x: -1i32, y: 0 },
        Vector2Int { x: 0, y: 2 },
    ]
}

/// The eight cells at distance `range` along the axes and the diagonals, row
/// by row from the top.
pub open spec fn ring_offsets(range: int) -> Seq<Vector2Int> {
    seq![
        Vector2Int { x: (-range) as i32, y: range as i32 },
        Vector2Int { x: 0, y: range as i32 },
        Vector2Int { x: range as i32, y: range as i32 },
        Vector2Int { x: (-range) as i32, y: 0 },
        Vector2Int { x: range as i32, y: 0 },
        Vector2Int { x: (-range) as i32, y: (-range) as i32 },
        Vector2Int { x: 0, y: (-range) as i32 },
        Vector2Int { x: range as i32, y: (-range) as i32 },
    ]
}

/// The steps along the axes, up to `range` of them at a time.
pub fn get_ortho_pattern(range: u8) -> (pattern: Vec<Vector2Int>)
    ensures
        pattern@ == spec_ranged_positions(ortho_directions(), range as int),
{
    let directions = ortho_direction_list();
    ranged_positions(&directions, range)
}

/// The steps along the diagonals, up to `range` of them at a time.
pub fn get_diagonal_pattern(range: u8) -> (pattern: Vec<Vector2Int>)
    ensures
        pattern@ == spec_ranged_positions(diagonal_directions(), range as int),
{
    let directions = diagonal_direction_list();
    ranged_positions(&directions, range)
}

/// The steps along the diagonals and the axes, up to `range` of them at a
/// time.
pub fn get_omni_pattern(range: u8) -> (pattern: Vec<Vector2Int>)
    ensures
        pattern@ == spec_ranged_positions(
            diagonal_directions() + ortho_directions(),
            range as int,
        ),
{
    let mut directions = diagonal_direction_list();
    let mut along_axes = ortho_direction_list();
    directions.append(&mut along_axes);
    ranged_positions(&directions, range)
}

/// The knight's pattern: the eight moves of a chess knight.
pub fn get_knight_pattern() -> (pattern: Vec<Vector2Int>)
    ensures
        pattern@ == knight_offsets(),
{
    let mut pattern: Vec<Vector2Int> = Vec::new();
    pattern.push(Vector2Int::new(2, 1));
    pattern.push(Vector2Int::new(1, 2));
    pattern.push(Vector2Int::new(-2, 1));
    pattern.push(Vector2Int::new(-1, 2));
    pattern.push(Vector2Int::new(-2, -1));
    pattern.push(Vector2Int::new(-1, -2));
    pattern.push(Vector2Int::new(2, -1));
    pattern.push(Vector2Int::new(1, -2));
    pattern
}

/// The turtle's pattern: one step along each axis, and two steps forward.
pub fn get_turtle_pattern() -> (pattern: Vec<Vector2Int>)
    ensures
        pattern@ == turtle_offsets(),
{
    let mut pattern: Vec<Vector2Int> = Vec::new();
    pattern.push(Vector2Int::new(0, 1));
    pattern.push(Vector2Int::new(0, -1));
    pattern.push(Vector2Int::new(1, 0));
    pattern.push(Vector2Int::new(-1, 0));
    pattern.push(Vector2Int::new(0, 2));
    pattern
}

/// The frog's pattern: one step along each diagonal.
pub fn get_frog_pattern() -> (pattern: Vec<Vector2Int>)
    ensures
        pattern@ == spec_ranged_positions(diagonal_directions(), 1),
{
    get_diagonal_pattern(1)
}

/// The player's own pattern: one step along each diagonal and each axis.
pub fn get_player_pattern() -> (pattern: Vec<Vector2Int>)
    ensures
        pattern@ == spec_ranged_positions(diagonal_directions() + ortho_directions(), 1),
{
    get_omni_pattern(1)
}

/// The eight cells at distance `range` along the axes and the diagonals.
pub fn get_ring_pattern(range: i32) -> (pattern: Vec<Vector2Int>)
    requires
        range > i32::MIN,
    ensures
        pattern@ == ring_offsets(range as int),
{
    let mut pattern: Vec<Vector2Int> = Vec::new();
    pattern.push(Vector2Int::new(-range, range));
    pattern.push(Vector2Int::new(0, range));
    pattern.push(Vector2Int::new(range, range));
    pattern.push(Vector2Int::new(-range, 0));
    pattern.push(Vector2Int::new(range, 0));
    pattern.push(Vector2Int::new(-range, -range));
    pattern.push(Vector2Int::new(0, -range));
    pattern.push(Vector2Int::new(range, -range));
    pattern
}

fn ranged_positions(directions: &Vec<Vector2Int>, range: u8) -> (positions: Vec<Vector2Int>)
    requires
        forall|j: int|
            0 <= j < directions@.len() ==> -1 <= (#[trigger] directions@[j]).x <= 1 && -1
                <= directions@[j].y <= 1,
    ensures
        positions@ == spec_ranged_positions(directions@, range as int),
{
    let mut positions: Vec<Vector2Int> = Vec::new();
    let count: usize = directions.len();
    let mut idx: u8 = 0;
    while idx < range
        invariant
            0 <= idx <= range,
            count == directions@.len(),
            positions@.len() == idx * count,
            forall|j: int|
                0 <= j < directions@.len() ==> -1 <= (#[trigger] directions@[j]).x <= 1 && -1
                    <= directions@[j].y <= 1,
            forall|k: int|
                0 <= k < positions@.len() ==> positions@[k] == #[trigger] spec_ranged_positions(
                    directions@,
                    range as int,
                )[k],
        decreases range - idx,
    {
        let mut j: usize = 0;
        while j < count
            invariant
                0 <= j <= count,
                0 <= idx < range,
                count == directions@.len(),
                positions@.len() == idx * count + j,
                forall|j: int|
                    0 <= j < directions@.len() ==> -1 <= (#[trigger] directions@[j]).x <= 1 && -1
                        <= directions@[j].y <= 1,
                forall|k: int|
                    0 <= k < positions@.len() ==> positions@[k]
                        == #[trigger] spec_ranged_positions(directions@, range as int)[k],
            decreases count - j,
        {
            let direction = directions[j];
            let factor: i32 = idx as i32 + 1;
            proof {
                let k = idx * count + j;
                vstd::arithmetic::div_mod::lemma_fundamental_div_mod_converse(
                    k,
                    count as int,
                    idx as int,
                    j as int,
                );
                assert(idx * count + j < range * count) by (nonlinear_arith)
                    requires
                        0 <= j < count,
                        0 <= idx < range,
                ;
                assert(-256 <= direction.x * factor <= 256) by (nonlinear_arith)
                    requires
                        -1 <= direction.x <= 1,
                        1 <= factor <= 256,
                ;
                assert(-256 <= direction.y * factor <= 256) by (nonlinear_arith)
                    requires
                        -1 <= direction.y <= 1,
                        1 <= factor <= 256,
                ;
            }
            positions.push(Vector2Int::new(direction.x * factor, direction.y * factor));
            j = j + 1;
        }
        assert(idx * count + count == (idx + 1) * count) by (nonlinear_arith);
        idx = idx + 1;
    }
    positions
}

} // verus!
