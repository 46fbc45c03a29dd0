use vstd::prelude::*;

use rand::Rng;

use crate::grid::{in_arena, Pos, ARENA_SIZE, CELL_SIZE};
use crate::snake::{AddToSnakeBody, Snake};

verus! {

/// Number of cells along an axis where food may appear: `(480 - 16) / 16`.
pub const FOOD_CELLS: i32 = 29;

/// The single piece of food on the arena.
#[derive(Clone, Copy, Debug, PartialEq, Eq, Structural)]
pub struct Food {
    pub pos: Pos,
}

/// A coordinate where food may lie: a multiple of 16 from 16 to 464.
pub open spec fn food_coord(v: int) -> bool {
    CELL_SIZE <= v <= ARENA_SIZE - CELL_SIZE && v % CELL_SIZE as int == 0
}

/// A position where food may lie.
pub open spec fn food_spot(p: (int, int)) -> bool {
    food_coord(p.0) && food_coord(p.1)
}

/// Relies on rand::Rng::gen_range on rand::thread_rng: a value drawn from
/// `lo..=hi`. It panics on an empty range, which `requires` leaves out.
#[verifier::external_body]
fn random_in(lo: i32, hi: i32) -> (r: i32)
    requires
        lo <= hi,
    ensures
        lo <= r <= hi,
{
    rand::thread_rng().gen_range(lo..=hi)
}

/// The position of the grid cell with indices `ix` and `iy`, counted in
/// cells from the origin.
pub fn food_pos_from_cells(ix: i32, iy: i32) -> (r: Pos)
    requires
        1 <= ix <= FOOD_CELLS,
        1 <= iy <= FOOD_CELLS,
    ensures
        r@ == (16 * ix as int, 16 * iy as int),
        food_spot(r@),
{
    Pos { x: CELL_SIZE * ix, y: CELL_SIZE * iy }
}

/// A random position for food: each axis independently a whole cell from
/// 16 to 464. Food may land under the snake.
pub fn new_food_pos() -> (r: Pos)
    ensures
        food_spot(r@),
{
    let ix = random_in(1, FOOD_CELLS);
    let iy = random_in(1, FOOD_CELLS);
    food_pos_from_cells(ix, iy)
}

/// The first piece of food, at a random position.
pub fn spawn() -> (r: Food)
    ensures
        food_spot(r.pos@),
{
    Food { pos: new_food_pos() }
}

/// Feeds the snake when its head stands on the food: the food moves to
/// `new_pos`, the score rises by one and one more body segment is asked
/// for. Otherwise nothing changes.
pub fn eat_food_at(food: &mut Food, snake: &mut Snake, new_pos: Pos) -> (r: Option<AddToSnakeBody>)
    requires
        old(snake).head.score < i32::MAX,
    ensures
        r is Some <==> old(food).pos == old(snake).head_pos,
        r is Some ==> final(food).pos == new_pos && final(snake).head.score == old(snake).head.score + 1,
        r is None ==> *final(food) == *old(food) && final(snake).head.score == old(snake).head.score,
        final(snake).head.direction == old(snake).head.direction,
        final(snake).head_pos == old(snake).head_pos,
        final(snake).body@ == old(snake).body@,
{
    if food.pos.x == snake.head_pos.x && food.pos.y == snake.head_pos.y {
        food.pos = new_pos;
        snake.head.score = snake.head.score + 1;
        Some(AddToSnakeBody)
    } else {
        None
    }
}

/// Feeds the snake when its head stands on the food, moving the food to a
/// random cell drawn by `new_food_pos`, which may lie under the snake; see
/// `eat_food_at`.
pub fn eat_food(food: &mut Food, snake: &mut Snake) -> (r: Option<AddToSnakeBody>)
    requires
        old(snake).head.score < i32::MAX,
    ensures
        r is Some <==> old(food).pos == old(snake).head_pos,
        r is Some ==> food_spot(final(food).pos@) && final(snake).head.score == old(snake).head.score + 1,
        r is None ==> *final(food) == *old(food) && final(snake).head.score == old(snake).head.score,
        final(snake).head.direction == old(snake).head.direction,
        final(snake).head_pos == old(snake).head_pos,
        final(snake).body@ == old(snake).body@,
{
    if food.pos.x == snake.head_pos.x && food.pos.y == snake.head_pos.y {
        let p = new_food_pos();
        eat_food_at(food, snake, p)
    } else {
        None
    }
}

/// Every cell where food may appear lies inside the arena, so eating never
/// leads the head out of bounds.
pub proof fn lemma_food_spot_in_arena(p: (int, int))
    requires
        food_spot(p),
    ensures
        in_arena(p),
{
}

} // verus!
