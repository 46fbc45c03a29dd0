use vstd::prelude::*;

verus! {

/// Side length of the square arena, in world units.
pub const ARENA_SIZE: i32 = 480;

/// Side length of one grid cell: the distance the head moves per tick.
pub const CELL_SIZE: i32 = 16;

/// A position in world units (the top-left corner of a sprite).
#[derive(Clone, Copy, Debug, PartialEq, Eq, Structural)]
pub struct Pos {
    pub x: i32,
    pub y: i32,
}

impl Pos {
    pub open spec fn view(self) -> (int, int) {
        (self.x as int, self.y as int)
    }

    pub fn new(x: i32, y: i32) -> (r: Pos)
        ensures
            r.x == x,
            r.y == y,
    {
        Pos { x, y }
    }
}

/// The way the snake's head faces.
#[derive(Clone, Copy, Debug, PartialEq, Eq, Structural)]
pub enum Direction {
    Up,
    Down,
    Left,
    Right,
}

/// Unit vector of a direction, y pointing up.
pub open spec fn unit(d: Direction) -> (int, int) {
    match d {
        Direction::Up => (0, 1),
        Direction::Down => (0, -1),
        Direction::Left => (-1, 0),
        Direction::Right => (1, 0),
    }
}

/// Where one tick of movement takes a position.
pub open spec fn advanced(p: (int, int), d: Direction) -> (int, int) {
    (p.0 + 16 * unit(d).0, p.1 + 16 * unit(d).1)
}

/// Where `n` ticks of movement, one after another, take a position.
pub open spec fn after_ticks(p: (int, int), d: Direction, n: nat) -> (int, int)
    decreases n,
{
    if n == 0 {
        p
    } else {
        advanced(after_ticks(p, d, (n - 1) as nat), d)
    }
}

/// A coordinate that one more tick in any direction keeps inside `i32`.
pub open spec fn can_step(v: int) -> bool {
    i32::MIN + 16 <= v <= i32::MAX - 16
}

/// The unit vector of a direction.
pub fn get_velo(dir: Direction) -> (r: (i32, i32))
    ensures
        (r.0 as int, r.1 as int) == unit(dir),
{
    match dir {
        Direction::Up => (0, 1),
        Direction::Down => (0, -1),
        Direction::Left => (-1, 0),
        Direction::Right => (1, 0),
    }
}

/// A position one cell further along `dir`.
pub fn step(p: Pos, dir: Direction) -> (r: Pos)
    requires
        can_step(p.x as int),
        can_step(p.y as int),
    ensures
        r@ == advanced(p@, dir),
{
    let v = get_velo(dir);
    Pos { x: p.x + CELL_SIZE * v.0, y: p.y + CELL_SIZE * v.1 }
}

/// Whether the snake's head is still inside the arena: both coordinates
/// within `[0, 480]`.
pub open spec fn in_arena(p: (int, int)) -> bool {
    0 <= p.0 <= ARENA_SIZE && 0 <= p.1 <= ARENA_SIZE
}

/// Head position after `n` ticks facing `d`: the start plus `n` cells along
/// the direction's unit vector.
pub proof fn lemma_head_after_ticks(p: (int, int), d: Direction, n: nat)
    ensures
        after_ticks(p, d, n) == (p.0 + n * 16 * unit(d).0, p.1 + n * 16 * unit(d).1),
    decreases n,
{
    let (a, b) = unit(d);
    if n > 0 {
        let m = (n - 1) as nat;
        lemma_head_after_ticks(p, d, m);
        assert(m * 16 * a + 16 * a == n * 16 * a) by (nonlinear_arith)
            requires
                n == m + 1,
        ;
        assert(m * 16 * b + 16 * b == n * 16 * b) by (nonlinear_arith)
            requires
                n == m + 1,
        ;
    } else {
        assert(n * 16 * a == 0 && n * 16 * b == 0) by (nonlinear_arith)
            requires
                n == 0,
        ;
    }
}

} // verus!
