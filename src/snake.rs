use vstd::prelude::*;

use crate::grid::{advanced, can_step, in_arena, step, Direction, Pos, ARENA_SIZE};
use crate::highscore::HighScoreEvent;
use crate::state::{AppState, GameState};

verus! {

/// Column where the head appears when a round starts.
pub const SPAWN_X: i32 = 240;

/// Row where the head appears when a round starts.
pub const SPAWN_Y: i32 = 240;

/// Where a new body segment waits until the next tick moves it behind the
/// snake.
pub const OFFSCREEN: i32 = 2500;

/// The head's own state: the way it faces and the score of the round.
#[derive(Clone, Copy, Debug, PartialEq, Eq, Structural)]
pub struct SnakeHead {
    pub direction: Direction,
    pub score: i32,
}

/// A whole snake: its head, where the head stands, and the body segments in
/// order from the neck to the tail.
#[derive(Debug)]
pub struct Snake {
    pub head: SnakeHead,
    pub head_pos: Pos,
    pub body: Vec<Pos>,
}

/// Asks for one more body segment.
#[derive(Clone, Copy, Debug, PartialEq, Eq, Structural)]
pub struct AddToSnakeBody;

/// Tells that the snake has died.
#[derive(Clone, Copy, Debug, PartialEq, Eq, Structural)]
pub struct KillSnake;

/// The keys that steer the snake, pressed or not: the arrows and W, A, S, D.
#[derive(Clone, Copy, Debug, PartialEq, Eq, Structural)]
pub struct Keys {
    pub up: bool,
    pub w: bool,
    pub down: bool,
    pub s: bool,
    pub left: bool,
    pub a: bool,
    pub right: bool,
    pub d: bool,
}

/// The body after a tick: each segment takes the place of the one ahead of
/// it, the first one that of the head.
pub open spec fn shifted(head: Pos, body: Seq<Pos>) -> Seq<Pos> {
    Seq::new(body.len(), |k: int| if k == 0 { head } else { body[k - 1] })
}

/// The direction the keys ask for, up first, then down, left and right;
/// none when no steering key is pressed.
pub open spec fn steered(k: Keys) -> Option<Direction> {
    if k.up || k.w {
        Some(Direction::Up)
    } else if k.down || k.s {
        Some(Direction::Down)
    } else if k.left || k.a {
        Some(Direction::Left)
    } else if k.right || k.d {
        Some(Direction::Right)
    } else {
        None
    }
}

/// Whether the head lies on a body segment.
pub open spec fn bites_itself(head: Pos, body: Seq<Pos>) -> bool {
    exists|k: int| 0 <= k < body.len() && body[k] == head
}

/// Whether a snake dies where it stands: it has a body and its head has
/// left the arena or lies on its body.
pub open spec fn must_die(s: Snake) -> bool {
    s.body@.len() > 0 && (!in_arena(s.head_pos@) || bites_itself(s.head_pos, s.body@))
}

/// The state a new round enters.
pub fn setup() -> (r: GameState)
    ensures
        r == GameState::InGame,
{
    GameState::InGame
}

/// A new snake: head at the middle of the arena facing left, score zero,
/// and the one body segment that a new snake asks for, waiting off the
/// arena as `add_to_snake` places it.
pub fn spawn() -> (r: Snake)
    ensures
        r.head_pos@ == (SPAWN_X as int, SPAWN_Y as int),
        r.head.direction == Direction::Left,
        r.head.score == 0,
        r.body@ == seq![Pos { x: OFFSCREEN, y: OFFSCREEN }],
{
    let mut s = Snake {
        head: SnakeHead { direction: Direction::Left, score: 0 },
        head_pos: Pos { x: SPAWN_X, y: SPAWN_Y },
        body: Vec::new(),
    };
    let first = vec![AddToSnakeBody];
    add_to_snake(&first, &mut s);
    assert(s.body@ =~= seq![Pos { x: OFFSCREEN, y: OFFSCREEN }]);
    s
}

/// One tick of movement: the head moves one cell the way it faces and each
/// body segment takes the place of the one ahead of it. Nothing moves while
/// the menu is shown.
pub fn update(app_state: AppState, snake: &mut Snake)
    requires
        app_state != AppState::Menu ==> can_step(old(snake).head_pos.x as int) && can_step(
            old(snake).head_pos.y as int,
        ),
    ensures
        app_state == AppState::Menu ==> *final(snake) == *old(snake),
        app_state != AppState::Menu ==> {
            &&& final(snake).head_pos@ == advanced(old(snake).head_pos@, old(snake).head.direction)
            &&& final(snake).body@ == shifted(old(snake).head_pos, old(snake).body@)
            &&& final(snake).head == old(snake).head
        },
{
    if let AppState::Menu = app_state {
        return;
    }
    let last_pos = snake.head_pos;
    snake.head_pos = step(last_pos, snake.head.direction);
    let ghost body0 = snake.body@;
    let mut pos = last_pos;
    let n = snake.body.len();
    let mut i: usize = 0;
    while i < n
        invariant
            n == body0.len(),
            snake.head_pos@ == advanced(old(snake).head_pos@, old(snake).head.direction),
            snake.head == old(snake).head,
            body0 == old(snake).body@,
            0 <= i <= n,
            snake.body@.len() == n,
            pos == (if i == 0 { last_pos } else { body0[i - 1] }),
            last_pos == old(snake).head_pos,
            forall|j: int| 0 <= j < i ==> snake.body@[j] == shifted(last_pos, body0)[j],
            forall|j: int| i <= j < n ==> snake.body@[j] == body0[j],
        decreases n - i,
    {
        let old_pos = snake.body[i];
        snake.body.set(i, pos);
        pos = old_pos;
        i = i + 1;
    }
    assert(snake.body@ =~= shifted(last_pos, body0));
}

/// Turns the head the way the pressed keys ask; with no steering key
/// pressed it keeps its direction.
pub fn input(keys: Keys, head: &mut SnakeHead)
    ensures
        final(head).score == old(head).score,
        final(head).direction == match steered(keys) {
            Some(d) => d,
            None => old(head).direction,
        },
{
    if keys.up || keys.w {
        head.direction = Direction::Up;
    } else if keys.down || keys.s {
        head.direction = Direction::Down;
    } else if keys.left || keys.a {
        head.direction = Direction::Left;
    } else if keys.right || keys.d {
        head.direction = Direction::Right;
    }
}

/// Whether the snake dies this frame: the arena's bounds are tested first,
/// then the body. A snake without a body is not tested.
pub fn kill_update(snake: &Snake) -> (r: Option<KillSnake>)
    ensures
        r is Some <==> must_die(*snake),
{
    if snake.body.len() == 0 {
        return None;
    }
    let p = snake.head_pos;
    if p.y > ARENA_SIZE || p.y < 0 {
        return Some(KillSnake);
    }
    if p.x > ARENA_SIZE || p.x < 0 {
        return Some(KillSnake);
    }
    let mut k: usize = 0;
    while k < snake.body.len()
        invariant
            0 <= k <= snake.body@.len(),
            p == snake.head_pos,
            forall|j: int| 0 <= j < k ==> snake.body@[j] != p,
        decreases snake.body@.len() - k,
    {
        let b = snake.body[k];
        if b.x == p.x && b.y == p.y {
            assert(snake.body@[k as int] == snake.head_pos);
            return Some(KillSnake);
        }
        k = k + 1;
    }
    None
}

/// Grows the snake by one segment per request, each placed off the arena
/// until the next tick moves it behind the snake.
pub fn add_to_snake(events: &Vec<AddToSnakeBody>, snake: &mut Snake)
    ensures
        final(snake).head == old(snake).head,
        final(snake).head_pos == old(snake).head_pos,
        final(snake).body@ == old(snake).body@ + Seq::new(
            events@.len(),
            |k: int| Pos { x: OFFSCREEN, y: OFFSCREEN },
        ),
{
    let ghost body0 = snake.body@;
    let mut i: usize = 0;
    while i < events.len()
        invariant
            0 <= i <= events@.len(),
            snake.head == old(snake).head,
            snake.head_pos == old(snake).head_pos,
            body0 == old(snake).body@,
            snake.body@ == body0 + Seq::new(i as nat, |k: int| Pos { x: OFFSCREEN, y: OFFSCREEN }),
        decreases events@.len() - i,
    {
        snake.body.push(Pos { x: OFFSCREEN, y: OFFSCREEN });
        i = i + 1;
        assert(snake.body@ =~= body0 + Seq::new(i as nat, |k: int| Pos { x: OFFSCREEN, y: OFFSCREEN }));
    }
}

/// Whether there is a snake with a body to remove.
pub open spec fn killable(snake: Option<Snake>) -> bool {
    snake matches Some(s) && s.body@.len() > 0
}

/// Ends the round when the snake dies: the game enters `Dead`, the head's
/// score goes out as a highscore candidate and the whole snake is removed.
/// A snake without a body, or no snake, is left as it is.
pub fn kill_snake(snake: &mut Option<Snake>, game_state: &mut GameState) -> (r: Option<
    HighScoreEvent,
>)
    ensures
        killable(*old(snake)) ==> {
            &&& *final(snake) is None
            &&& *final(game_state) == GameState::Dead
            &&& r == Some(HighScoreEvent(old(snake)->Some_0.head.score))
        },
        !killable(*old(snake)) ==> {
            &&& *final(snake) == *old(snake)
            &&& *final(game_state) == *old(game_state)
            &&& r is None
        },
{
    let alive = match snake {
        Some(s) => s.body.len() > 0,
        None => false,
    };
    if !alive {
        return None;
    }
    match snake.take() {
        Some(s) => {
            *game_state = GameState::Dead;
            Some(HighScoreEvent(s.head.score))
        },
        None => None,
    }
}

} // verus!
