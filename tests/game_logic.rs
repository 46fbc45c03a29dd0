use snake_game::death_screen::{button_update, ButtonAction};
use snake_game::food::{eat_food, eat_food_at, food_pos_from_cells, new_food_pos, spawn as spawn_food, Food};
use snake_game::grid::{get_velo, step, Direction, Pos};
use snake_game::highscore::{highscore_event, highscore_text, HighScoreEvent, PlayerData};
use snake_game::menu::{button_update as menu_button_update, MenuButtonAction};
use snake_game::snake::{
    add_to_snake, input, kill_snake, kill_update, setup, spawn, update, AddToSnakeBody, Keys, Snake,
    SnakeHead,
};
use snake_game::state::{AppState, GameState, Interaction};

fn snake_at(x: i32, y: i32, dir: Direction, body: Vec<Pos>) -> Snake {
    Snake { head: SnakeHead { direction: dir, score: 0 }, head_pos: Pos::new(x, y), body }
}

fn no_keys() -> Keys {
    Keys { up: false, w: false, down: false, s: false, left: false, a: false, right: false, d: false }
}

#[test]
fn velocity_of_each_direction() {
    assert_eq!(get_velo(Direction::Up), (0, 1));
    assert_eq!(get_velo(Direction::Down), (0, -1));
    assert_eq!(get_velo(Direction::Left), (-1, 0));
    assert_eq!(get_velo(Direction::Right), (1, 0));
    assert_eq!(step(Pos::new(240, 240), Direction::Up), Pos::new(240, 256));
}

#[test]
fn head_after_n_ticks_each_direction() {
    let cases = [
        (Direction::Up, 0, 1),
        (Direction::Down, 0, -1),
        (Direction::Left, -1, 0),
        (Direction::Right, 1, 0),
    ];
    for (dir, dx, dy) in cases {
        let mut s = snake_at(240, 240, dir, Vec::new());
        let n: i32 = 7;
        for _ in 0..n {
            update(AppState::Game, &mut s);
        }
        assert_eq!(s.head_pos, Pos::new(240 + n * 16 * dx, 240 + n * 16 * dy));
    }
}

#[test]
fn body_follows_the_head() {
    let body = vec![Pos::new(256, 240), Pos::new(272, 240), Pos::new(2500, 2500)];
    let mut s = snake_at(240, 240, Direction::Left, body);
    update(AppState::Game, &mut s);
    assert_eq!(s.head_pos, Pos::new(224, 240));
    assert_eq!(s.body, vec![Pos::new(240, 240), Pos::new(256, 240), Pos::new(272, 240)]);
}

#[test]
fn nothing_moves_in_the_menu() {
    let mut s = snake_at(240, 240, Direction::Up, vec![Pos::new(240, 224)]);
    update(AppState::Menu, &mut s);
    assert_eq!(s.head_pos, Pos::new(240, 240));
    assert_eq!(s.body, vec![Pos::new(240, 224)]);
}

#[test]
fn spawn_and_grow() {
    assert_eq!(setup(), GameState::InGame);
    let mut s = spawn();
    assert_eq!(s.head_pos, Pos::new(240, 240));
    assert_eq!(s.head.direction, Direction::Left);
    assert_eq!(s.head.score, 0);
    assert_eq!(s.body, vec![Pos::new(2500, 2500)]);
    add_to_snake(&vec![AddToSnakeBody, AddToSnakeBody], &mut s);
    assert_eq!(s.body, vec![Pos::new(2500, 2500), Pos::new(2500, 2500), Pos::new(2500, 2500)]);
    update(AppState::Game, &mut s);
    assert_eq!(s.body, vec![Pos::new(240, 240), Pos::new(2500, 2500), Pos::new(2500, 2500)]);
}

#[test]
fn input_priority() {
    let mut h = SnakeHead { direction: Direction::Left, score: 4 };
    input(no_keys(), &mut h);
    assert_eq!(h.direction, Direction::Left);
    input(Keys { w: true, d: true, ..no_keys() }, &mut h);
    assert_eq!(h.direction, Direction::Up);
    input(Keys { s: true, left: true, ..no_keys() }, &mut h);
    assert_eq!(h.direction, Direction::Down);
    input(Keys { a: true, right: true, ..no_keys() }, &mut h);
    assert_eq!(h.direction, Direction::Left);
    input(Keys { d: true, ..no_keys() }, &mut h);
    assert_eq!(h.direction, Direction::Right);
    assert_eq!(h.score, 4);
}

#[test]
fn kill_on_bounds() {
    let body = vec![Pos::new(2500, 2500)];
    for (x, y) in [(240, 480), (240, 0), (0, 240), (480, 240), (0, 0), (480, 480), (16, 16)] {
        assert!(kill_update(&snake_at(x, y, Direction::Up, body.clone())).is_none(), "({x}, {y})");
    }
    for (x, y) in [(240, 496), (240, -16), (-16, 240), (496, 240)] {
        assert!(kill_update(&snake_at(x, y, Direction::Up, body.clone())).is_some(), "({x}, {y})");
    }
}

#[test]
fn kill_on_self_bite_and_not_without_body() {
    let body = vec![Pos::new(256, 240), Pos::new(240, 240)];
    assert!(kill_update(&snake_at(240, 240, Direction::Up, body)).is_some());
    assert!(kill_update(&snake_at(-16, 240, Direction::Up, Vec::new())).is_none());
}

#[test]
fn kill_snake_ends_the_round() {
    let mut s = snake_at(240, 240, Direction::Up, vec![Pos::new(240, 224)]);
    s.head.score = 6;
    let mut alive = Some(s);
    let mut gs = GameState::InGame;
    assert_eq!(kill_snake(&mut alive, &mut gs), Some(HighScoreEvent(6)));
    assert!(alive.is_none());
    assert_eq!(gs, GameState::Dead);

    let mut bodiless = Some(snake_at(240, 240, Direction::Up, Vec::new()));
    let mut gs2 = GameState::InGame;
    assert_eq!(kill_snake(&mut bodiless, &mut gs2), None);
    assert!(bodiless.is_some());
    assert_eq!(gs2, GameState::InGame);
}

#[test]
fn eating_moves_food_and_scores() {
    let mut s = snake_at(240, 240, Direction::Up, vec![Pos::new(240, 224)]);
    let mut f = Food { pos: Pos::new(240, 240) };
    assert_eq!(eat_food_at(&mut f, &mut s, Pos::new(32, 48)), Some(AddToSnakeBody));
    assert_eq!(f.pos, Pos::new(32, 48));
    assert_eq!(s.head.score, 1);
    assert_eq!(eat_food_at(&mut f, &mut s, Pos::new(64, 64)), None);
    assert_eq!(f.pos, Pos::new(32, 48));
    assert_eq!(s.head.score, 1);
}

#[test]
fn score_rises_by_one_per_meal() {
    let mut s = snake_at(240, 240, Direction::Up, vec![Pos::new(240, 224)]);
    for expected in 1..=5 {
        let mut f = Food { pos: s.head_pos };
        assert!(eat_food(&mut f, &mut s).is_some());
        assert_eq!(s.head.score, expected);
    }
    let mut away = Food { pos: Pos::new(16, 16) };
    assert!(eat_food(&mut away, &mut s).is_none());
    assert_eq!(s.head.score, 5);
}

fn on_food_grid(p: Pos) -> bool {
    p.x % 16 == 0 && p.y % 16 == 0 && (16..=464).contains(&p.x) && (16..=464).contains(&p.y)
}

#[test]
fn food_lands_on_the_grid() {
    assert_eq!(food_pos_from_cells(1, 29), Pos::new(16, 464));
    assert_eq!(food_pos_from_cells(3, 7), Pos::new(48, 112));
    for _ in 0..2000 {
        assert!(on_food_grid(new_food_pos()));
    }
    assert!(on_food_grid(spawn_food().pos));
}

#[test]
fn food_relocates_on_the_grid_when_eaten() {
    for _ in 0..200 {
        let mut s = snake_at(240, 240, Direction::Up, vec![Pos::new(240, 224)]);
        let mut f = Food { pos: Pos::new(240, 240) };
        assert!(eat_food(&mut f, &mut s).is_some());
        assert!(on_food_grid(f.pos));
    }
}

#[test]
fn highscore_only_rises() {
    let mut pd = PlayerData { highscore: 3 };
    assert_eq!(highscore_event(&vec![HighScoreEvent(3)], &mut pd), None);
    assert_eq!(pd.highscore, 3);
    assert_eq!(highscore_event(&vec![HighScoreEvent(1)], &mut pd), None);
    assert_eq!(pd.highscore, 3);
    assert_eq!(highscore_event(&vec![HighScoreEvent(8)], &mut pd), Some("HIGHSCORE: 8".to_string()));
    assert_eq!(pd.highscore, 8);
    assert_eq!(highscore_event(&Vec::new(), &mut pd), None);
}

#[test]
fn highscore_batch_keeps_the_maximum() {
    let mut pd = PlayerData { highscore: 3 };
    let evs = vec![HighScoreEvent(5), HighScoreEvent(2), HighScoreEvent(9)];
    assert_eq!(highscore_event(&evs, &mut pd), Some("HIGHSCORE: 9".to_string()));
    assert_eq!(pd.highscore, 9);
    let lower = vec![HighScoreEvent(1), HighScoreEvent(9), HighScoreEvent(4)];
    assert_eq!(highscore_event(&lower, &mut pd), None);
    assert_eq!(pd.highscore, 9);
}

#[test]
fn highscore_labels() {
    assert_eq!(highscore_text(&PlayerData { highscore: 0 }), "HIGHSCORE: 0");
    assert_eq!(highscore_text(&PlayerData { highscore: 1234 }), "HIGHSCORE: 1234");
    assert_eq!(highscore_text(&PlayerData { highscore: -7 }), "HIGHSCORE: -7");
}

#[test]
fn death_screen_buttons() {
    let mut gs = GameState::Dead;
    let mut app = AppState::Game;
    button_update(&vec![(Interaction::Hovered, ButtonAction::Replay)], &mut gs, &mut app);
    assert_eq!((gs, app), (GameState::Dead, AppState::Game));
    button_update(&vec![(Interaction::Clicked, ButtonAction::Replay)], &mut gs, &mut app);
    assert_eq!((gs, app), (GameState::InGame, AppState::Game));
    let mut gs2 = GameState::Dead;
    button_update(
        &vec![(Interaction::Untouched, ButtonAction::Replay), (Interaction::Clicked, ButtonAction::Menu)],
        &mut gs2,
        &mut app,
    );
    assert_eq!((gs2, app), (GameState::Dead, AppState::Menu));
}

#[test]
fn menu_buttons() {
    let mut app = AppState::Menu;
    assert!(!menu_button_update(&vec![(Interaction::Hovered, MenuButtonAction::Quit)], &mut app));
    assert_eq!(app, AppState::Menu);
    assert!(!menu_button_update(&vec![(Interaction::Clicked, MenuButtonAction::Play)], &mut app));
    assert_eq!(app, AppState::Game);
    let mut app2 = AppState::Menu;
    assert!(menu_button_update(&vec![(Interaction::Clicked, MenuButtonAction::Quit)], &mut app2));
    assert_eq!(app2, AppState::Menu);
}
