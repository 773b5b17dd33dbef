use exercises::collision::{CollisionEvent, CollisionPair, CollisionState};
use exercises::tutorial::{
    count_catches, counts_as_catch, game_logic, gopher_name, high_score_text, score_text, Command,
    Direction, Frame, GameState, Keys, MOVEMENT_SPEED, SPAWN_SECONDS,
};

fn no_keys() -> Keys {
    Keys {
        q_just_pressed: false,
        r_just_pressed: false,
        up: false,
        w: false,
        down: false,
        s: false,
        right: false,
        d: false,
        left: false,
        a: false,
    }
}

fn quiet_frame() -> Frame {
    Frame {
        keys: no_keys(),
        collisions: vec![],
        left_just_pressed: false,
        mouse_in_window: false,
        spawn_due: false,
    }
}

fn collision(state: CollisionState, first: &str, second: &str) -> CollisionEvent {
    CollisionEvent { state, pair: CollisionPair(first.to_string(), second.to_string()) }
}

#[test]
fn the_game_starts_at_zero() {
    assert_eq!(GameState::default(), GameState { high_score: 0, score: 0, gopher_index: 0 });
    assert_eq!(SPAWN_SECONDS, 2);
    assert_eq!(MOVEMENT_SPEED, 100);
}

#[test]
fn a_quiet_frame_changes_nothing() {
    let mut state = GameState { high_score: 4, score: 2, gopher_index: 9 };
    let commands = game_logic(&mut state, &quiet_frame());
    assert_eq!(commands, vec![]);
    assert_eq!(state, GameState { high_score: 4, score: 2, gopher_index: 9 });
}

#[test]
fn q_leaves_the_game() {
    let mut state = GameState::default();
    let mut frame = quiet_frame();
    frame.keys.q_just_pressed = true;
    assert_eq!(game_logic(&mut state, &frame), vec![Command::Exit]);
    assert_eq!(state, GameState::default());
}

#[test]
fn a_catch_scores_and_removes_the_gopher() {
    let mut state = GameState::default();
    let mut frame = quiet_frame();
    frame.collisions = vec![collision(CollisionState::Begin, "gopher3", "player")];
    let commands = game_logic(&mut state, &frame);
    assert_eq!(
        commands,
        vec![
            Command::RemoveSprite("gopher3".to_string()),
            Command::ShowScore("Score: 1".to_string()),
            Command::ShowHighScore("High Score: 1".to_string()),
            Command::PlayCatch,
        ]
    );
    assert_eq!(state, GameState { high_score: 1, score: 1, gopher_index: 0 });
}

#[test]
fn the_order_of_the_labels_does_not_matter() {
    let mut state = GameState::default();
    let mut frame = quiet_frame();
    frame.collisions = vec![collision(CollisionState::Begin, "player", "gopher3")];
    let commands = game_logic(&mut state, &frame);
    assert_eq!(commands[0], Command::RemoveSprite("gopher3".to_string()));
    assert_eq!(commands.len(), 4);
}

#[test]
fn a_label_that_only_begins_with_player_is_removed_too() {
    let mut state = GameState { high_score: 5, score: 0, gopher_index: 0 };
    let mut frame = quiet_frame();
    frame.collisions = vec![collision(CollisionState::Begin, "player2", "gopher3")];
    let commands = game_logic(&mut state, &frame);
    assert_eq!(
        commands,
        vec![
            Command::RemoveSprite("player2".to_string()),
            Command::RemoveSprite("gopher3".to_string()),
            Command::ShowScore("Score: 1".to_string()),
            Command::PlayCatch,
        ]
    );
    assert_eq!(state, GameState { high_score: 5, score: 1, gopher_index: 0 });
}

#[test]
fn what_counts_as_a_catch() {
    assert!(counts_as_catch(&collision(CollisionState::Begin, "player", "gopher0")));
    assert!(counts_as_catch(&collision(CollisionState::Begin, "gopher0", "player")));
    assert!(!counts_as_catch(&collision(CollisionState::End, "player", "gopher0")));
    assert!(!counts_as_catch(&collision(CollisionState::Begin, "gopher1", "gopher0")));
    assert!(!counts_as_catch(&collision(CollisionState::Begin, "player", "player2")));
}

#[test]
fn catches_are_counted() {
    let events = vec![
        collision(CollisionState::Begin, "player", "gopher0"),
        collision(CollisionState::End, "player", "gopher0"),
        collision(CollisionState::Begin, "gopher1", "gopher2"),
        collision(CollisionState::Begin, "gopher1", "player"),
    ];
    assert_eq!(count_catches(&events), 2);
    assert_eq!(count_catches(&vec![]), 0);
}

#[test]
fn the_high_score_follows_the_score_only_upward() {
    let mut state = GameState { high_score: 2, score: 0, gopher_index: 0 };
    let mut frame = quiet_frame();
    frame.collisions = vec![
        collision(CollisionState::Begin, "player", "gopher0"),
        collision(CollisionState::End, "player", "gopher9"),
        collision(CollisionState::Begin, "player", "gopher1"),
        collision(CollisionState::Begin, "gopher2", "player"),
    ];
    let commands = game_logic(&mut state, &frame);
    assert_eq!(
        commands,
        vec![
            Command::RemoveSprite("gopher0".to_string()),
            Command::ShowScore("Score: 1".to_string()),
            Command::PlayCatch,
            Command::RemoveSprite("gopher1".to_string()),
            Command::ShowScore("Score: 2".to_string()),
            Command::PlayCatch,
            Command::RemoveSprite("gopher2".to_string()),
            Command::ShowScore("Score: 3".to_string()),
            Command::ShowHighScore("High Score: 3".to_string()),
            Command::PlayCatch,
        ]
    );
    assert_eq!(state, GameState { high_score: 3, score: 3, gopher_index: 0 });
}

#[test]
fn a_high_score_below_the_score_stays_until_a_catch() {
    let mut state = GameState { high_score: 1, score: 5, gopher_index: 0 };
    game_logic(&mut state, &quiet_frame());
    assert_eq!(state, GameState { high_score: 1, score: 5, gopher_index: 0 });
    let mut frame = quiet_frame();
    frame.collisions = vec![collision(CollisionState::Begin, "player", "gopher0")];
    game_logic(&mut state, &frame);
    assert_eq!(state, GameState { high_score: 6, score: 6, gopher_index: 0 });
}

#[test]
fn keys_move_the_player() {
    let mut state = GameState::default();
    let mut frame = quiet_frame();
    frame.keys.w = true;
    frame.keys.left = true;
    assert_eq!(
        game_logic(&mut state, &frame),
        vec![Command::MovePlayer(Direction::Up), Command::MovePlayer(Direction::Left)]
    );
    let mut frame = quiet_frame();
    frame.keys.up = true;
    frame.keys.w = true;
    frame.keys.s = true;
    frame.keys.d = true;
    frame.keys.a = true;
    assert_eq!(
        game_logic(&mut state, &frame),
        vec![
            Command::MovePlayer(Direction::Up),
            Command::MovePlayer(Direction::Down),
            Command::MovePlayer(Direction::Right),
            Command::MovePlayer(Direction::Left),
        ]
    );
    assert_eq!(state, GameState::default());
}

#[test]
fn a_click_inside_the_window_puts_a_gopher_there() {
    let mut state = GameState { high_score: 0, score: 0, gopher_index: 7 };
    let mut frame = quiet_frame();
    frame.left_just_pressed = true;
    frame.mouse_in_window = true;
    assert_eq!(game_logic(&mut state, &frame), vec![Command::SpawnAtMouse("gopher7".to_string())]);
    assert_eq!(state.gopher_index, 8);
}

#[test]
fn a_click_outside_the_window_does_nothing() {
    let mut state = GameState { high_score: 0, score: 0, gopher_index: 7 };
    let mut frame = quiet_frame();
    frame.left_just_pressed = true;
    assert_eq!(game_logic(&mut state, &frame), vec![]);
    let mut frame = quiet_frame();
    frame.mouse_in_window = true;
    assert_eq!(game_logic(&mut state, &frame), vec![]);
    assert_eq!(state.gopher_index, 7);
}

#[test]
fn the_timer_puts_a_gopher_somewhere() {
    let mut state = GameState::default();
    let mut frame = quiet_frame();
    frame.spawn_due = true;
    assert_eq!(game_logic(&mut state, &frame), vec![Command::SpawnAtRandom("gopher0".to_string())]);
    assert_eq!(state.gopher_index, 1);
}

#[test]
fn a_click_and_the_timer_number_their_gophers_in_turn() {
    let mut state = GameState { high_score: 0, score: 0, gopher_index: 9 };
    let mut frame = quiet_frame();
    frame.left_just_pressed = true;
    frame.mouse_in_window = true;
    frame.spawn_due = true;
    assert_eq!(
        game_logic(&mut state, &frame),
        vec![
            Command::SpawnAtMouse("gopher9".to_string()),
            Command::SpawnAtRandom("gopher10".to_string()),
        ]
    );
    assert_eq!(state.gopher_index, 11);
}

#[test]
fn r_sets_the_score_back_and_keeps_the_high_score() {
    let mut state = GameState { high_score: 4, score: 3, gopher_index: 2 };
    let mut frame = quiet_frame();
    frame.keys.r_just_pressed = true;
    assert_eq!(game_logic(&mut state, &frame), vec![Command::ShowScore("Score: 0".to_string())]);
    assert_eq!(state, GameState { high_score: 4, score: 0, gopher_index: 2 });
}

#[test]
fn a_catch_in_the_frame_of_a_reset_still_counts_for_the_high_score() {
    let mut state = GameState { high_score: 3, score: 3, gopher_index: 0 };
    let mut frame = quiet_frame();
    frame.keys.r_just_pressed = true;
    frame.collisions = vec![collision(CollisionState::Begin, "player", "gopher0")];
    let commands = game_logic(&mut state, &frame);
    assert_eq!(
        commands,
        vec![
            Command::RemoveSprite("gopher0".to_string()),
            Command::ShowScore("Score: 4".to_string()),
            Command::ShowHighScore("High Score: 4".to_string()),
            Command::PlayCatch,
            Command::ShowScore("Score: 0".to_string()),
        ]
    );
    assert_eq!(state, GameState { high_score: 4, score: 0, gopher_index: 0 });
}

#[test]
fn everything_at_once_comes_in_order() {
    let mut state = GameState { high_score: 0, score: 0, gopher_index: 1 };
    let frame = Frame {
        keys: Keys {
            q_just_pressed: true,
            r_just_pressed: true,
            up: true,
            w: false,
            down: false,
            s: false,
            right: true,
            d: false,
            left: false,
            a: false,
        },
        collisions: vec![collision(CollisionState::Begin, "gopher0", "player")],
        left_just_pressed: true,
        mouse_in_window: true,
        spawn_due: true,
    };
    assert_eq!(
        game_logic(&mut state, &frame),
        vec![
            Command::Exit,
            Command::RemoveSprite("gopher0".to_string()),
            Command::ShowScore("Score: 1".to_string()),
            Command::ShowHighScore("High Score: 1".to_string()),
            Command::PlayCatch,
            Command::MovePlayer(Direction::Up),
            Command::MovePlayer(Direction::Right),
            Command::SpawnAtMouse("gopher1".to_string()),
            Command::SpawnAtRandom("gopher2".to_string()),
            Command::ShowScore("Score: 0".to_string()),
        ]
    );
    assert_eq!(state, GameState { high_score: 1, score: 0, gopher_index: 3 });
}

#[test]
fn the_lines_and_labels() {
    assert_eq!(score_text(0), "Score: 0");
    assert_eq!(score_text(4294967295), "Score: 4294967295");
    assert_eq!(high_score_text(12), "High Score: 12");
    assert_eq!(gopher_name(0), "gopher0");
    assert_eq!(gopher_name(2147483647), "gopher2147483647");
    assert_eq!(gopher_name(-3), "gopher-3");
}

#[test]
fn the_last_score_that_fits() {
    let mut state = GameState { high_score: 0, score: u32::MAX - 1, gopher_index: i32::MAX - 1 };
    let mut frame = quiet_frame();
    frame.collisions = vec![collision(CollisionState::Begin, "player", "gopher0")];
    frame.spawn_due = true;
    let commands = game_logic(&mut state, &frame);
    assert_eq!(commands[1], Command::ShowScore("Score: 4294967295".to_string()));
    assert_eq!(commands[4], Command::SpawnAtRandom("gopher2147483646".to_string()));
    assert_eq!(state, GameState { high_score: u32::MAX, score: u32::MAX, gopher_index: i32::MAX });
}
