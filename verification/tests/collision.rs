use exercises::collision::{CollisionPair, CollisionState};

fn labels(first: &str, second: &str) -> CollisionPair {
    CollisionPair(first.to_string(), second.to_string())
}

#[test]
fn begin_and_end_tell_themselves_apart() {
    assert!(CollisionState::Begin.is_begin());
    assert!(!CollisionState::Begin.is_end());
    assert!(CollisionState::End.is_end());
    assert!(!CollisionState::End.is_begin());
}

#[test]
fn either_contains_looks_into_both_labels() {
    assert!(labels("player1", "obstacle0").either_contains("player1"));
    assert!(labels("obstacle0", "player1").either_contains("player1"));
    assert!(labels("the player1 car", "obstacle0").either_contains("player1"));
    assert!(labels("player1", "player1").either_contains("player1"));
    assert!(!labels("player2", "obstacle0").either_contains("player1"));
    assert!(!labels("", "").either_contains("player1"));
    assert!(labels("", "").either_contains(""));
}

#[test]
fn one_starts_with_wants_exactly_one() {
    assert!(labels("player", "gopher1").one_starts_with("player"));
    assert!(labels("gopher1", "player").one_starts_with("player"));
    assert!(labels("player2", "gopher1").one_starts_with("player"));
    assert!(!labels("player", "player2").one_starts_with("player"));
    assert!(!labels("gopher1", "gopher2").one_starts_with("player"));
    assert!(!labels("the player", "gopher2").one_starts_with("player"));
    assert!(!labels("a", "b").one_starts_with(""));
}
