//! The gopher game: one step of its rules per frame of the engine.
//!
//! The engine owns the window, the sprites, the texts and the sound. Once per frame it
//! reports what happened ([`Frame`]); [`game_logic`] updates the [`GameState`] and answers with
//! the [`Command`]s that the engine has to carry out, in order.

use vstd::prelude::*;
use vstd::string::StringExecFns;
use crate::collision::{CollisionEvent, CollisionPair, CollisionState};
use crate::text::{decimal, push_decimal, push_signed_decimal, same_text, signed_decimal};

verus! {

/// Seconds between two gophers that appear by themselves.
pub const SPAWN_SECONDS: u32 = 2;

/// Pixels per second that the player moves while a direction key is held.
pub const MOVEMENT_SPEED: u32 = 100;

/// What the game remembers from frame to frame.
#[derive(Clone, Copy, Debug, PartialEq, Eq, Structural)]
pub struct GameState {
    pub high_score: u32,
    pub score: u32,
    pub gopher_index: i32,
}

impl Default for GameState {
    fn default() -> (state: Self)
        ensures
            state == (GameState { high_score: 0, score: 0, gopher_index: 0 }),
    {
        GameState { high_score: 0, score: 0, gopher_index: 0 }
    }
}

/// The keys that the game listens to, as the engine reports them for one frame.
#[derive(Clone, Copy, Debug, PartialEq, Eq, Structural)]
pub struct Keys {
    /// `Q` went down in this frame.
    pub q_just_pressed: bool,
    /// `R` went down in this frame.
    pub r_just_pressed: bool,
    pub up: bool,
    pub w: bool,
    pub down: bool,
    pub s: bool,
    pub right: bool,
    pub d: bool,
    pub left: bool,
    pub a: bool,
}

/// What the engine reports for one frame.
#[derive(Clone, Debug)]
pub struct Frame {
    pub keys: Keys,
    /// The collisions of this frame, in the order of the engine.
    pub collisions: Vec<CollisionEvent>,
    /// The left mouse button went down in this frame.
    pub left_just_pressed: bool,
    /// The mouse pointer is inside the window.
    pub mouse_in_window: bool,
    /// The spawn timer ran out in this frame.
    pub spawn_due: bool,
}

/// One of the four ways the player moves.
#[derive(Clone, Copy, Debug, PartialEq, Eq, Structural)]
pub enum Direction {
    Up,
    Down,
    Right,
    Left,
}

/// One thing that the engine has to do after a frame.
#[derive(Clone, Debug, PartialEq, Eq)]
pub enum Command {
    /// Leave the game at the end of this frame.
    Exit,
    /// Take the sprite with this label away.
    RemoveSprite(String),
    /// Show this line as the score.
    ShowScore(String),
    /// Show this line as the high score.
    ShowHighScore(String),
    /// Play the sound of a caught gopher.
    PlayCatch,
    /// Move the player in this direction, by the speed times the length of the frame.
    MovePlayer(Direction),
    /// Put a new gopher with this label where the mouse is.
    SpawnAtMouse(String),
    /// Put a new gopher with this label at a random place.
    SpawnAtRandom(String),
}

/// A [`Command`] with its texts as sequences of characters.
pub enum CommandView {
    Exit,
    RemoveSprite(Seq<char>),
    ShowScore(Seq<char>),
    ShowHighScore(Seq<char>),
    PlayCatch,
    MovePlayer(Direction),
    SpawnAtMouse(Seq<char>),
    SpawnAtRandom(Seq<char>),
}

impl View for Command {
    type V = CommandView;

    open spec fn view(&self) -> CommandView {
        match *self {
            Command::Exit => CommandView::Exit,
            Command::RemoveSprite(label) => CommandView::RemoveSprite(label@),
            Command::ShowScore(line) => CommandView::ShowScore(line@),
            Command::ShowHighScore(line) => CommandView::ShowHighScore(line@),
            Command::PlayCatch => CommandView::PlayCatch,
            Command::MovePlayer(direction) => CommandView::MovePlayer(direction),
            Command::SpawnAtMouse(label) => CommandView::SpawnAtMouse(label@),
            Command::SpawnAtRandom(label) => CommandView::SpawnAtRandom(label@),
        }
    }
}

/// The views of a list of commands, in the same order.
pub open spec fn views(commands: Seq<Command>) -> Seq<CommandView> {
    commands.map_values(|c: Command| c@)
}

/// The line that shows the score `n`.
pub open spec fn score_line(n: nat) -> Seq<char> {
    "Score: "@ + decimal(n)
}

/// The line that shows the high score `n`.
pub open spec fn high_score_line(n: nat) -> Seq<char> {
    "High Score: "@ + decimal(n)
}

/// The label of the gopher with the number `index`.
pub open spec fn gopher_label(index: int) -> Seq<char> {
    "gopher"@ + signed_decimal(index)
}

/// A collision counts as a catch when it begins and exactly one of its two labels begins
/// with `player`.
pub open spec fn is_catch(event: CollisionEvent) -> bool {
    event.state is Begin && event.pair.spec_one_starts_with("player"@)
}

/// The number of catches among `events`.
pub open spec fn catches(events: Seq<CollisionEvent>) -> nat
    decreases events.len(),
{
    if events.len() == 0 {
        0
    } else {
        catches(events.drop_last()) + if is_catch(events.last()) {
            1nat
        } else {
            0nat
        }
    }
}

/// The high score after `caught` catches, from a score and a high score before them: a
/// catch raises the high score to the new score where that is larger, and without a catch
/// it stays.
pub open spec fn high_score_after(score: nat, high_score: nat, caught: nat) -> nat {
    if caught > 0 && score + caught > high_score {
        score + caught
    } else {
        high_score
    }
}

/// The removals that a catch asks for: each label of the pair that is not exactly
/// `player`, the first label first.
pub open spec fn removals(pair: CollisionPair) -> Seq<CommandView> {
    let first = if pair.0@ != "player"@ {
        seq![CommandView::RemoveSprite(pair.0@)]
    } else {
        seq![]
    };
    let second = if pair.1@ != "player"@ {
        seq![CommandView::RemoveSprite(pair.1@)]
    } else {
        seq![]
    };
    first + second
}

/// What one catch asks for, where `score` is the score before it and `high_score` the
/// high score before it: the removals, the new score line, the new high score line where
/// the new score is larger than the high score, and the sound.
pub open spec fn catch_commands(pair: CollisionPair, score: nat, high_score: nat) -> Seq<
    CommandView,
> {
    let shown = seq![CommandView::ShowScore(score_line(score + 1))];
    let beaten = if score + 1 > high_score {
        seq![CommandView::ShowHighScore(high_score_line(score + 1))]
    } else {
        seq![]
    };
    removals(pair) + shown + beaten + seq![CommandView::PlayCatch]
}

/// What the collisions of a frame ask for, event by event, from a score and a high score
/// at the start of the frame. An event that is no catch asks for nothing.
pub open spec fn collision_commands(
    score: nat,
    high_score: nat,
    events: Seq<CollisionEvent>,
) -> Seq<CommandView>
    decreases events.len(),
{
    if events.len() == 0 {
        seq![]
    } else {
        let earlier = events.drop_last();
        let caught = catches(earlier);
        collision_commands(score, high_score, earlier) + if is_catch(events.last()) {
            catch_commands(
                events.last().pair,
                score + caught,
                high_score_after(score, high_score, caught),
            )
        } else {
            seq![]
        }
    }
}

/// The moves that the keys ask for: up for `Up` or `W`, down for `Down` or `S`, right for
/// `Right` or `D`, left for `Left` or `A`, in this order.
pub open spec fn move_commands(keys: Keys) -> Seq<CommandView> {
    let up = if keys.up || keys.w {
        seq![CommandView::MovePlayer(Direction::Up)]
    } else {
        seq![]
    };
    let down = if keys.down || keys.s {
        seq![CommandView::MovePlayer(Direction::Down)]
    } else {
        seq![]
    };
    let right = if keys.right || keys.d {
        seq![CommandView::MovePlayer(Direction::Right)]
    } else {
        seq![]
    };
    let left = if keys.left || keys.a {
        seq![CommandView::MovePlayer(Direction::Left)]
    } else {
        seq![]
    };
    up + down + right + left
}

/// A click puts a gopher where the mouse is: the left button went down and the pointer is
/// inside the window.
pub open spec fn clicked(frame: Frame) -> bool {
    frame.left_just_pressed && frame.mouse_in_window
}

/// The number of gophers that a frame adds: one for a click, one for the timer.
pub open spec fn spawns(frame: Frame) -> nat {
    (if clicked(frame) {
        1nat
    } else {
        0nat
    }) + (if frame.spawn_due {
        1nat
    } else {
        0nat
    })
}

/// The new gophers of a frame, from the number of the next gopher: first the one of a
/// click, then the one of the timer, numbered in this order.
pub open spec fn spawn_commands(gopher_index: int, frame: Frame) -> Seq<CommandView> {
    let at_mouse = if clicked(frame) {
        seq![CommandView::SpawnAtMouse(gopher_label(gopher_index))]
    } else {
        seq![]
    };
    let next = if clicked(frame) {
        gopher_index + 1
    } else {
        gopher_index
    };
    let at_random = if frame.spawn_due {
        seq![CommandView::SpawnAtRandom(gopher_label(next))]
    } else {
        seq![]
    };
    at_mouse + at_random
}

/// Everything that a frame asks of the engine, in order: leaving on `Q`, the catches, the
/// moves, the new gophers, and on `R` the score line of zero.
pub open spec fn frame_commands(state: GameState, frame: Frame) -> Seq<CommandView> {
    let exit = if frame.keys.q_just_pressed {
        seq![CommandView::Exit]
    } else {
        seq![]
    };
    let reset = if frame.keys.r_just_pressed {
        seq![CommandView::ShowScore(score_line(0))]
    } else {
        seq![]
    };
    exit + collision_commands(state.score as nat, state.high_score as nat, frame.collisions@)
        + move_commands(frame.keys) + spawn_commands(state.gopher_index as int, frame) + reset
}

/// The state after a frame: every catch adds one to the score, the high score follows
/// the score upward, `R` sets the score back to zero after the catches were counted, and
/// every new gopher takes one number.
pub open spec fn next_state(state: GameState, frame: Frame) -> GameState
    recommends
        state.score + catches(frame.collisions@) <= u32::MAX,
        state.gopher_index + spawns(frame) <= i32::MAX,
{
    let caught = catches(frame.collisions@);
    GameState {
        high_score: high_score_after(state.score as nat, state.high_score as nat, caught) as u32,
        score: if frame.keys.r_just_pressed {
            0
        } else {
            (state.score + caught) as u32
        },
        gopher_index: (state.gopher_index + spawns(frame)) as i32,
    }
}

/// The catches of a part of the events are no more than those of all of them.
pub proof fn lemma_catches_of_prefix(events: Seq<CollisionEvent>, n: int)
    requires
        0 <= n <= events.len(),
    ensures
        catches(events.take(n)) <= catches(events),
    decreases events.len(),
{
    if n == events.len() {
        assert(events.take(n) =~= events);
    } else {
        assert(events.drop_last().take(n) =~= events.take(n));
        lemma_catches_of_prefix(events.drop_last(), n);
    }
}

/// A frame never lowers the high score, and a high score that was no lower than the score
/// is no lower than the score after the frame.
pub proof fn high_score_keeps_up(state: GameState, frame: Frame)
    requires
        state.score + catches(frame.collisions@) <= u32::MAX,
        state.gopher_index + spawns(frame) <= i32::MAX,
    ensures
        next_state(state, frame).high_score >= state.high_score,
        state.high_score >= state.score ==> next_state(state, frame).high_score >= next_state(
            state,
            frame,
        ).score,
{
}

/// Whether a collision counts as a catch.
pub fn counts_as_catch(event: &CollisionEvent) -> (catch: bool)
    ensures
        catch == is_catch(*event),
{
    event.state.is_begin() && event.pair.one_starts_with("player")
}

/// The number of catches among the collisions of a frame.
pub fn count_catches(events: &Vec<CollisionEvent>) -> (caught: usize)
    ensures
        caught == catches(events@),
{
    let mut caught: usize = 0;
    let mut i: usize = 0;
    while i < events.len()
        invariant
            i <= events.len(),
            caught <= i,
            caught == catches(events@.take(i as int)),
        decreases events.len() - i,
    {
        assert(events@.take(i + 1).drop_last() =~= events@.take(i as int));
        if counts_as_catch(&events[i]) {
            caught += 1;
        }
        i += 1;
    }
    assert(events@.take(events@.len() as int) =~= events@);
    caught
}

/// The line that shows the score `n`.
pub fn score_text(n: u32) -> (line: String)
    ensures
        line@ == score_line(n as nat),
{
    let mut line = String::from_str("Score: ");
    push_decimal(&mut line, n as u64);
    line
}

/// The line that shows the high score `n`.
pub fn high_score_text(n: u32) -> (line: String)
    ensures
        line@ == high_score_line(n as nat),
{
    let mut line = String::from_str("High Score: ");
    push_decimal(&mut line, n as u64);
    line
}

/// The label of the gopher with the number `index`.
pub fn gopher_name(index: i32) -> (label: String)
    ensures
        label@ == gopher_label(index as int),
{
    let mut label = String::from_str("gopher");
    push_signed_decimal(&mut label, index as i64);
    label
}

/// Adds to `commands` what one catch asks for and counts it in `state`.
fn catch(state: &mut GameState, pair: &CollisionPair, commands: &mut Vec<Command>)
    requires
        old(state).score < u32::MAX,
    ensures
        final(state).score == old(state).score + 1,
        final(state).high_score == high_score_after(
            old(state).score as nat,
            old(state).high_score as nat,
            1,
        ),
        final(state).gopher_index == old(state).gopher_index,
        views(final(commands)@) == views(old(commands)@) + catch_commands(
            *pair,
            old(state).score as nat,
            old(state).high_score as nat,
        ),
{
    let ghost before = views(commands@);
    if !same_text(pair.0.as_str(), "player") {
        commands.push(Command::RemoveSprite(pair.0.clone()));
    }
    if !same_text(pair.1.as_str(), "player") {
        commands.push(Command::RemoveSprite(pair.1.clone()));
    }
    assert(views(commands@) =~= before + removals(*pair));
    state.score += 1;
    commands.push(Command::ShowScore(score_text(state.score)));
    if state.score > state.high_score {
        state.high_score = state.score;
        commands.push(Command::ShowHighScore(high_score_text(state.high_score)));
    }
    commands.push(Command::PlayCatch);
    assert(views(commands@) =~= before + catch_commands(
        *pair,
        old(state).score as nat,
        old(state).high_score as nat,
    ));
}

/// Adds to `commands` the moves that the keys ask for.
fn steer(keys: &Keys, commands: &mut Vec<Command>)
    ensures
        views(final(commands)@) == views(old(commands)@) + move_commands(*keys),
{
    if keys.up || keys.w {
        commands.push(Command::MovePlayer(Direction::Up));
    }
    if keys.down || keys.s {
        commands.push(Command::MovePlayer(Direction::Down));
    }
    if keys.right || keys.d {
        commands.push(Command::MovePlayer(Direction::Right));
    }
    if keys.left || keys.a {
        commands.push(Command::MovePlayer(Direction::Left));
    }
    assert(views(commands@) =~= views(old(commands)@) + move_commands(*keys));
}

/// Adds to `commands` the new gophers of the frame and numbers them.
fn spawn(state: &mut GameState, frame: &Frame, commands: &mut Vec<Command>)
    requires
        old(state).gopher_index + spawns(*frame) <= i32::MAX,
    ensures
        final(state).gopher_index == old(state).gopher_index + spawns(*frame),
        final(state).score == old(state).score,
        final(state).high_score == old(state).high_score,
        views(final(commands)@) == views(old(commands)@) + spawn_commands(
            old(state).gopher_index as int,
            *frame,
        ),
{
    if frame.left_just_pressed {
        if frame.mouse_in_window {
            let label = gopher_name(state.gopher_index);
            state.gopher_index += 1;
            commands.push(Command::SpawnAtMouse(label));
        }
    }
    if frame.spawn_due {
        let label = gopher_name(state.gopher_index);
        state.gopher_index += 1;
        commands.push(Command::SpawnAtRandom(label));
    }
    assert(views(commands@) =~= views(old(commands)@) + spawn_commands(
        old(state).gopher_index as int,
        *frame,
    ));
}

/// One frame of the game: updates `state` and returns what the engine has to do, in order.
///
/// The score and the number of the next gopher must have room for what the frame adds.
pub fn game_logic(state: &mut GameState, frame: &Frame) -> (commands: Vec<Command>)
    requires
        old(state).score + catches(frame.collisions@) <= u32::MAX,
        old(state).gopher_index + spawns(*frame) <= i32::MAX,
    ensures
        *final(state) == next_state(*old(state), *frame),
        views(commands@) == frame_commands(*old(state), *frame),
{
    let mut commands: Vec<Command> = Vec::new();
    if frame.keys.q_just_pressed {
        commands.push(Command::Exit);
    }
    let ghost exit = views(commands@);
    let ghost score = old(state).score as nat;
    let ghost high_score = old(state).high_score as nat;
    let ghost events = frame.collisions@;
    assert(events.take(0) =~= Seq::<CollisionEvent>::empty());
    assert(views(commands@) =~= exit + collision_commands(score, high_score, events.take(0)));
    let mut i: usize = 0;
    while i < frame.collisions.len()
        invariant
            i <= frame.collisions.len(),
            events == frame.collisions@,
            score == old(state).score,
            high_score == old(state).high_score,
            score + catches(events) <= u32::MAX,
            state.score == score + catches(events.take(i as int)),
            state.high_score == high_score_after(
                score,
                high_score,
                catches(events.take(i as int)),
            ),
            state.gopher_index == old(state).gopher_index,
            views(commands@) == exit + collision_commands(
                score,
                high_score,
                events.take(i as int),
            ),
        decreases frame.collisions.len() - i,
    {
        proof {
            assert(events.take(i + 1).drop_last() =~= events.take(i as int));
            lemma_catches_of_prefix(events, i + 1);
        }
        let event = &frame.collisions[i];
        if counts_as_catch(event) {
            catch(state, &event.pair, &mut commands);
        }
        i += 1;
    }
    assert(events.take(events.len() as int) =~= events);
    let ghost collided = exit + collision_commands(score, high_score, events);
    steer(&frame.keys, &mut commands);
    spawn(state, frame, &mut commands);
    let ghost spawned = collided + move_commands(frame.keys) + spawn_commands(
        old(state).gopher_index as int,
        *frame,
    );
    assert(views(commands@) == spawned);
    if frame.keys.r_just_pressed {
        state.score = 0;
        commands.push(Command::ShowScore(score_text(0)));
        assert(views(commands@) =~= spawned + seq![CommandView::ShowScore(score_line(0))]);
    } else {
        assert(views(commands@) =~= spawned + Seq::<CommandView>::empty());
    }
    assert(views(commands@) =~= frame_commands(*old(state), *frame));
    commands
}

} // verus!
