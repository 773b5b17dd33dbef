//! The road race: two cars, a scrolling road, and obstacles that cost health.
//!
//! The engine owns the window, the sprites, the texts and the sound. Once per frame it
//! reports what happened ([`Frame`]); [`game_logic`] updates the [`GameState`] and answers with
//! the [`Command`]s that the engine has to carry out, in order.

use vstd::prelude::*;
use vstd::string::StringExecFns;
use crate::collision::CollisionEvent;
use crate::text::{begins_with, decimal, push_decimal, starts_with};

verus! {

/// Pixels per second that a car moves sideways while its key is held.
pub const PLAYER_SPEED: u32 = 250;

/// Pixels per second that the road moves under the cars.
pub const ROAD_SPEED: u32 = 400;

/// The number of white lines on the road.
pub const ROAD_LINES: u8 = 10;

/// What the game remembers from frame to frame.
#[derive(Clone, Copy, Debug, PartialEq, Eq, Structural)]
pub struct GameState {
    pub health_amount: u8,
    pub lost: bool,
}

impl Default for GameState {
    fn default() -> (state: Self)
        ensures
            state == (GameState { health_amount: 3, lost: false }),
    {
        GameState { health_amount: 3, lost: false }
    }
}

/// What the engine reports for one frame.
#[derive(Clone, Debug)]
pub struct Frame {
    /// `Up` is held: the first car goes up.
    pub up: bool,
    /// `Down` is held: the first car goes down.
    pub down: bool,
    /// `W` is held: the second car goes up.
    pub w: bool,
    /// `S` is held: the second car goes down.
    pub s: bool,
    /// The collisions of this frame, in the order of the engine.
    pub collisions: Vec<CollisionEvent>,
}

/// One thing that the engine has to do after a frame.
#[derive(Clone, Debug, PartialEq, Eq)]
pub enum Command {
    /// Show the words `Game Over` in large letters.
    ShowGameOver,
    /// Stop the music.
    StopMusic,
    /// Play the sound that ends the game.
    PlayGameOver,
    /// Move each car by its direction (1 up, -1 down, 0 not at all) times the speed times
    /// the length of the frame, and turn it by the direction.
    Steer { player1: i8, player2: i8 },
    /// Move the road lines and the obstacles to the left by the road's speed.
    ScrollRoad,
    /// Show this line as the health.
    ShowHealth(String),
    /// Play the sound of a crash.
    PlayCrash,
}

/// A [`Command`] with its text as a sequence of characters.
pub enum CommandView {
    ShowGameOver,
    StopMusic,
    PlayGameOver,
    Steer { player1: i8, player2: i8 },
    ScrollRoad,
    ShowHealth(Seq<char>),
    PlayCrash,
}

impl View for Command {
    type V = CommandView;

    open spec fn view(&self) -> CommandView {
        match *self {
            Command::ShowGameOver => CommandView::ShowGameOver,
            Command::StopMusic => CommandView::StopMusic,
            Command::PlayGameOver => CommandView::PlayGameOver,
            Command::Steer { player1, player2 } => CommandView::Steer { player1, player2 },
            Command::ScrollRoad => CommandView::ScrollRoad,
            Command::ShowHealth(line) => CommandView::ShowHealth(line@),
            Command::PlayCrash => CommandView::PlayCrash,
        }
    }
}

/// The views of a list of commands, in the same order.
pub open spec fn views(commands: Seq<Command>) -> Seq<CommandView> {
    commands.map_values(|c: Command| c@)
}

/// What a sprite is to the road, by its label.
#[derive(Clone, Copy, Debug, PartialEq, Eq, Structural)]
pub enum SpriteKind {
    /// A white line: it comes back on the right when it has left on the left.
    RoadLine,
    /// An obstacle: it comes back at a random place on the right.
    Obstacle,
    /// Anything else stays where it is.
    Other,
}

/// A label that begins with `road_line` is a road line, one that begins with `obstacle` is
/// an obstacle.
pub open spec fn kind_of(label: Seq<char>) -> SpriteKind {
    if begins_with(label, "road_line"@) {
        SpriteKind::RoadLine
    } else if begins_with(label, "obstacle"@) {
        SpriteKind::Obstacle
    } else {
        SpriteKind::Other
    }
}

/// The line that shows the health `n`.
pub open spec fn health_line(n: nat) -> Seq<char> {
    "Health: "@ + decimal(n)
}

/// The label of the road line with the number `i`.
pub open spec fn road_line_label(i: nat) -> Seq<char> {
    "road_line"@ + decimal(i)
}

/// The label of the obstacle with the number `i`.
pub open spec fn obstacle_label(i: nat) -> Seq<char> {
    "obstacle"@ + decimal(i)
}

/// The direction that two opposite keys ask for: 1 for the first alone, -1 for the second
/// alone, 0 for both and for neither.
pub open spec fn direction(forward: bool, backward: bool) -> int {
    (if forward {
        1int
    } else {
        0int
    }) - (if backward {
        1int
    } else {
        0int
    })
}

/// A collision counts as a crash when one of its labels holds `player1` or `player2` and
/// it is not the end of a collision.
pub open spec fn is_crash(event: CollisionEvent) -> bool {
    (event.pair.spec_either_contains("player1"@) || event.pair.spec_either_contains("player2"@))
        && !(event.state is End)
}

/// The number of crashes among `events`.
pub open spec fn crashes(events: Seq<CollisionEvent>) -> nat
    decreases events.len(),
{
    if events.len() == 0 {
        0
    } else {
        crashes(events.drop_last()) + if is_crash(events.last()) {
            1nat
        } else {
            0nat
        }
    }
}

/// The health after `crashed` crashes: each takes one until none is left.
pub open spec fn health_after(health: nat, crashed: nat) -> nat {
    if crashed >= health {
        0
    } else {
        (health - crashed) as nat
    }
}

/// What the collisions of a frame ask for, event by event, from the health at the start
/// of the frame: a crash that finds health left shows what is left after it and sounds;
/// anything else asks for nothing.
pub open spec fn collision_commands(health: nat, events: Seq<CollisionEvent>) -> Seq<CommandView>
    decreases events.len(),
{
    if events.len() == 0 {
        seq![]
    } else {
        let earlier = events.drop_last();
        let left = health_after(health, crashes(earlier));
        collision_commands(health, earlier) + if is_crash(events.last()) && left > 0 {
            seq![
                CommandView::ShowHealth(health_line((left - 1) as nat)),
                CommandView::PlayCrash,
            ]
        } else {
            seq![]
        }
    }
}

/// What the end of the game asks for in every frame that starts without health.
pub open spec fn game_over_commands(health: nat) -> Seq<CommandView> {
    if health == 0 {
        seq![CommandView::ShowGameOver, CommandView::StopMusic, CommandView::PlayGameOver]
    } else {
        seq![]
    }
}

/// Everything that a frame asks of the engine, in order: the end of the game where the
/// health is gone, the steering of both cars, the scrolling of the road, and the crashes.
pub open spec fn frame_commands(state: GameState, frame: Frame) -> Seq<CommandView> {
    game_over_commands(state.health_amount as nat) + seq![
        CommandView::Steer {
            player1: direction(frame.up, frame.down) as i8,
            player2: direction(frame.w, frame.s) as i8,
        },
        CommandView::ScrollRoad,
    ] + collision_commands(state.health_amount as nat, frame.collisions@)
}

/// The state after a frame: the crashes have taken their health, nothing else changes.
pub open spec fn next_state(state: GameState, frame: Frame) -> GameState {
    GameState {
        health_amount: health_after(
            state.health_amount as nat,
            crashes(frame.collisions@),
        ) as u8,
        lost: state.lost,
    }
}

/// Health never rises, and a game without health stays as it is.
pub proof fn health_only_falls(state: GameState, frame: Frame)
    ensures
        next_state(state, frame).health_amount <= state.health_amount,
        state.health_amount == 0 ==> next_state(state, frame) == state,
{
}

/// What a sprite is to the road, by its label.
pub fn sprite_kind(label: &str) -> (kind: SpriteKind)
    ensures
        kind == kind_of(label@),
{
    if starts_with(label, "road_line") {
        SpriteKind::RoadLine
    } else if starts_with(label, "obstacle") {
        SpriteKind::Obstacle
    } else {
        SpriteKind::Other
    }
}

/// The label of the road line with the number `i`.
pub fn road_line_name(i: u8) -> (label: String)
    ensures
        label@ == road_line_label(i as nat),
{
    let mut label = String::from_str("road_line");
    push_decimal(&mut label, i as u64);
    label
}

/// The label of the obstacle with the number `i`.
pub fn obstacle_name(i: u8) -> (label: String)
    ensures
        label@ == obstacle_label(i as nat),
{
    let mut label = String::from_str("obstacle");
    push_decimal(&mut label, i as u64);
    label
}

/// Where the road line with the number `i` starts, in pixels from the middle of the
/// window: the lines stand 150 pixels apart, the first at 600 to the left.
pub fn road_line_x(i: u8) -> (x: i32)
    ensures
        x == 150 * i - 600,
{
    150 * (i as i32) - 600
}

/// The line that shows the health `n`.
pub fn health_text(n: u8) -> (line: String)
    ensures
        line@ == health_line(n as nat),
{
    let mut line = String::from_str("Health: ");
    push_decimal(&mut line, n as u64);
    line
}

/// The direction that two opposite keys ask for.
pub fn steering(forward: bool, backward: bool) -> (d: i8)
    ensures
        d == direction(forward, backward),
{
    let mut d: i8 = 0;
    if forward {
        d += 1;
    }
    if backward {
        d -= 1;
    }
    d
}

/// Whether a collision counts as a crash.
pub fn counts_as_crash(event: &CollisionEvent) -> (crash: bool)
    ensures
        crash == is_crash(*event),
{
    (event.pair.either_contains("player1") || event.pair.either_contains("player2"))
        && !event.state.is_end()
}

/// One frame of the game: updates `state` and returns what the engine has to do, in order.
pub fn game_logic(state: &mut GameState, frame: &Frame) -> (commands: Vec<Command>)
    ensures
        *final(state) == next_state(*old(state), *frame),
        views(commands@) == frame_commands(*old(state), *frame),
{
    let mut commands: Vec<Command> = Vec::new();
    if state.health_amount == 0 {
        commands.push(Command::ShowGameOver);
        commands.push(Command::StopMusic);
        commands.push(Command::PlayGameOver);
    }
    commands.push(
        Command::Steer {
            player1: steering(frame.up, frame.down),
            player2: steering(frame.w, frame.s),
        },
    );
    commands.push(Command::ScrollRoad);
    let ghost health = old(state).health_amount as nat;
    let ghost events = frame.collisions@;
    let ghost steered = views(commands@);
    assert(steered =~= game_over_commands(health) + seq![
        CommandView::Steer {
            player1: direction(frame.up, frame.down) as i8,
            player2: direction(frame.w, frame.s) as i8,
        },
        CommandView::ScrollRoad,
    ]);
    assert(events.take(0) =~= Seq::<CollisionEvent>::empty());
    assert(views(commands@) =~= steered + collision_commands(health, events.take(0)));
    let mut i: usize = 0;
    while i < frame.collisions.len()
        invariant
            i <= frame.collisions.len(),
            events == frame.collisions@,
            health == old(state).health_amount,
            state.health_amount == health_after(health, crashes(events.take(i as int))),
            state.lost == old(state).lost,
            views(commands@) == steered + collision_commands(health, events.take(i as int)),
        decreases frame.collisions.len() - i,
    {
        assert(events.take(i + 1).drop_last() =~= events.take(i as int));
        let ghost before = views(commands@);
        if counts_as_crash(&frame.collisions[i]) {
            if state.health_amount > 0 {
                state.health_amount -= 1;
                commands.push(Command::ShowHealth(health_text(state.health_amount)));
                commands.push(Command::PlayCrash);
                assert(views(commands@) =~= before + seq![
                    CommandView::ShowHealth(health_line(state.health_amount as nat)),
                    CommandView::PlayCrash,
                ]);
            }
        }
        i += 1;
        assert(views(commands@) =~= steered + collision_commands(health, events.take(i as int)));
    }
    assert(events.take(events.len() as int) =~= events);
    commands
}

} // verus!
