//! The rules of the game, stated over a mathematical picture of a play
//! session: what a key press, a frame and a step of the snake do, and what
//! follows from that.

use crate::direction::Direction;
use crate::fruit::{free_cells, lemma_free_cells};
use crate::grid::{GridPosition, GRID_HEIGHT, GRID_WIDTH};
use crate::snake::{lemma_advanced_body, lemma_advanced_in_grid, lemma_trimmed_body, SnakeView};
use vstd::prelude::*;

verus! {

/// Points scored for each fruit eaten.
pub const FRUIT_POINTS: u32 = 10;

/// Time between two steps of the snake, in nanoseconds.
pub const MOVE_TIME: u64 = 300_000_000;

/// While the title screen shows, the autopilot reconsiders its heading on
/// every step that brings the count of steps since it last did to this number.
pub const AUTOPILOT_PERIOD: u32 = 4;

/// The autopilot draws its numbers from zero up to, but not including, this one.
pub const AUTOPILOT_DRAWS: u32 = 4;

/// The states of a play session.
#[derive(Clone, Copy, Debug, PartialEq, Eq, Structural)]
pub enum GameState {
    /// The title screen: the snake wanders by itself until a key starts the game.
    Starting,
    /// The player steers the snake.
    Running,
    /// The game stands still until it is resumed.
    Paused,
    /// The snake has run into itself.
    GameOver,
    /// The player has asked to quit and is asked to confirm.
    Quitting,
}

/// A key press, as the host reports it to the game.
#[derive(Clone, Copy, Debug, PartialEq, Eq, Structural)]
pub enum InputEvent {
    /// A key that steers the snake.
    DirectionPressed(Direction),
    /// The key that answers yes.
    ConfirmPressed,
    /// The key that answers no.
    CancelPressed,
    /// The key that pauses and resumes.
    TogglePause,
    /// The key that shows or hides the grid lines.
    ToggleGridOverlay,
    /// The key that shows or hides the frame rate.
    ToggleFpsOverlay,
    /// The key that asks to leave the game.
    Quit,
    /// Any key without a meaning of its own.
    OtherKey,
}

/// Which of the four steering keys are held down.
#[derive(Clone, Copy, Debug, PartialEq, Eq, Structural)]
pub struct ArrowKeys {
    pub down: bool,
    pub up: bool,
    pub right: bool,
    pub left: bool,
}

/// Why a snake cannot start a game where it was laid out.
#[derive(Clone, Copy, Debug, PartialEq, Eq, Structural)]
pub enum LayoutError {
    /// The head is not on the playing field.
    HeadOffField,
    /// A body segment is not on the playing field.
    BodyOffField,
    /// The head lies on a body segment.
    HeadOnBody,
    /// The snake covers the whole playing field and leaves no cell for the fruit.
    NoFreeCell,
}

/// Everything a play session consists of, but for the state of its random
/// number generator.
pub struct GameView {
    /// The snake.
    pub snake: SnakeView,
    /// The cell of the fruit.
    pub fruit: GridPosition,
    /// The heading of the last step.
    pub dir: Direction,
    /// The heading asked for since the last step, if any.
    pub dir_new: Option<Direction>,
    /// Time accumulated since the last step.
    pub timer: nat,
    /// The score.
    pub score: nat,
    /// The state of the session.
    pub state: GameState,
    /// Whether the grid lines are shown.
    pub show_grid: bool,
    /// Whether the frame rate is shown.
    pub show_fps: bool,
    /// Steps taken on the title screen since the autopilot last reconsidered.
    pub idle_ticks: nat,
}

/// The cell a new snake's head starts on.
pub open spec fn start_head() -> GridPosition {
    GridPosition { x: 4, y: 4 }
}

/// The snake of the title screen: four segments trailing to the left edge.
pub open spec fn demo_snake() -> SnakeView {
    SnakeView {
        head: start_head(),
        body: seq![
            GridPosition { x: 3, y: 4 },
            GridPosition { x: 2, y: 4 },
            GridPosition { x: 1, y: 4 },
            GridPosition { x: 0, y: 4 },
        ],
    }
}

/// The session as it opens, on the title screen, with the fruit on `fruit`.
pub open spec fn opening(fruit: GridPosition) -> GameView {
    GameView {
        snake: demo_snake(),
        fruit,
        dir: Direction::Right,
        dir_new: None,
        timer: 0,
        score: 0,
        state: GameState::Starting,
        show_grid: true,
        show_fps: true,
        idle_ticks: 0,
    }
}

impl ArrowKeys {
    /// No steering key held down.
    pub open spec fn released() -> ArrowKeys {
        ArrowKeys { down: false, up: false, right: false, left: false }
    }

    /// The steering key for heading `d` held down, and no other.
    pub open spec fn holding(d: Direction) -> ArrowKeys {
        ArrowKeys {
            down: d == Direction::Down,
            up: d == Direction::Up,
            right: d == Direction::Right,
            left: d == Direction::Left,
        }
    }

    /// No steering key held down.
    pub fn none() -> (keys: ArrowKeys)
        ensures
            keys == ArrowKeys::released(),
    {
        ArrowKeys { down: false, up: false, right: false, left: false }
    }
}

impl GameView {
    /// What holds of every session between two calls: the snake and the
    /// fruit lie on the playing field, the fruit is not under the snake, the
    /// head is not on the body unless the game is over, and the clock has
    /// not yet reached the time of the next step.
    pub open spec fn wf(self) -> bool {
        &&& self.snake.in_grid()
        &&& self.fruit.in_grid()
        &&& !self.snake.occupies(self.fruit)
        &&& self.state != GameState::GameOver ==> !self.snake.collides()
        &&& self.timer < MOVE_TIME
        &&& self.idle_ticks < AUTOPILOT_PERIOD
        &&& self.score <= u32::MAX
    }

    /// Whether the snake moves as time passes.
    pub open spec fn moving(self) -> bool {
        self.state == GameState::Running || self.state == GameState::Starting
    }

    /// Whether the player may turn the snake to `d`: a snake with a body
    /// cannot double back on itself.
    pub open spec fn admits(self, d: Direction) -> bool {
        self.snake.body.len() == 0 || d != self.dir.reversed()
    }

    /// The session after the player has asked for heading `d`.
    pub open spec fn latched(self, d: Direction) -> GameView {
        if self.admits(d) {
            GameView { dir_new: Some(d), ..self }
        } else {
            self
        }
    }

    /// The session after the steering keys have been looked at. Of the keys
    /// held down the first that the snake may turn to counts, in the order
    /// down, up, right, left.
    pub open spec fn polled(self, keys: ArrowKeys) -> GameView {
        if keys.down && self.admits(Direction::Down) {
            self.latched(Direction::Down)
        } else if keys.up && self.admits(Direction::Up) {
            self.latched(Direction::Up)
        } else if keys.right && self.admits(Direction::Right) {
            self.latched(Direction::Right)
        } else if keys.left && self.admits(Direction::Left) {
            self.latched(Direction::Left)
        } else {
            self
        }
    }

    /// The session after the autopilot has drawn `draw`: it asks for the
    /// heading the draw selects unless that doubles back.
    pub open spec fn steered(self, draw: u32) -> GameView {
        match Direction::of_draw(draw) {
            Some(d) => if d != self.dir.reversed() {
                GameView { dir_new: Some(d), ..self }
            } else {
                self
            },
            None => self,
        }
    }

    /// The heading of the next step.
    pub open spec fn heading(self) -> Direction {
        match self.dir_new {
            Some(d) => d,
            None => self.dir,
        }
    }

    /// The session after a step on the title screen has been counted: on
    /// every `AUTOPILOT_PERIOD`-th step the autopilot steers by `draw`.
    pub open spec fn autopiloted(self, draw: u32) -> GameView {
        if self.idle_ticks + 1 >= AUTOPILOT_PERIOD {
            GameView { idle_ticks: 0, ..self.steered(draw) }
        } else {
            GameView { idle_ticks: self.idle_ticks + 1, ..self }
        }
    }

    /// The snake after its next step, before its tail follows.
    pub open spec fn grown(self) -> SnakeView {
        self.snake.advanced(self.heading())
    }

    /// Whether the next step runs the head into the body.
    pub open spec fn crashes(self) -> bool {
        self.grown().collides()
    }

    /// Whether the next step eats the fruit.
    pub open spec fn eats(self) -> bool {
        !self.crashes() && self.grown().head == self.fruit
    }

    /// The session after the next step, the fruit left where it is. The
    /// heading asked for is taken up and the snake steps forward. A head that
    /// lands on the body ends the game, and nothing else happens. Else a
    /// head that lands on the fruit scores and the snake stays one segment
    /// longer. Else the tail follows.
    pub open spec fn moved(self) -> GameView {
        let turned = GameView { dir: self.heading(), dir_new: None, ..self };
        if self.crashes() {
            GameView { snake: self.grown(), state: GameState::GameOver, ..turned }
        } else if self.eats() {
            GameView { snake: self.grown(), score: self.score + FRUIT_POINTS as nat, ..turned }
        } else {
            GameView { snake: self.grown().trimmed(), ..turned }
        }
    }
}

/// Where the fruit can be placed leaves the snake as it is; where the snake
/// covers the whole playing field, its body is given up to make room.
pub open spec fn making_room(snake: SnakeView) -> SnakeView {
    if free_cells(snake).len() == 0 {
        SnakeView { head: snake.head, body: Seq::empty() }
    } else {
        snake
    }
}

/// How placing a new fruit relates the session before it to the session
/// after it: the fruit lies on a cell free of the snake, which has given up
/// its body if it left no cell free.
pub open spec fn respawned(pre: GameView, post: GameView) -> bool {
    &&& post == (GameView { snake: making_room(pre.snake), fruit: post.fruit, ..pre })
    &&& free_cells(post.snake).contains(post.fruit)
}

/// How one step of the snake relates the session before it to the session
/// after it: a step that eats the fruit is followed by placing a new one.
pub open spec fn move_outcome(pre: GameView, post: GameView) -> bool {
    if pre.eats() {
        respawned(pre.moved(), post)
    } else {
        post == pre.moved()
    }
}

/// How a frame relates the session before it to the session after it, where
/// `keys` are the steering keys held down, `elapsed` the time since the last
/// frame and `draw` the number the autopilot draws if it is its turn.
///
/// A session that is paused, over or about to quit does not change. Else the
/// steering keys are looked at, if the player steers. Then the clock runs:
/// short of `MOVE_TIME` it only accumulates; once there it starts again from
/// zero and the snake takes one step, and only one, however much time passed.
pub open spec fn stepped(
    pre: GameView,
    keys: ArrowKeys,
    elapsed: nat,
    draw: u32,
    post: GameView,
) -> bool {
    if !pre.moving() {
        post == pre
    } else {
        let polled = if pre.state == GameState::Running {
            pre.polled(keys)
        } else {
            pre
        };
        if polled.timer + elapsed < MOVE_TIME {
            post == (GameView { timer: polled.timer + elapsed, ..polled })
        } else {
            let fired = GameView { timer: 0, ..polled };
            let ready = if pre.state == GameState::Starting {
                fired.autopiloted(draw)
            } else {
                fired
            };
            move_outcome(ready, post)
        }
    }
}

/// What keeps a snake from starting a game where it is laid out, if anything
/// does. Of several faults the first in this order counts: the head off the
/// playing field, a body segment off it, the head on the body, no cell left
/// for the fruit.
pub open spec fn layout_fault(snake: SnakeView) -> Option<LayoutError> {
    if !snake.head.in_grid() {
        Some(LayoutError::HeadOffField)
    } else if !snake.in_grid() {
        Some(LayoutError::BodyOffField)
    } else if snake.collides() {
        Some(LayoutError::HeadOnBody)
    } else if free_cells(snake).len() == 0 {
        Some(LayoutError::NoFreeCell)
    } else {
        None
    }
}

/// The snake a new game starts with: all head.
pub open spec fn start_snake() -> SnakeView {
    SnakeView { head: start_head(), body: Seq::empty() }
}

/// How starting a game with the snake laid out as `snake` and heading `dir`
/// relates the session before it to the session after it: the fruit lies on
/// a cell free of the snake, the score and the clock are at zero, and only
/// the overlays and the autopilot's count carry over.
pub open spec fn restarted_with(
    pre: GameView,
    snake: SnakeView,
    dir: Direction,
    post: GameView,
) -> bool {
    &&& post == (GameView {
        snake,
        fruit: post.fruit,
        dir,
        dir_new: None,
        timer: 0,
        score: 0,
        state: GameState::Running,
        ..pre
    })
    &&& free_cells(snake).contains(post.fruit)
}

/// How a restart relates the session before it to the session after it: a
/// game starts with the snake all head on its starting cell, heading right.
pub open spec fn restarted(pre: GameView, post: GameView) -> bool {
    restarted_with(pre, start_snake(), Direction::Right, post)
}

/// Whether the key press `event` starts a new game: any key but the quit key
/// on the title screen, and yes when the game is over.
pub open spec fn restarts(pre: GameView, event: InputEvent) -> bool {
    ||| pre.state == GameState::Starting && event != InputEvent::Quit
    ||| pre.state == GameState::GameOver && event == InputEvent::ConfirmPressed
}

/// Whether a frame lets the snake take a step: the session is running or on
/// the title screen, and the time accumulated reaches `MOVE_TIME`.
pub open spec fn takes_step(pre: GameView, elapsed: nat) -> bool {
    pre.moving() && pre.timer + elapsed >= MOVE_TIME
}

/// How a key press relates the session before it to the session after it,
/// where `quit` tells whether the host is to end the session.
///
/// On the title screen the quit key ends the session and every other key
/// starts a game. While the game runs, a steering key asks for a heading, the
/// pause key pauses, the quit key asks for confirmation and the overlay keys
/// flip their overlay. A paused game only heeds the pause key, which resumes
/// it. When the game is over, yes starts a new game, and no and the quit key
/// end the session. Asked to confirm quitting, yes and the quit key end the
/// session and no goes back to the game. Every other key is ignored.
pub open spec fn event_outcome(pre: GameView, event: InputEvent, post: GameView, quit: bool) -> bool {
    match pre.state {
        GameState::Starting => match event {
            InputEvent::Quit => quit && post == pre,
            _ => !quit && restarted(pre, post),
        },
        GameState::Running => !quit && post == match event {
            InputEvent::DirectionPressed(d) => pre.latched(d),
            InputEvent::TogglePause => GameView { state: GameState::Paused, ..pre },
            InputEvent::Quit => GameView { state: GameState::Quitting, ..pre },
            InputEvent::ToggleGridOverlay => GameView { show_grid: !pre.show_grid, ..pre },
            InputEvent::ToggleFpsOverlay => GameView { show_fps: !pre.show_fps, ..pre },
            _ => pre,
        },
        GameState::Paused => !quit && post == match event {
            InputEvent::TogglePause => GameView { state: GameState::Running, ..pre },
            _ => pre,
        },
        GameState::GameOver => match event {
            InputEvent::ConfirmPressed => !quit && restarted(pre, post),
            InputEvent::CancelPressed | InputEvent::Quit => quit && post == pre,
            _ => !quit && post == pre,
        },
        GameState::Quitting => match event {
            InputEvent::ConfirmPressed | InputEvent::Quit => quit && post == pre,
            InputEvent::CancelPressed => !quit && post == (GameView {
                state: GameState::Running,
                ..pre
            }),
            _ => !quit && post == pre,
        },
    }
}

/// How a run of key presses, handled one after the other, relates the session
/// before them to the sessions after each: `trace[i]` is the session before
/// press `i`, `trace[i + 1]` the session after it, and `quits[i]` tells
/// whether press `i` asked the host to end the session.
pub open spec fn handled(
    pre: GameView,
    events: Seq<InputEvent>,
    trace: Seq<GameView>,
    quits: Seq<bool>,
) -> bool {
    &&& trace.len() == events.len() + 1
    &&& quits.len() == events.len()
    &&& trace[0] == pre
    &&& forall|i: int|
        0 <= i < events.len() ==> event_outcome(trace[i], events[i], trace[i + 1], #[trigger] quits[i])
}

/// How a simulated frame relates the session before it to the session after
/// it: the key presses `events` are handled in order, with `trace` and `quits`
/// as in `handled`; then `elapsed` passes with no steering key held down and
/// `draw` as the autopilot's draw.
pub open spec fn simulated(
    pre: GameView,
    events: Seq<InputEvent>,
    elapsed: nat,
    trace: Seq<GameView>,
    quits: Seq<bool>,
    draw: u32,
    post: GameView,
) -> bool {
    &&& handled(pre, events, trace, quits)
    &&& draw < AUTOPILOT_DRAWS
    &&& stepped(trace.last(), ArrowKeys::released(), elapsed, draw, post)
}

/// The game is set up soundly: the playing field has cells, the clock has a
/// positive period, a fruit is worth something, and neither the snake of the
/// title screen nor the snake a game starts with has a fault.
pub proof fn lemma_setup_is_sound()
    ensures
        GRID_WIDTH > 0,
        GRID_HEIGHT > 0,
        MOVE_TIME > 0,
        FRUIT_POINTS > 0,
        AUTOPILOT_PERIOD > 0,
        AUTOPILOT_DRAWS > 0,
        layout_fault(demo_snake()) is None,
        layout_fault(start_snake()) is None,
{
    let corner = GridPosition { x: 0, y: 0 };
    lemma_free_cells(demo_snake(), corner);
    lemma_free_cells(start_snake(), corner);
}

/// A snake with a body cannot be turned back on itself: asking for the
/// heading opposite to the one it moves in changes nothing, whether a key
/// press asks or a key held down. The next step is the one it would have
/// been: with nothing else asked for, it keeps the heading.
pub proof fn lemma_reversal_is_ignored(v: GameView, post: GameView, quit: bool)
    requires
        v.snake.body.len() > 0,
        v.state == GameState::Running,
        event_outcome(v, InputEvent::DirectionPressed(v.dir.reversed()), post, quit),
    ensures
        post == v,
        !quit,
        v.polled(ArrowKeys::holding(v.dir.reversed())) == v,
        post.heading() == v.heading(),
        v.dir_new is None ==> post.moved().dir == v.dir,
{
}

/// The autopilot never asks the snake to double back, and no number it can
/// draw makes it ask for Up: whatever it draws, it asks for Down, Left or
/// Right, or leaves the session as it is.
pub proof fn lemma_autopilot_never_doubles_back(v: GameView, draw: u32)
    requires
        draw < AUTOPILOT_DRAWS,
    ensures
        v.steered(draw) == v || (v.steered(draw) == (GameView {
            dir_new: Direction::of_draw(draw),
            ..v
        }) && Direction::of_draw(draw) != Some(v.dir.reversed()) && Direction::of_draw(draw)
            != Some(Direction::Up) && Direction::of_draw(draw) is Some),
{
}

/// A step that does not end the game leaves the head on no body segment.
pub proof fn lemma_survivor_is_clear_of_itself(pre: GameView, post: GameView)
    requires
        move_outcome(pre, post),
        post.state != GameState::GameOver,
    ensures
        !post.snake.collides(),
{
    if !pre.crashes() {
        lemma_trimmed_body(pre.grown(), pre.grown().head);
    }
}

/// A step that eats the fruit adds the reward to the score and puts the new
/// fruit on a cell of the playing field that the snake is not on. Unless the
/// snake then covers the whole playing field, its body is one segment longer
/// than before the step; where it does, the body is given up.
pub proof fn lemma_eating_grows_and_scores(pre: GameView, post: GameView)
    requires
        pre.eats(),
        move_outcome(pre, post),
    ensures
        post.score == pre.score + FRUIT_POINTS,
        post.fruit.in_grid(),
        !post.snake.occupies(post.fruit),
        free_cells(pre.grown()).len() > 0 ==> post.snake.body.len() == pre.snake.body.len() + 1,
        free_cells(pre.grown()).len() == 0 ==> post.snake.body.len() == 0,
{
    lemma_free_cells(post.snake, post.fruit);
}

/// A step keeps a well-formed session well-formed, as long as the score fits.
pub proof fn lemma_move_keeps_wf(pre: GameView, post: GameView)
    requires
        pre.wf(),
        pre.score + FRUIT_POINTS <= u32::MAX,
        move_outcome(pre, post),
    ensures
        post.wf(),
{
    let dir = pre.heading();
    let grown = pre.grown();
    lemma_advanced_in_grid(pre.snake, dir);
    lemma_advanced_body(pre.snake, dir, pre.fruit);
    lemma_trimmed_body(grown, pre.fruit);
    lemma_trimmed_body(grown, grown.head);
    if pre.eats() {
        lemma_free_cells(post.snake, post.fruit);
    }
}

} // verus!
