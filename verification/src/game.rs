//! The play session: the snake, the fruit, the score and the state machine
//! that drives them from key presses and elapsed time.

use crate::clock::TickClock;
use crate::direction::Direction;
use crate::fruit::{free_cells, lemma_free_cells, lemma_lone_head_leaves_room, spawn_free};
use crate::grid::GridPosition;
use crate::rules::{
    demo_snake, event_outcome, handled, lemma_move_keeps_wf, making_room, move_outcome, opening,
    layout_fault, restarted, restarted_with, restarts, simulated, start_head, stepped, takes_step,
    ArrowKeys, GameState, GameView, InputEvent, LayoutError, AUTOPILOT_DRAWS, AUTOPILOT_PERIOD,
    FRUIT_POINTS, MOVE_TIME,
};
use crate::snake::{Snake, SnakeView};
use oorandom::Rand32;
use vstd::prelude::*;

verus! {

/// What a renderer is given to draw.
pub struct Snapshot {
    /// The cell of the snake's head.
    pub head: GridPosition,
    /// The cells of the snake's body, from the head to the tip of the tail.
    pub body: Vec<GridPosition>,
    /// The cell of the fruit.
    pub fruit: GridPosition,
    /// The score.
    pub score: u32,
    /// The state of the session.
    pub state: GameState,
    /// Whether the grid lines are to be drawn.
    pub show_grid: bool,
    /// Whether the frame rate is to be drawn.
    pub show_fps: bool,
}

impl Snapshot {
    /// Whether the snapshot shows the session `v`.
    pub open spec fn depicts(self, v: GameView) -> bool {
        &&& self.head == v.snake.head
        &&& self.body@ == v.snake.body
        &&& self.fruit == v.fruit
        &&& self.score == v.score
        &&& self.state == v.state
        &&& self.show_grid == v.show_grid
        &&& self.show_fps == v.show_fps
    }
}

/// A play session.
pub struct MyGame {
    snake: Snake,
    fruit_pos: GridPosition,
    dir: Direction,
    dir_new: Option<Direction>,
    head_timer: TickClock,
    rng: Rand32,
    score: u32,
    show_grid: bool,
    show_fps: bool,
    state: GameState,
    choose_random_direction_counter: u32,
}

impl View for MyGame {
    type V = GameView;

    closed spec fn view(&self) -> GameView {
        GameView {
            snake: self.snake@,
            fruit: self.fruit_pos,
            dir: self.dir,
            dir_new: self.dir_new,
            timer: self.head_timer@,
            score: self.score as nat,
            state: self.state,
            show_grid: self.show_grid,
            show_fps: self.show_fps,
            idle_ticks: self.choose_random_direction_counter as nat,
        }
    }
}

impl MyGame {
    /// The random number generator of the session, the one part of it that
    /// its view does not show.
    pub closed spec fn generator(&self) -> Rand32 {
        self.rng
    }

    /// Opens a session on the title screen. The random number generator is
    /// seeded with `seed`: equal seeds give equal sessions.
    pub fn new(seed: u64) -> (game: MyGame)
        ensures
            game@ == opening(game@.fruit),
            game@.wf(),
    {
        let head = GridPosition::new(4, 4);
        let mut body: Vec<GridPosition> = Vec::new();
        body.push(GridPosition::new(3, 4));
        body.push(GridPosition::new(2, 4));
        body.push(GridPosition::new(1, 4));
        body.push(GridPosition::new(0, 4));
        let mut snake = Snake::new(head);
        snake.reset(head, &body);
        assert(snake@.body =~= demo_snake().body);
        let mut game = MyGame {
            snake,
            fruit_pos: head,
            dir: Direction::Right,
            dir_new: None,
            head_timer: TickClock::new(),
            rng: Rand32::new(seed),
            score: 0,
            show_grid: true,
            show_fps: true,
            state: GameState::Starting,
            choose_random_direction_counter: 0,
        };
        proof {
            lemma_free_cells(demo_snake(), GridPosition { x: 0, y: 0 });
        }
        game.fruit_pos = game.random_free_pos();
        proof {
            lemma_free_cells(game@.snake, game@.fruit);
        }
        game
    }

    /// Picks a free cell at random for the fruit. Where the snake leaves no
    /// cell free, its body is dropped first, which frees all cells but one.
    pub fn random_free_pos(&mut self) -> (p: GridPosition)
        ensures
            final(self)@ == (GameView { snake: making_room(old(self)@.snake), ..old(self)@ }),
            free_cells(final(self)@.snake).contains(p),
        decreases old(self)@.snake.body.len(),
    {
        match spawn_free(&self.snake, &mut self.rng) {
            Some(p) => p,
            None => {
                proof {
                    if self@.snake.body.len() == 0 {
                        lemma_lone_head_leaves_room(self@.snake.head);
                        assert(self@.snake.body =~= Seq::empty());
                    }
                }
                self.snake.clear_body();
                proof {
                    lemma_lone_head_leaves_room(self@.snake.head);
                }
                self.random_free_pos()
            },
        }
    }

    /// Starts a new game: the snake is all head on its starting cell, heading
    /// right, the fruit on a free cell chosen at random, the score and the
    /// clock at zero.
    pub fn restart(&mut self)
        requires
            old(self)@.wf(),
        ensures
            restarted(old(self)@, final(self)@),
            final(self)@.wf(),
    {
        self.snake.reset(GridPosition::new(4, 4), &Vec::new());
        proof {
            lemma_lone_head_leaves_room(start_head());
        }
        self.fruit_pos = self.random_free_pos();
        self.dir = Direction::Right;
        self.dir_new = None;
        self.score = 0;
        self.state = GameState::Running;
        self.head_timer.reset();
        proof {
            lemma_free_cells(self@.snake, self@.fruit);
        }
    }

    /// Starts a new game with the snake laid out by the caller: the head on
    /// `head`, the body over the cells of `body` from the head to the tip of
    /// the tail, heading `dir`. A layout with a fault is turned down, and the
    /// session stays as it was.
    pub fn restart_with(
        &mut self,
        head: GridPosition,
        body: &Vec<GridPosition>,
        dir: Direction,
    ) -> (r: Result<(), LayoutError>)
        requires
            old(self)@.wf(),
        ensures
            r == match layout_fault(SnakeView { head, body: body@ }) {
                Some(fault) => Err::<(), LayoutError>(fault),
                None => Ok(()),
            },
            r is Ok ==> restarted_with(
                old(self)@,
                SnakeView { head, body: body@ },
                dir,
                final(self)@,
            ),
            r is Err ==> final(self)@ == old(self)@,
            r is Err ==> final(self).generator() == old(self).generator(),
            final(self)@.wf(),
    {
        if !head.is_in_grid() {
            return Err(LayoutError::HeadOffField);
        }
        let ghost start = self@;
        let ghost laid_out = SnakeView { head, body: body@ };
        let mut i: usize = 0;
        while i < body.len()
            invariant
                i <= body.len(),
                head.in_grid(),
                self@ == start,
                self.generator() == old(self).generator(),
                start.wf(),
                laid_out == (SnakeView { head, body: body@ }),
                forall|j: int| 0 <= j < i ==> (#[trigger] body@[j]).in_grid(),
            decreases body.len() - i,
        {
            if !body[i].is_in_grid() {
                assert(!laid_out.body[i as int].in_grid());
                return Err(LayoutError::BodyOffField);
            }
            i += 1;
        }
        let mut snake = Snake::new(head);
        snake.reset(head, body);
        if snake.check_self_collision() {
            return Err(LayoutError::HeadOnBody);
        }
        match spawn_free(&snake, &mut self.rng) {
            None => Err(LayoutError::NoFreeCell),
            Some(fruit) => {
                proof {
                    lemma_free_cells(snake@, fruit);
                }
                self.snake = snake;
                self.fruit_pos = fruit;
                self.dir = dir;
                self.dir_new = None;
                self.score = 0;
                self.state = GameState::Running;
                self.head_timer.reset();
                Ok(())
            },
        }
    }

    /// Lets the snake take one step: it takes up the heading asked for and
    /// steps forward. If the head lands on the body the game is over. Else,
    /// if it lands on the fruit, the reward is scored, the snake stays one
    /// segment longer and a new fruit is placed. Else the tail follows.
    pub fn move_snake(&mut self)
        requires
            old(self)@.wf(),
            old(self)@.score + FRUIT_POINTS <= u32::MAX,
        ensures
            move_outcome(old(self)@, final(self)@),
            final(self)@.wf(),
            final(self)@.state != GameState::GameOver ==> !final(self)@.snake.collides(),
    {
        if let Some(dir_new) = self.dir_new {
            self.dir = dir_new;
            self.dir_new = None;
        }
        self.snake.advance(self.dir);
        if self.snake.check_self_collision() {
            self.state = GameState::GameOver;
        } else if self.snake.eat(self.fruit_pos) {
            self.score += FRUIT_POINTS;
            self.fruit_pos = self.random_free_pos();
        }
        proof {
            lemma_move_keeps_wf(old(self)@, self@);
        }
    }

    /// Advances the session by one frame, `elapsed` nanoseconds after the
    /// last one, with the steering keys `keys` held down.
    ///
    /// Only a session that is running or on the title screen changes. The
    /// snake takes at most one step per frame; time beyond `MOVE_TIME` is
    /// dropped. A frame with no time elapsed and no key held changes nothing.
    pub fn update(&mut self, keys: ArrowKeys, elapsed: u64)
        requires
            old(self)@.wf(),
            old(self)@.score + FRUIT_POINTS <= u32::MAX,
        ensures
            exists|draw: u32|
                draw < AUTOPILOT_DRAWS && #[trigger] stepped(
                    old(self)@,
                    keys,
                    elapsed as nat,
                    draw,
                    final(self)@,
                ),
            final(self)@.wf(),
            final(self)@.moving() ==> !final(self)@.snake.collides(),
            !old(self)@.moving() ==> final(self)@ == old(self)@,
            elapsed == 0 && keys == ArrowKeys::released() ==> final(self)@ == old(self)@,
            !takes_step(old(self)@, elapsed as nat)
                ==> final(self).generator() == old(self).generator(),
    {
        let ghost mut draw: u32 = 0;
        if self.state == GameState::Running {
            self.process_input(keys);
        }
        if self.state == GameState::Running || self.state == GameState::Starting {
            if self.head_timer.tick(elapsed, MOVE_TIME) {
                if self.state == GameState::Starting {
                    self.choose_random_direction_counter += 1;
                    if self.choose_random_direction_counter >= AUTOPILOT_PERIOD {
                        let ghost before = self@;
                        self.choose_random_direction();
                        proof {
                            draw = choose|d: u32|
                                d < AUTOPILOT_DRAWS && self@ == #[trigger] before.steered(d);
                        }
                        self.choose_random_direction_counter = 0;
                    }
                }
                self.move_snake();
            }
        }
        assert(stepped(old(self)@, keys, elapsed as nat, draw, self@));
    }

    /// Handles one key press and tells whether the host is to end the
    /// session. What the key does depends on the state of the session.
    pub fn key_down_event(&mut self, event: InputEvent) -> (quit: bool)
        requires
            old(self)@.wf(),
        ensures
            event_outcome(old(self)@, event, final(self)@, quit),
            final(self)@.wf(),
            final(self)@.score <= old(self)@.score,
            !restarts(old(self)@, event) ==> final(self).generator() == old(self).generator(),
    {
        match self.state {
            GameState::Starting => match event {
                InputEvent::Quit => true,
                _ => {
                    self.restart();
                    false
                },
            },
            GameState::GameOver => match event {
                InputEvent::Quit | InputEvent::CancelPressed => true,
                InputEvent::ConfirmPressed => {
                    self.restart();
                    false
                },
                _ => false,
            },
            GameState::Quitting => match event {
                InputEvent::Quit | InputEvent::ConfirmPressed => true,
                InputEvent::CancelPressed => {
                    self.state = GameState::Running;
                    false
                },
                _ => false,
            },
            GameState::Paused => {
                match event {
                    InputEvent::TogglePause => {
                        self.state = GameState::Running;
                    },
                    _ => {},
                }
                false
            },
            GameState::Running => {
                match event {
                    InputEvent::DirectionPressed(d) => {
                        if self.snake.is_empty() || !self.dir.opposite(d) {
                            self.dir_new = Some(d);
                        }
                    },
                    InputEvent::ToggleGridOverlay => {
                        self.show_grid = !self.show_grid;
                    },
                    InputEvent::ToggleFpsOverlay => {
                        self.show_fps = !self.show_fps;
                    },
                    InputEvent::TogglePause => {
                        self.state = GameState::Paused;
                    },
                    InputEvent::Quit => {
                        self.state = GameState::Quitting;
                    },
                    _ => {},
                }
                false
            },
        }
    }

    /// Simulates one frame: handles the key presses `events` in order, then
    /// lets `elapsed` nanoseconds pass with no steering key held down.
    /// Returns what to draw, and whether any key press asked the host to end
    /// the session.
    ///
    /// A frame with no key press and no time elapsed changes nothing, and a
    /// paused session changes only when the pause key is among the presses.
    pub fn step(&mut self, elapsed: u64, events: &Vec<InputEvent>) -> (out: (Snapshot, bool))
        requires
            old(self)@.wf(),
            old(self)@.score + FRUIT_POINTS <= u32::MAX,
        ensures
            exists|trace: Seq<GameView>, quits: Seq<bool>, draw: u32|
                out.1 == quits.contains(true) && #[trigger] simulated(
                    old(self)@,
                    events@,
                    elapsed as nat,
                    trace,
                    quits,
                    draw,
                    final(self)@,
                ),
            out.0.depicts(final(self)@),
            final(self)@.wf(),
            final(self)@.moving() ==> !final(self)@.snake.collides(),
            elapsed == 0 && events@.len() == 0 ==> final(self)@ == old(self)@,
            elapsed == 0 && events@.len() == 0
                ==> final(self).generator() == old(self).generator(),
            old(self)@.state == GameState::Paused && !events@.contains(InputEvent::TogglePause)
                ==> final(self)@ == old(self)@,
            old(self)@.state == GameState::Paused && !events@.contains(InputEvent::TogglePause)
                ==> final(self).generator() == old(self).generator(),
    {
        let ghost start = self@;
        let ghost mut trace: Seq<GameView> = seq![self@];
        let ghost mut quits: Seq<bool> = Seq::empty();
        let mut quit = false;
        let mut i: usize = 0;
        while i < events.len()
            invariant
                i <= events.len(),
                self@.wf(),
                self@.score <= start.score,
                handled(start, events@.subrange(0, i as int), trace, quits),
                trace.last() == self@,
                quit == quits.contains(true),
                start.state == GameState::Paused && !events@.contains(InputEvent::TogglePause)
                    ==> self@ == start && self.generator() == old(self).generator(),
                i == 0 ==> self@ == start && self.generator() == old(self).generator(),
            decreases events.len() - i,
        {
            let ghost seen = trace;
            let ghost asked = quits;
            let q = self.key_down_event(events[i]);
            proof {
                trace = seen.push(self@);
                quits = asked.push(q);
                let upto = events@.subrange(0, i as int + 1);
                assert forall|j: int| 0 <= j < upto.len() implies event_outcome(
                    trace[j],
                    upto[j],
                    trace[j + 1],
                    #[trigger] quits[j],
                ) by {
                    if j < i {
                        assert(asked[j] == quits[j]);
                        assert(events@.subrange(0, i as int)[j] == upto[j]);
                    }
                }
                if asked.contains(true) {
                    let k = choose|k: int| 0 <= k < asked.len() && asked[k] == true;
                    assert(quits[k] == true);
                }
                if q {
                    assert(quits[i as int] == true);
                }
                if start.state == GameState::Paused && !events@.contains(InputEvent::TogglePause) {
                    assert(events@[i as int] != InputEvent::TogglePause);
                }
            }
            quit = quit || q;
            i += 1;
        }
        assert(events@.subrange(0, i as int) == events@);
        self.update(ArrowKeys::none(), elapsed);
        let shot = self.snapshot();
        proof {
            let draw = choose|draw: u32|
                draw < AUTOPILOT_DRAWS && #[trigger] stepped(
                    trace.last(),
                    ArrowKeys::released(),
                    elapsed as nat,
                    draw,
                    self@,
                );
            assert(simulated(start, events@, elapsed as nat, trace, quits, draw, self@));
        }
        (shot, quit)
    }

    /// What a renderer is to draw of the session as it stands.
    pub fn snapshot(&self) -> (shot: Snapshot)
        ensures
            shot.depicts(self@),
    {
        Snapshot {
            head: self.snake.head(),
            body: self.snake.body(),
            fruit: self.fruit_pos,
            score: self.score,
            state: self.state,
            show_grid: self.show_grid,
            show_fps: self.show_fps,
        }
    }

    /// The state of the session.
    pub fn state(&self) -> (state: GameState)
        ensures
            state == self@.state,
    {
        self.state
    }

    /// The score.
    pub fn score(&self) -> (score: u32)
        ensures
            score == self@.score,
    {
        self.score
    }

    /// The cell of the snake's head.
    pub fn head(&self) -> (p: GridPosition)
        ensures
            p == self@.snake.head,
    {
        self.snake.head()
    }

    /// The cells of the snake's body, from the head to the tip of the tail.
    pub fn body(&self) -> (cells: Vec<GridPosition>)
        ensures
            cells@ == self@.snake.body,
    {
        self.snake.body()
    }

    /// The cell of the fruit.
    pub fn fruit(&self) -> (p: GridPosition)
        ensures
            p == self@.fruit,
    {
        self.fruit_pos
    }

    /// The heading of the snake's last step.
    pub fn direction(&self) -> (dir: Direction)
        ensures
            dir == self@.dir,
    {
        self.dir
    }

    /// The heading asked for since the snake's last step, if any.
    pub fn pending_direction(&self) -> (dir: Option<Direction>)
        ensures
            dir == self@.dir_new,
    {
        self.dir_new
    }

    /// The time accumulated since the snake's last step, in nanoseconds.
    pub fn head_timer(&self) -> (t: u64)
        ensures
            t == self@.timer,
    {
        self.head_timer.accumulated()
    }

    /// Whether the grid lines are shown.
    pub fn show_grid(&self) -> (shown: bool)
        ensures
            shown == self@.show_grid,
    {
        self.show_grid
    }

    /// Whether the frame rate is shown.
    pub fn show_fps(&self) -> (shown: bool)
        ensures
            shown == self@.show_fps,
    {
        self.show_fps
    }

    /// Looks at the steering keys and notes the heading they ask for.
    pub fn process_input(&mut self, keys: ArrowKeys)
        ensures
            final(self)@ == old(self)@.polled(keys),
            final(self).generator() == old(self).generator(),
    {
        if keys.down && (self.snake.is_empty() || !self.dir.opposite(Direction::Down)) {
            self.dir_new = Some(Direction::Down);
        } else if keys.up && (self.snake.is_empty() || !self.dir.opposite(Direction::Up)) {
            self.dir_new = Some(Direction::Up);
        } else if keys.right && (self.snake.is_empty() || !self.dir.opposite(Direction::Right)) {
            self.dir_new = Some(Direction::Right);
        } else if keys.left && (self.snake.is_empty() || !self.dir.opposite(Direction::Left)) {
            self.dir_new = Some(Direction::Left);
        }
    }

    /// Notes the heading that the autopilot's draw `draw` selects, unless it
    /// selects none or one that doubles back.
    pub fn steer(&mut self, draw: u32)
        ensures
            final(self)@ == old(self)@.steered(draw),
            final(self).generator() == old(self).generator(),
    {
        let somedir = Direction::from_draw(draw);
        if let Some(dir_new) = somedir {
            if !dir_new.opposite(self.dir) {
                self.dir_new = somedir;
            }
        }
    }

    /// Lets the autopilot draw a number below `AUTOPILOT_DRAWS` and steer by
    /// it. Such a number selects Down, Left, Right or nothing, never Up.
    pub fn choose_random_direction(&mut self)
        ensures
            exists|draw: u32|
                draw < AUTOPILOT_DRAWS && final(self)@ == #[trigger] old(self)@.steered(draw),
    {
        let d: u32 = self.rng.rand_range(0..AUTOPILOT_DRAWS);
        self.steer(d);
        assert(d < AUTOPILOT_DRAWS && self@ == old(self)@.steered(d));
    }
}

} // verus!
