//! The game engine: a snake, a food cell and the state machine around them.
//!
//! The engine is driven from outside through three entry points:
//! [`Game::update`] once per frame, [`Game::key_pressed`] and
//! [`Game::mouse_pressed`] for input. Everything that these do to the game is
//! stated over [`GameView`], the engine's state without its clock reading.

use std::time::Instant;
use vstd::prelude::*;

use crate::constants::BUTTON_HEIGHT;
use crate::constants::BUTTON_LIFT;
use crate::constants::BUTTON_WIDTH;
use crate::constants::CELL_SIZE;
use crate::constants::UPDATE_INTERVAL_MS;
use crate::food::on_board;
use crate::food::random_cell;
use crate::geometry::Pointer;
use crate::geometry::Rect;
use crate::snake::Cell;
use crate::snake::Snake;
use crate::snake::SnakeView;

verus! {

/// Where the game stands between start, play and pause.
#[derive(Clone, Copy, Debug, PartialEq, Eq, Structural)]
pub enum GameState {
    NotStarted,
    Running,
    Paused,
}

/// The keys the engine knows. Every key without a meaning in the game is
/// `Other`.
#[derive(Clone, Copy, Debug, PartialEq, Eq, Structural)]
pub enum Key {
    Up,
    Down,
    Left,
    Right,
    Space,
    Other,
}

/// Why a game could not be created.
#[derive(Clone, Copy, Debug, PartialEq, Eq, Structural)]
pub enum BoardError {
    /// The board would have no cells: its width or its height is not positive.
    NonPositiveSize,
}

/// The game engine.
pub struct Game {
    /// The snake.
    pub snake: Snake,
    /// The cell that holds the food.
    pub food: Cell,
    /// Board width, in cells.
    pub width: i32,
    /// Board height, in cells.
    pub height: i32,
    /// Set when the snake has run into itself; cleared by a restart.
    pub game_over: bool,
    /// Clock reading at the last simulation step, start or resume.
    pub last_update: Instant,
    /// Minimum time between two simulation steps, in milliseconds.
    pub update_interval: u64,
    /// Where the game stands between start, play and pause.
    pub state: GameState,
    /// The start button, in pixels.
    pub start_button: Rect,
    /// The last pointer position the host has seen. The engine only stores it.
    pub mouse_pos: Pointer,
}

/// Mathematical model of a [`Game`]: all of it but the clock reading.
pub ghost struct GameView {
    pub snake: SnakeView,
    pub food: Cell,
    pub width: i32,
    pub height: i32,
    pub game_over: bool,
    pub update_interval: u64,
    pub state: GameState,
    pub start_button: Rect,
    pub mouse_pos: Pointer,
}

impl View for Game {
    type V = GameView;

    open spec fn view(&self) -> GameView {
        GameView {
            snake: self.snake@,
            food: self.food,
            width: self.width,
            height: self.height,
            game_over: self.game_over,
            update_interval: self.update_interval,
            state: self.state,
            start_button: self.start_button,
            mouse_pos: self.mouse_pos,
        }
    }
}

/// The cell in the middle of a `width` x `height` board.
pub open spec fn board_center(width: i32, height: i32) -> Cell {
    ((width / 2) as i32, (height / 2) as i32)
}

/// The start button of a `width` x `height` board: centred across the board,
/// its top edge [`BUTTON_LIFT`] pixels above the middle.
pub open spec fn start_button_for(width: i32, height: i32) -> Rect {
    Rect {
        x: ((width * CELL_SIZE - BUTTON_WIDTH) / 2) as i64,
        y: ((height * CELL_SIZE) / 2 - BUTTON_LIFT) as i64,
        width: BUTTON_WIDTH,
        height: BUTTON_HEIGHT,
    }
}

impl Key {
    /// The direction an arrow key asks for; `None` for any other key. Rows
    /// count downwards, so `Up` decreases the row.
    pub open spec fn direction(self) -> Option<Cell> {
        match self {
            Key::Up => Some((0i32, -1i32)),
            Key::Down => Some((0i32, 1i32)),
            Key::Left => Some((-1i32, 0i32)),
            Key::Right => Some((1i32, 0i32)),
            _ => None,
        }
    }
}

impl GameView {
    /// What every operation of the engine relies on: the board has cells and
    /// the snake has a body.
    pub open spec fn wf(self) -> bool {
        &&& self.width > 0
        &&& self.height > 0
        &&& self.snake.body.len() > 0
    }

    /// The game as it is created on a `width` x `height` board.
    pub open spec fn initial(width: i32, height: i32) -> GameView {
        GameView {
            snake: SnakeView::initial(),
            food: board_center(width, height),
            width,
            height,
            game_over: false,
            update_interval: UPDATE_INTERVAL_MS,
            state: GameState::NotStarted,
            start_button: start_button_for(width, height),
            mouse_pos: Pointer::origin(),
        }
    }

    /// Whether the simulation is live: running and not over.
    pub open spec fn live(self) -> bool {
        self.state == GameState::Running && !self.game_over
    }

    /// Whether a simulation step is due `elapsed_ms` milliseconds after the
    /// last one.
    pub open spec fn tick_due(self, elapsed_ms: int) -> bool {
        self.live() && elapsed_ms >= self.update_interval
    }

    /// Whether a step of the live game runs the snake into itself.
    pub open spec fn collides(self) -> bool {
        self.live() && self.snake.blocked(self.width, self.height)
    }

    /// Whether a step of the live game moves the head onto the food.
    pub open spec fn eats(self) -> bool {
        &&& self.live()
        &&& !self.snake.blocked(self.width, self.height)
        &&& self.snake.next_head(self.width, self.height) == self.food
    }

    /// One simulation step without new food. Nothing happens unless the game
    /// is live. A collision ends the game and leaves the snake as it was.
    /// Otherwise the snake moves, and grows if its head reached the food.
    pub open spec fn step(self) -> GameView {
        if !self.live() {
            self
        } else if self.collides() {
            GameView { game_over: true, ..self }
        } else if self.eats() {
            GameView { snake: self.snake.move_forward(self.width, self.height).grow(), ..self }
        } else {
            GameView { snake: self.snake.move_forward(self.width, self.height), ..self }
        }
    }

    /// One simulation step, with `fresh` as the food's new cell if the snake
    /// eats.
    pub open spec fn tick(self, fresh: Cell) -> GameView {
        if self.eats() {
            GameView { food: fresh, ..self.step() }
        } else {
            self.step()
        }
    }

    /// Whether `next` is what one tick can make of the game: the tick with
    /// the food of `next` as the fresh cell, where the food has either stayed
    /// or, the snake having eaten, gone to a cell of the board.
    pub open spec fn ticks_to(self, next: GameView) -> bool {
        &&& next == self.tick(next.food)
        &&& next.food == self.food || (self.eats() && on_board(next.food, self.width, self.height))
    }

    /// The game after a key press. Arrow keys turn the snake while the game
    /// runs, over or not. Space pauses a running game and resumes a paused
    /// one. Nothing else has an effect.
    pub open spec fn key_pressed(self, key: Key) -> GameView {
        match key.direction() {
            Some(dir) => {
                if self.state == GameState::Running {
                    GameView { snake: self.snake.change_direction(dir), ..self }
                } else {
                    self
                }
            },
            None => {
                if key != Key::Space {
                    self
                } else if self.state == GameState::Running {
                    GameView { state: GameState::Paused, ..self }
                } else if self.state == GameState::Paused {
                    GameView { state: GameState::Running, ..self }
                } else {
                    self
                }
            },
        }
    }

    /// Whether the game waits to be started or restarted. The start button
    /// is on offer exactly then.
    pub open spec fn awaits_start(self) -> bool {
        self.state == GameState::NotStarted || self.game_over
    }

    /// Whether a click at `pos` starts or restarts the game: it has to hit
    /// the start button while the game waits for that.
    pub open spec fn click_starts(self, pos: Pointer) -> bool {
        self.start_button.covers(pos) && self.awaits_start()
    }

    /// The game after a click at `pos`. A click that starts the game sets it
    /// running; if the game was over, it first puts the snake and the food
    /// back to where a new game has them and clears the flag.
    pub open spec fn mouse_pressed(self, pos: Pointer) -> GameView {
        if !self.click_starts(pos) {
            self
        } else if self.game_over {
            GameView {
                snake: SnakeView::initial(),
                food: board_center(self.width, self.height),
                game_over: false,
                state: GameState::Running,
                ..self
            }
        } else {
            GameView { state: GameState::Running, ..self }
        }
    }
}

impl Game {
    /// Creates a game on a board of `width` x `height` cells, not yet
    /// started. A board without cells is refused.
    pub fn new(width: i32, height: i32) -> (created: Result<Game, BoardError>)
        ensures
            created is Ok <==> width > 0 && height > 0,
            created matches Ok(game) ==> game@ == GameView::initial(width, height) && game@.wf(),
            created matches Err(e) ==> e == BoardError::NonPositiveSize,
    {
        if width <= 0 || height <= 0 {
            return Err(BoardError::NonPositiveSize);
        }
        let button_x: i64 = (width as i64 * CELL_SIZE - BUTTON_WIDTH) / 2;
        let button_y: i64 = (height as i64 * CELL_SIZE) / 2 - BUTTON_LIFT;
        Ok(
            Game {
                snake: Snake::new(),
                food: (width / 2, height / 2),
                width,
                height,
                game_over: false,
                last_update: Instant::now(),
                update_interval: UPDATE_INTERVAL_MS,
                state: GameState::NotStarted,
                start_button: Rect {
                    x: button_x,
                    y: button_y,
                    width: BUTTON_WIDTH,
                    height: BUTTON_HEIGHT,
                },
                mouse_pos: Pointer::at(0, 0),
            },
        )
    }

    /// Tells whether the game meets what `update`, `step` and
    /// `mouse_pressed` rely on. A game from [`Game::new`] does, and keeps
    /// doing so as long as only the engine changes it.
    pub fn well_formed(&self) -> (ok: bool)
        ensures
            ok == self@.wf(),
    {
        self.width > 0 && self.height > 0 && self.snake.body.len() > 0
    }

    /// Tells whether the game waits to be started or restarted, which is
    /// when the start button is to be shown.
    pub fn awaits_start(&self) -> (waiting: bool)
        ensures
            waiting == self@.awaits_start(),
    {
        self.state == GameState::NotStarted || self.game_over
    }

    /// Tells whether a simulation step is due `elapsed_ms` milliseconds
    /// after the last one: the game must be live and the interval over.
    pub fn tick_due(&self, elapsed_ms: u128) -> (due: bool)
        ensures
            due == self@.tick_due(elapsed_ms as int),
    {
        let interval: u128 = self.update_interval as u128;
        self.state == GameState::Running && !self.game_over && elapsed_ms >= interval
    }

    /// Runs one simulation step, whatever the clock says, and tells whether
    /// the snake ate. The food stays where it is: after `true` the caller
    /// owes the game a new food cell.
    pub fn step(&mut self) -> (ate: bool)
        requires
            old(self)@.wf(),
        ensures
            final(self)@ == old(self)@.step(),
            ate == old(self)@.eats(),
            old(self)@.collides() ==> final(self).game_over,
            final(self).last_update == old(self).last_update,
            final(self)@.wf(),
    {
        if self.state != GameState::Running || self.game_over {
            return false;
        }
        if !self.snake.move_forward(self.width, self.height) {
            self.game_over = true;
            return false;
        }
        let head = self.snake.head();
        if head.0 == self.food.0 && head.1 == self.food.1 {
            self.snake.grow();
            true
        } else {
            false
        }
    }

    /// Advances the game by at most one simulation step; meant to be called
    /// once per frame.
    ///
    /// Nothing happens unless the game is live and the update interval has
    /// passed since the last clock reading; then [`Game::update_after`] runs
    /// the tick. How much time has passed is for the clock to say, so the
    /// contract names both outcomes: nothing changed at all, or one tick
    /// took place. Where the clock has no say, the outcome is fixed: a game
    /// that is not live is left exactly as it was, and a live game with an
    /// update interval of zero ticks on every call.
    pub fn update(&mut self)
        requires
            old(self)@.wf(),
        ensures
            *final(self) == *old(self) || (old(self)@.live() && old(self)@.ticks_to(final(self)@)),
            !old(self)@.live() ==> *final(self) == *old(self),
            old(self)@.live() && old(self).update_interval == 0 ==> old(self)@.ticks_to(
                final(self)@,
            ),
            final(self)@.wf(),
    {
        if self.state != GameState::Running || self.game_over {
            return;
        }
        let elapsed_ms = self.last_update.elapsed().as_millis();
        self.update_after(elapsed_ms);
    }

    /// Advances the game as [`Game::update`] does when `elapsed_ms`
    /// milliseconds have passed since the last clock reading.
    ///
    /// If no tick is due, nothing changes. Otherwise the clock reading is
    /// renewed and the game steps; if the snake eats, the food moves to a
    /// random cell of the board, which the snake may occupy.
    pub fn update_after(&mut self, elapsed_ms: u128)
        requires
            old(self)@.wf(),
        ensures
            !old(self)@.tick_due(elapsed_ms as int) ==> *final(self) == *old(self),
            old(self)@.tick_due(elapsed_ms as int) ==> old(self)@.ticks_to(final(self)@),
            final(self)@.wf(),
    {
        if !self.tick_due(elapsed_ms) {
            return;
        }
        self.last_update = Instant::now();
        if self.step() {
            self.food = random_cell(self.width, self.height);
        }
    }

    /// Handles a key press: arrow keys turn the snake, Space pauses and
    /// resumes. Resuming renews the clock reading, so that the pause does
    /// not count towards the next step.
    pub fn key_pressed(&mut self, key: Key)
        ensures
            final(self)@ == old(self)@.key_pressed(key),
            !(key == Key::Space && old(self).state == GameState::Paused)
                ==> final(self).last_update == old(self).last_update,
    {
        match key {
            Key::Up => {
                if self.state == GameState::Running {
                    self.snake.change_direction((0, -1))
                }
            },
            Key::Down => {
                if self.state == GameState::Running {
                    self.snake.change_direction((0, 1))
                }
            },
            Key::Left => {
                if self.state == GameState::Running {
                    self.snake.change_direction((-1, 0))
                }
            },
            Key::Right => {
                if self.state == GameState::Running {
                    self.snake.change_direction((1, 0))
                }
            },
            Key::Space => {
                if self.state == GameState::Running {
                    self.state = GameState::Paused;
                } else if self.state == GameState::Paused {
                    self.state = GameState::Running;
                    self.last_update = Instant::now();
                }
            },
            Key::Other => {},
        }
    }

    /// Handles a click at `pos`: on the start button it starts a game that
    /// has not started and restarts one that is over; anywhere else, or
    /// during play, it does nothing. Starting renews the clock reading.
    pub fn mouse_pressed(&mut self, pos: Pointer)
        requires
            old(self)@.wf(),
        ensures
            final(self)@ == old(self)@.mouse_pressed(pos),
            !old(self)@.click_starts(pos) ==> *final(self) == *old(self),
            final(self)@.wf(),
    {
        if self.start_button.contains(pos) && self.awaits_start() {
            if self.game_over {
                self.snake = Snake::new();
                self.food = (self.width / 2, self.height / 2);
                self.game_over = false;
            }
            self.state = GameState::Running;
            self.last_update = Instant::now();
        }
    }
}

} // verus!
