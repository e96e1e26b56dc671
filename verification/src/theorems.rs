//! What holds of the engine over any course of play.
//!
//! Every statement here is about the models [`SnakeView`] and [`GameView`],
//! the terms in which the engine's operations are specified, and is proved
//! from the definitions of their transitions.

use vstd::prelude::*;

use crate::food::on_board;
use crate::game::GameState;
use crate::game::GameView;
use crate::game::Key;
use crate::geometry::Pointer;
use crate::snake::Cell;
use crate::snake::SnakeView;

verus! {

/// Something that happens to a game. An `update` that comes before its time,
/// or while the game is not live, changes nothing and is no event.
pub ghost enum Event {
    /// An `update` that runs a simulation step; `fresh` is the cell drawn for
    /// the food, used if the snake eats.
    Tick { fresh: Cell },
    /// A key press.
    KeyPressed { key: Key },
    /// A click.
    MousePressed { pos: Pointer },
}

/// Whether `dir` is one of the four unit steps along an axis.
pub open spec fn unit_direction(dir: Cell) -> bool {
    ||| dir == (0i32, -1i32)
    ||| dir == (0i32, 1i32)
    ||| dir == (-1i32, 0i32)
    ||| dir == (1i32, 0i32)
}

/// Whether no cell occurs twice in `body`, but for the one repetition that
/// growing leaves behind: the tail cell, held by the first two elements.
pub open spec fn overlap_free(body: Seq<Cell>) -> bool {
    forall|i: int, j: int|
        0 <= i < j < body.len() && #[trigger] body[i] == #[trigger] body[j] ==> i == 0 && j == 1
}

/// Whether no cell occurs twice in `body`.
pub open spec fn distinct(body: Seq<Cell>) -> bool {
    forall|i: int, j: int|
        0 <= i < j < body.len() ==> #[trigger] body[i] != #[trigger] body[j]
}

impl GameView {
    /// The game after `event`.
    pub open spec fn after(self, event: Event) -> GameView {
        match event {
            Event::Tick { fresh } => self.tick(fresh),
            Event::KeyPressed { key } => self.key_pressed(key),
            Event::MousePressed { pos } => self.mouse_pressed(pos),
        }
    }

    /// The game after all of `events`, in order.
    pub open spec fn after_all(self, events: Seq<Event>) -> GameView
        decreases events.len(),
    {
        if events.len() == 0 {
            self
        } else {
            self.after_all(events.drop_last()).after(events.last())
        }
    }

    /// What holds of a game from its creation on, whatever happens to it:
    /// the board has cells, the snake has at least its three first cells and
    /// does not overlap itself, it heads along an axis, the food lies on the
    /// board, and a game that has not started is not over.
    pub open spec fn sound(self) -> bool {
        &&& self.width > 0
        &&& self.height > 0
        &&& self.snake.body.len() >= 3
        &&& overlap_free(self.snake.body)
        &&& unit_direction(self.snake.direction)
        &&& on_board(self.food, self.width, self.height)
        &&& self.game_over ==> self.state != GameState::NotStarted
    }
}

impl Event {
    /// Whether the event can occur on a `width` x `height` board: new food
    /// is always drawn from the board.
    pub open spec fn fits(self, width: i32, height: i32) -> bool {
        self matches Event::Tick { fresh } ==> on_board(fresh, width, height)
    }

    /// Whether the event is a click that hits the start button of `game`.
    pub open spec fn hits_start_button(self, game: GameView) -> bool {
        self matches Event::MousePressed { pos } && game.start_button.covers(pos)
    }
}

/// The board is a torus. A step that is not blocked puts the head on the
/// cell whose coordinates are those of the old head plus the direction, each
/// reduced to its non-negative remainder by the board's size on that axis;
/// so the new head lies on the board.
pub proof fn lemma_head_wraps(snake: SnakeView, width: i32, height: i32)
    requires
        snake.body.len() > 0,
        width > 0,
        height > 0,
        !snake.blocked(width, height),
    ensures
        snake.move_forward(width, height).head().0
            == (snake.head().0 + snake.direction.0) % (width as int),
        snake.move_forward(width, height).head().1
            == (snake.head().1 + snake.direction.1) % (height as int),
        on_board(snake.move_forward(width, height).head(), width, height),
        snake.move_forward(width, height).body.len() == snake.body.len(),
{
}

/// Every tick of a game that moves the snake leaves the head on the board,
/// on the cell that wrapping the old head plus the direction gives.
pub proof fn lemma_tick_wraps_head(game: GameView, fresh: Cell)
    requires
        game.wf(),
        game.live(),
        !game.collides(),
    ensures
        game.tick(fresh).snake.head().0
            == (game.snake.head().0 + game.snake.direction.0) % (game.width as int),
        game.tick(fresh).snake.head().1
            == (game.snake.head().1 + game.snake.direction.1) % (game.height as int),
        on_board(game.tick(fresh).snake.head(), game.width, game.height),
{
    lemma_head_wraps(game.snake, game.width, game.height);
}

/// The snake never turns back on itself: a request for the exact opposite
/// of its direction leaves the direction as it is, and every other request,
/// that for the present direction included, is taken. The body stays.
pub proof fn lemma_no_reversal(snake: SnakeView, new_dir: Cell)
    ensures
        (new_dir.0 == -snake.direction.0 && new_dir.1 == -snake.direction.1)
            ==> snake.change_direction(new_dir).direction == snake.direction,
        !(new_dir.0 == -snake.direction.0 && new_dir.1 == -snake.direction.1)
            ==> snake.change_direction(new_dir).direction == new_dir,
        snake.change_direction(new_dir).body == snake.body,
{
}

/// Growth shows at once: the tick on which the snake eats lengthens the
/// body by one cell, a copy of the tail in front of it, and leaves the game
/// live.
pub proof fn lemma_eating_grows_at_once(game: GameView, fresh: Cell)
    requires
        game.wf(),
        game.eats(),
    ensures
        game.tick(fresh).snake.body.len() == game.snake.body.len() + 1,
        game.tick(fresh).snake.body[0] == game.tick(fresh).snake.body[1],
        game.tick(fresh).food == fresh,
        game.tick(fresh).live(),
{
}

/// Growth is settled one tick later. After a tick on which the snake eats,
/// the next tick leaves the length where the first put it, one above what
/// it was, unless the snake eats again on it: if the snake moves, the copy
/// of the tail is what the move drops.
pub proof fn lemma_growth_delay(game: GameView, fresh: Cell, later: Cell)
    requires
        game.wf(),
        game.eats(),
        !game.tick(fresh).eats(),
    ensures
        game.tick(fresh).snake.body.len() == game.snake.body.len() + 1,
        game.tick(fresh).tick(later).snake.body.len() == game.tick(fresh).snake.body.len(),
        !game.tick(fresh).collides() ==> game.tick(fresh).tick(later).snake.body.drop_last()
            == game.tick(fresh).snake.body.drop_first(),
{
    let first = game.tick(fresh);
    if !first.collides() {
        assert(first.tick(later).snake.body.drop_last() =~= first.snake.body.drop_first());
    }
}

/// A collision ends the game on the spot: the flag is set and nothing else
/// changes, the state included.
pub proof fn lemma_collision_ends_game(game: GameView, fresh: Cell)
    requires
        game.collides(),
    ensures
        game.tick(fresh) == (GameView { game_over: true, ..game }),
{
}

/// Once the game is over, the board is frozen until a restart: whatever
/// ticks, key presses and clicks follow, as long as no click hits the start
/// button, the body and the food stay as they are and the game stays over.
pub proof fn lemma_game_over_freezes_board(game: GameView, events: Seq<Event>)
    requires
        game.game_over,
        forall|i: int| 0 <= i < events.len() ==> !(#[trigger] events[i]).hits_start_button(game),
    ensures
        game.after_all(events).game_over,
        game.after_all(events).snake.body == game.snake.body,
        game.after_all(events).food == game.food,
        game.after_all(events).start_button == game.start_button,
    decreases events.len(),
{
    if events.len() > 0 {
        let before = events.drop_last();
        assert forall|i: int| 0 <= i < before.len() implies !(#[trigger] before[i])
            .hits_start_button(game) by {
            assert(before[i] == events[i]);
        }
        lemma_game_over_freezes_board(game, before);
    }
}

/// The click that the freeze waits for: on the start button of a game that
/// is over, it puts the snake and the food back to where a new game has them
/// and sets the game running.
pub proof fn lemma_restart_renews_board(game: GameView, pos: Pointer)
    requires
        game.game_over,
        game.start_button.covers(pos),
    ensures
        game.mouse_pressed(pos).snake == SnakeView::initial(),
        game.mouse_pressed(pos).food == GameView::initial(game.width, game.height).food,
        game.mouse_pressed(pos).live(),
{
}

/// Space toggles between pause and play: from a paused game one press gives
/// a running game, and a second press gives back the paused game, unchanged.
pub proof fn lemma_pause_toggles(game: GameView)
    requires
        game.state == GameState::Paused,
    ensures
        game.key_pressed(Key::Space).state == GameState::Running,
        game.key_pressed(Key::Space).key_pressed(Key::Space).state == GameState::Paused,
        game.key_pressed(Key::Space).key_pressed(Key::Space) == game,
{
}

/// The flag that ends the game has one way up and one way down: only a
/// tick on which the snake collides sets it, and only a click on the start
/// button clears it.
pub proof fn lemma_game_over_changes(game: GameView, event: Event)
    ensures
        !game.game_over && game.after(event).game_over ==> event is Tick && game.collides(),
        game.game_over && !game.after(event).game_over ==> event.hits_start_button(game),
{
}

/// The states succeed each other in one order. No event leads back to the
/// state before the start, and only a click on the start button leads out
/// of it. Ticks leave the state alone, and so does every key but Space.
pub proof fn lemma_state_changes(game: GameView, event: Event)
    ensures
        game.after(event).state == GameState::NotStarted ==> game.state == GameState::NotStarted,
        game.state == GameState::NotStarted && game.after(event).state != GameState::NotStarted
            ==> event.hits_start_button(game) && game.after(event).state == GameState::Running,
        game.after(event).state != game.state ==> event.hits_start_button(game) || event
            == (Event::KeyPressed { key: Key::Space }),
{
}

/// The board's size, the start button, the update interval and the stored
/// pointer position are not the engine's to change: no course of play
/// touches them.
pub proof fn lemma_fixed_parts_stay(game: GameView, events: Seq<Event>)
    ensures
        game.after_all(events).width == game.width,
        game.after_all(events).height == game.height,
        game.after_all(events).start_button == game.start_button,
        game.after_all(events).update_interval == game.update_interval,
        game.after_all(events).mouse_pos == game.mouse_pos,
    decreases events.len(),
{
    if events.len() > 0 {
        lemma_fixed_parts_stay(game, events.drop_last());
    }
}

/// A new game is sound.
pub proof fn lemma_initial_sound(width: i32, height: i32)
    requires
        width > 0,
        height > 0,
    ensures
        GameView::initial(width, height).sound(),
        GameView::initial(width, height).wf(),
        distinct(GameView::initial(width, height).snake.body),
{
}

/// Soundness lasts: an event that fits the board takes a sound game to a
/// sound game.
pub proof fn lemma_event_keeps_sound(game: GameView, event: Event)
    requires
        game.sound(),
        event.fits(game.width, game.height),
    ensures
        game.after(event).sound(),
        game.after(event).width == game.width,
        game.after(event).height == game.height,
{
    match event {
        Event::Tick { fresh } => {
            if game.live() && !game.collides() {
                lemma_move_clears_overlap(game.snake, game.width, game.height);
                if game.eats() {
                    lemma_grow_repeats_tail_only(game.snake.move_forward(game.width, game.height));
                }
            }
        },
        Event::KeyPressed { key } => {},
        Event::MousePressed { pos } => {},
    }
}

/// Soundness lasts over any course of play.
pub proof fn lemma_play_keeps_sound(game: GameView, events: Seq<Event>)
    requires
        game.sound(),
        forall|i: int|
            0 <= i < events.len() ==> (#[trigger] events[i]).fits(game.width, game.height),
    ensures
        game.after_all(events).sound(),
        game.after_all(events).width == game.width,
        game.after_all(events).height == game.height,
    decreases events.len(),
{
    if events.len() > 0 {
        let before = events.drop_last();
        assert forall|i: int| 0 <= i < before.len() implies (#[trigger] before[i])
            .fits(game.width, game.height) by {
            assert(before[i] == events[i]);
        }
        lemma_play_keeps_sound(game, before);
        lemma_event_keeps_sound(game.after_all(before), events.last());
    }
}

/// A step that is not blocked leaves a body without any repetition: the
/// move drops the one cell that may have been repeated and adds a cell that
/// the body did not hold.
pub proof fn lemma_move_clears_overlap(snake: SnakeView, width: i32, height: i32)
    requires
        snake.body.len() > 0,
        overlap_free(snake.body),
        !snake.blocked(width, height),
    ensures
        distinct(snake.move_forward(width, height).body),
{
    let next = snake.next_head(width, height);
    let moved = snake.move_forward(width, height).body;
    assert forall|i: int, j: int| 0 <= i < j < moved.len() implies #[trigger] moved[i]
        != #[trigger] moved[j] by {
        assert(moved[i] == snake.body[i + 1]);
        if j < moved.len() - 1 {
            assert(moved[j] == snake.body[j + 1]);
        } else {
            assert(moved[j] == next);
            assert(snake.body.contains(snake.body[i + 1]));
        }
    }
}

/// Growing a body without repetition repeats the tail cell and nothing
/// else.
pub proof fn lemma_grow_repeats_tail_only(snake: SnakeView)
    requires
        snake.body.len() > 0,
        distinct(snake.body),
    ensures
        overlap_free(snake.grow().body),
        snake.grow().body[0] == snake.grow().body[1],
{
    let grown = snake.grow().body;
    assert forall|i: int, j: int|
        0 <= i < j < grown.len() && #[trigger] grown[i] == #[trigger] grown[j]
        implies i == 0 && j == 1 by {
        assert(grown[j] == snake.body[j - 1]);
        if i == 0 {
            assert(grown[i] == snake.body[0]);
        } else {
            assert(grown[i] == snake.body[i - 1]);
        }
    }
}

} // verus!
