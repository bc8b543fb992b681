//! The game lifecycle: waiting, playing, paused, victory and defeat, the
//! score derived from the traveled distance, and the camera scroll that is
//! gated on the playing state.

use vstd::prelude::*;

use crate::camera::{Coords2d, Moveable};
use crate::constants::{GAME_VICTORY_SCORE, PLAYER_X_OFFSET};
use crate::player::Player;
use crate::timer::Timer;

verus! {

/// Milliseconds between two one-column advances of the main camera.
pub const CAMERA_SCROLL_WAIT_TIME_MILLIS: u64 = 100;

/// The coarse mode of the game.
#[derive(Clone, Copy, Debug, PartialEq, Eq, Structural)]
pub enum GameState {
    WaitingToStart,
    Playing,
    Paused,
    Victory,
    Defeat,
}

/// The session-wide game record: score, lifecycle state, and the timer
/// that paces the camera scroll.
#[derive(Clone, Copy, Debug)]
pub struct GameManager {
    pub camera_scroll_timer: Timer,
    pub score: u64,
    pub game_state: GameState,
}

impl GameManager {
    /// Whether the game has not been started yet.
    pub fn is_waiting_to_start(&self) -> (r: bool)
        ensures
            r == (self.game_state == GameState::WaitingToStart),
    {
        self.game_state == GameState::WaitingToStart
    }

    /// Whether the game is actively playing.
    pub fn is_playing(&self) -> (r: bool)
        ensures
            r == (self.game_state == GameState::Playing),
    {
        self.game_state == GameState::Playing
    }

    /// Whether the game is paused.
    pub fn is_paused(&self) -> (r: bool)
        ensures
            r == (self.game_state == GameState::Paused),
    {
        self.game_state == GameState::Paused
    }

    /// Whether the game ended in victory.
    pub fn did_win(&self) -> (r: bool)
        ensures
            r == (self.game_state == GameState::Victory),
    {
        self.game_state == GameState::Victory
    }

    /// Whether the game ended in defeat.
    pub fn did_lose(&self) -> (r: bool)
        ensures
            r == (self.game_state == GameState::Defeat),
    {
        self.game_state == GameState::Defeat
    }

    /// Game over is when the game state is either Victory or Defeat.
    pub fn is_game_over(&self) -> (r: bool)
        ensures
            r == (self.game_state == GameState::Victory || self.game_state == GameState::Defeat),
    {
        match self.game_state {
            GameState::Victory | GameState::Defeat => true,
            _ => false,
        }
    }
}

/// The lifecycle systems: scroll, score, and the state transitions.
pub struct GameManagerSystemsGenerator {}

impl GameManagerSystemsGenerator {
    /// A fresh session: no score, waiting for the first key, scroll timer
    /// running.
    pub fn make_game_manager() -> (gm: GameManager)
        ensures
            gm.camera_scroll_timer == (Timer { elapsed_ms: 0, running: true }),
            gm.score == 0,
            gm.game_state == GameState::WaitingToStart,
    {
        GameManager {
            camera_scroll_timer: Timer::start_new(),
            score: 0,
            game_state: GameState::WaitingToStart,
        }
    }

    /// The movement pacing attached to the main camera: one step every
    /// [`CAMERA_SCROLL_WAIT_TIME_MILLIS`].
    pub fn augment_main_cam() -> (m: Moveable)
        ensures
            m.move_timer == (Timer { elapsed_ms: 0, running: true }),
            m.move_interval == CAMERA_SCROLL_WAIT_TIME_MILLIS,
    {
        Moveable { move_timer: Timer::start_new(), move_interval: CAMERA_SCROLL_WAIT_TIME_MILLIS }
    }

    /// Advances the camera one column rightward while playing, each time
    /// the camera's movement pacing has waited out its interval; the pacing
    /// timer restarts only when the step is taken.
    pub fn scroll_camera(
        game_manager: &GameManager,
        camera_position: &mut Coords2d,
        camera_moveable: &mut Moveable,
    )
        requires
            old(camera_position).x < i64::MAX,
        ensures
            ({
                let fires = old(camera_moveable).move_timer.elapsed_ms >= old(
                    camera_moveable,
                ).move_interval && game_manager.game_state == GameState::Playing;
                &&& fires ==> *final(camera_position) == (Coords2d {
                    x: (old(camera_position).x + 1) as i64,
                    ..*old(camera_position)
                }) && *final(camera_moveable) == (Moveable {
                    move_timer: Timer { elapsed_ms: 0, running: true },
                    ..*old(camera_moveable)
                })
                &&& !fires ==> *final(camera_position) == *old(camera_position)
                    && *final(camera_moveable) == *old(camera_moveable)
            }),
    {
        if camera_moveable.move_timer.elapsed_millis() >= camera_moveable.move_interval
            && game_manager.is_playing() {
            camera_position.x = camera_position.x + 1;
            camera_moveable.move_timer.restart();
        }
    }

    /// The score is the traveled distance less the player's fixed
    /// on-screen offset, so that it starts at zero.
    pub fn update_score(game_manager: &mut GameManager, player: &Player)
        requires
            player.distance_traveled >= PLAYER_X_OFFSET,
        ensures
            *final(game_manager) == (GameManager {
                score: (player.distance_traveled - PLAYER_X_OFFSET) as u64,
                ..*old(game_manager)
            }),
    {
        game_manager.score = player.distance_traveled - (PLAYER_X_OFFSET as u64);
    }

    /// Any key starts the game from the waiting state.
    pub fn handle_press_key_to_start(game_manager: &mut GameManager, any_key_down: bool)
        ensures
            old(game_manager).game_state == GameState::WaitingToStart && any_key_down
                ==> *final(game_manager) == (GameManager {
                game_state: GameState::Playing,
                ..*old(game_manager)
            }),
            !(old(game_manager).game_state == GameState::WaitingToStart && any_key_down)
                ==> *final(game_manager) == *old(game_manager),
    {
        if game_manager.is_waiting_to_start() && any_key_down {
            game_manager.game_state = GameState::Playing;
        }
    }

    /// Any key after a victory or defeat returns to playing and raises the
    /// restart event that every other component resets on.
    pub fn handle_press_key_to_restart(game_manager: &mut GameManager, any_key_down: bool) -> (
        restart: bool)
        ensures
            restart == ((old(game_manager).game_state == GameState::Victory || old(
                game_manager,
            ).game_state == GameState::Defeat) && any_key_down),
            restart ==> *final(game_manager) == (GameManager {
                game_state: GameState::Playing,
                ..*old(game_manager)
            }),
            !restart ==> *final(game_manager) == *old(game_manager),
    {
        if game_manager.is_game_over() && any_key_down {
            game_manager.game_state = GameState::Playing;
            true
        } else {
            false
        }
    }

    /// Escape toggles between playing and paused and raises the
    /// pause-state-change event.
    pub fn handle_toggle_pause(game_manager: &mut GameManager, escape_down: bool) -> (changed:
        bool)
        ensures
            changed == ((old(game_manager).game_state == GameState::Playing || old(
                game_manager,
            ).game_state == GameState::Paused) && escape_down),
            changed && old(game_manager).game_state == GameState::Paused ==> *final(game_manager)
                == (GameManager { game_state: GameState::Playing, ..*old(game_manager) }),
            changed && old(game_manager).game_state == GameState::Playing ==> *final(game_manager)
                == (GameManager { game_state: GameState::Paused, ..*old(game_manager) }),
            !changed ==> *final(game_manager) == *old(game_manager),
    {
        if (game_manager.is_playing() || game_manager.is_paused()) && escape_down {
            game_manager.game_state = if game_manager.is_paused() {
                GameState::Playing
            } else {
                GameState::Paused
            };
            true
        } else {
            false
        }
    }

    /// While playing, a score at or above [`GAME_VICTORY_SCORE`] ends the
    /// game in victory and raises the victory event.
    pub fn trigger_victory(game_manager: &mut GameManager) -> (event: bool)
        ensures
            event == (old(game_manager).game_state == GameState::Playing && old(
                game_manager,
            ).score >= GAME_VICTORY_SCORE),
            event ==> *final(game_manager) == (GameManager {
                game_state: GameState::Victory,
                ..*old(game_manager)
            }),
            !event ==> *final(game_manager) == *old(game_manager),
    {
        if game_manager.is_playing() && game_manager.score >= GAME_VICTORY_SCORE {
            game_manager.game_state = GameState::Victory;
            true
        } else {
            false
        }
    }

    /// While playing, the player's lives reaching zero ends the game in
    /// defeat and raises the defeat event.
    pub fn trigger_defeat(game_manager: &mut GameManager, player_lives: u8) -> (event: bool)
        ensures
            event == (old(game_manager).game_state == GameState::Playing && player_lives == 0),
            event ==> *final(game_manager) == (GameManager {
                game_state: GameState::Defeat,
                ..*old(game_manager)
            }),
            !event ==> *final(game_manager) == *old(game_manager),
    {
        if game_manager.is_playing() && player_lives == 0 {
            game_manager.game_state = GameState::Defeat;
            true
        } else {
            false
        }
    }

    /// The restart event: back to playing with a zero score, and the
    /// camera returned to the world origin (its height is kept).
    pub fn handle_restart_game(game_manager: &mut GameManager, camera_position: &mut Coords2d)
        ensures
            *final(game_manager) == (GameManager {
                game_state: GameState::Playing,
                score: 0,
                ..*old(game_manager)
            }),
            *final(camera_position) == (Coords2d { x: 0, ..*old(camera_position) }),
    {
        game_manager.game_state = GameState::Playing;
        game_manager.score = 0;
        camera_position.x = 0;
    }
}

} // verus!
