//! The game proper: a three-mode machine (menu, playing, dead) over one
//! player, one live wall and a score. Each frame the host hands in the
//! elapsed milliseconds and at most one key command; the machine steps and
//! returns a plain description of the screen to draw.

use vstd::prelude::*;
use crate::obstacle::{hit_spec, size_for, Obstacle};
use crate::player::{dy_after, x_after, y_after, Player, PLAYER_DX, VELOCITY_FLAP};
use crate::units::{lemma_round_units_bounds, round_units, MAX_FRAME_MS, SCALE};

verus! {

/// Screen width in cells.
pub const SCREEN_WIDTH: i64 = 80;

/// Screen height in cells.
pub const SCREEN_HEIGHT: i64 = 50;

/// The column the player is always drawn at; the world scrolls past it.
pub const PLAYER_OFFSET: i64 = 5;

/// Upper bound on a wall's world column: where a wall can sit when the
/// player's position has reached its saturation bound.
pub const OBSTACLE_X_LIMIT: i64 = 1_000_000_075;

/// Which screen the game is on.
#[derive(Clone, Copy, Debug, PartialEq, Eq, Structural)]
pub enum GameMode {
    Menu,
    Playing,
    End,
}

/// The one key command a frame may carry.
#[derive(Clone, Copy, Debug, PartialEq, Eq, Structural)]
pub enum Command {
    Flap,
    Play,
    Quit,
}

/// What a playing frame draws: the player's row (at column `PLAYER_OFFSET`),
/// the wall's screen column with its two solid runs — rows
/// `0 .. wall_top_end` and `wall_bottom_start .. SCREEN_HEIGHT` — and the
/// score to print.
#[derive(Clone, Copy, Debug, PartialEq, Eq, Structural)]
pub struct PlayFrame {
    pub player_row: i64,
    pub wall_screen_x: i64,
    pub wall_top_end: i64,
    pub wall_bottom_start: i64,
    pub score: i64,
}

/// What one tick asks the host to show, and whether to quit.
#[derive(Clone, Copy, Debug, PartialEq, Eq, Structural)]
pub enum TickOutput {
    MenuScreen { quit: bool },
    PlayScreen { frame: PlayFrame },
    DeadScreen { score: i64, quit: bool },
}

/// The whole game: one player, one live wall, the score and the mode.
#[derive(Clone, Copy, Debug, PartialEq, Eq, Structural)]
pub struct State {
    pub player: Player,
    pub obstacle: Obstacle,
    pub mode: GameMode,
    pub score: i64,
}

/// The player a fresh game starts with: at the drawn column, mid-screen,
/// moving right, not falling yet.
pub open spec fn initial_player() -> Player {
    Player { x: 5_000i64, y: 25_000i64, dx: PLAYER_DX, dy: 0i64 }
}

/// A freshly initialised board: initial player, score 0, first wall one
/// screen ahead with the widest gap.
pub open spec fn fresh_board(s: State) -> bool {
    &&& s.player == initial_player()
    &&& s.score == 0
    &&& s.obstacle.x == SCREEN_WIDTH
    &&& s.obstacle.size == size_for(0)
    &&& s.obstacle.wf()
}

/// What a menu-like screen (main menu or death screen) does with a key:
/// `Play` reinitialises the board and starts playing, `Quit` asks the host to
/// stop, anything else leaves the state alone.
pub open spec fn menu_post(pre: State, post: State, key: Option<Command>, quit: bool) -> bool {
    &&& quit == (key == Some(Command::Quit))
    &&& (key == Some(Command::Play) ==> fresh_board(post) && post.mode == GameMode::Playing)
    &&& (key != Some(Command::Play) ==> post == pre)
}

/// Everything one playing step does, given the elapsed milliseconds `d` and
/// whether a flap was pressed: the player integrates (gravity, then motion,
/// then the flap overwrite), the frame describes the pre-replacement wall
/// against the post-step player, a pass scores once and spawns the next wall
/// a screen ahead, and the mode falls to `End` exactly on leaving the screen
/// bottom or colliding.
pub open spec fn play_post(pre: State, post: State, frame: PlayFrame, d: int, flap: bool) -> bool {
    let dy2 = dy_after(pre.player.dy as int, d);
    let y2 = y_after(pre.player.y as int, dy2, d);
    let x2 = x_after(pre.player.x as int, pre.player.dx as int, d);
    let wx = round_units(x2);
    let row = round_units(y2);
    let passed = wx > pre.obstacle.x + PLAYER_OFFSET;
    &&& post.player.x == x2
    &&& post.player.y == y2
    &&& post.player.dx == pre.player.dx
    &&& post.player.dy == (if flap { VELOCITY_FLAP as int } else { dy2 })
    &&& frame.player_row == row
    &&& frame.wall_screen_x == pre.obstacle.x - wx + PLAYER_OFFSET
    &&& frame.wall_top_end == pre.obstacle.gap_y - pre.obstacle.size / 2
    &&& frame.wall_bottom_start == pre.obstacle.gap_y + pre.obstacle.size / 2
    &&& frame.score == pre.score
    &&& (if passed {
        &&& post.score == pre.score + 1
        &&& post.obstacle.x == wx + SCREEN_WIDTH - PLAYER_OFFSET
        &&& post.obstacle.size == size_for(pre.score + 1)
        &&& post.obstacle.wf()
    } else {
        &&& post.obstacle == pre.obstacle
        &&& post.score == pre.score
    })
    &&& post.mode == (if row > SCREEN_HEIGHT || hit_spec(post.obstacle, post.player) {
        GameMode::End
    } else {
        GameMode::Playing
    })
}

/// A pass scores exactly once. One playing step moves the score by 0 or 1;
/// it moves by 1 exactly when the stepped player has passed the old wall; and
/// right after a pass the replacement wall is not itself passed, so the same
/// wall can never be scored twice.
pub proof fn lemma_pass_scores_once(pre: State, post: State, frame: PlayFrame, d: int, flap: bool)
    requires
        play_post(pre, post, frame, d, flap),
    ensures
        post.score == pre.score || post.score == pre.score + 1,
        (post.score == pre.score + 1) <==> round_units(post.player.x as int)
            > pre.obstacle.x + PLAYER_OFFSET,
        post.score == pre.score + 1 ==> round_units(post.player.x as int)
            <= post.obstacle.x + PLAYER_OFFSET,
        post.score == pre.score ==> post.obstacle == pre.obstacle,
{
}

impl State {
    /// Player and wall well formed, score non-negative, and the live wall far
    /// enough right that each of the `score` passes so far moved it a screen
    /// ahead — which bounds the score itself.
    pub open spec fn wf(self) -> bool {
        &&& self.player.wf()
        &&& self.obstacle.wf()
        &&& 0 <= self.score
        &&& (SCREEN_WIDTH - PLAYER_OFFSET) * self.score + PLAYER_OFFSET <= self.obstacle.x
        &&& self.obstacle.x <= OBSTACLE_X_LIMIT
    }

    /// A fresh game, sitting on the main menu.
    pub fn new() -> (s: State)
        ensures
            fresh_board(s),
            s.mode == GameMode::Menu,
            s.wf(),
    {
        State {
            player: Player::new(PLAYER_OFFSET * SCALE, (SCREEN_HEIGHT * SCALE) / 2),
            obstacle: Obstacle::new(SCREEN_WIDTH, 0),
            mode: GameMode::Menu,
            score: 0,
        }
    }

    /// Reinitialise everything and start playing — from any prior mode: the
    /// score returns to 0 and the mode to `Playing`.
    pub fn restart(&mut self)
        ensures
            fresh_board(*final(self)),
            final(self).mode == GameMode::Playing,
            final(self).wf(),
    {
        self.player = Player::new(PLAYER_OFFSET * SCALE, (SCREEN_HEIGHT * SCALE) / 2);
        self.obstacle = Obstacle::new(SCREEN_WIDTH, 0);
        self.score = 0;
        self.mode = GameMode::Playing;
    }

    /// One playing step: integrate the player over `delta_ms`, apply a
    /// pending flap, describe the frame to draw, score a pass, and fall to
    /// `End` on leaving the screen or colliding.
    pub fn play(&mut self, delta_ms: u64, flap: bool) -> (frame: PlayFrame)
        requires
            old(self).wf(),
            old(self).mode == GameMode::Playing,
            delta_ms <= MAX_FRAME_MS,
        ensures
            play_post(*old(self), *final(self), frame, delta_ms as int, flap),
            final(self).wf(),
    {
        self.player.update(delta_ms);
        if flap {
            self.player.flap();
        }
        proof {
            lemma_round_units_bounds(self.player.x as int);
            lemma_round_units_bounds(self.player.y as int);
        }
        let wx = self.player.world_x();
        let row = self.player.screen_y();
        let half_size = self.obstacle.size / 2;
        let frame = PlayFrame {
            player_row: row,
            wall_screen_x: self.obstacle.x - wx + PLAYER_OFFSET,
            wall_top_end: self.obstacle.gap_y - half_size,
            wall_bottom_start: self.obstacle.gap_y + half_size,
            score: self.score,
        };
        if wx > self.obstacle.x + PLAYER_OFFSET {
            self.score = self.score + 1;
            self.obstacle = Obstacle::new(wx + SCREEN_WIDTH - PLAYER_OFFSET, self.score);
        }
        if row > SCREEN_HEIGHT || self.obstacle.hit(&self.player) {
            self.mode = GameMode::End;
        }
        frame
    }

    /// The main-menu screen's key handling: `Play` restarts, `Quit` asks the
    /// host to stop, anything else changes nothing.
    pub fn main_menu(&mut self, key: Option<Command>) -> (quit: bool)
        requires
            old(self).wf(),
        ensures
            menu_post(*old(self), *final(self), key, quit),
            final(self).wf(),
    {
        match key {
            Some(Command::Play) => {
                self.restart();
                false
            },
            Some(Command::Quit) => true,
            _ => false,
        }
    }

    /// The death screen's key handling: the same as the menu — `Play`
    /// restarts, `Quit` asks the host to stop.
    pub fn dead(&mut self, key: Option<Command>) -> (quit: bool)
        requires
            old(self).wf(),
        ensures
            menu_post(*old(self), *final(self), key, quit),
            final(self).wf(),
    {
        match key {
            Some(Command::Play) => {
                self.restart();
                false
            },
            Some(Command::Quit) => true,
            _ => false,
        }
    }

    /// One frame: dispatch on the mode, step it with the key the host saw,
    /// and return what to draw. Only the `Flap` command reaches play; the
    /// menu and death screens answer to `Play` and `Quit`.
    pub fn tick(&mut self, delta_ms: u64, key: Option<Command>) -> (out: TickOutput)
        requires
            old(self).wf(),
            delta_ms <= MAX_FRAME_MS,
        ensures
            final(self).wf(),
            (match old(self).mode {
                GameMode::Menu => out matches (TickOutput::MenuScreen { quit })
                    && menu_post(*old(self), *final(self), key, quit),
                GameMode::Playing => out matches (TickOutput::PlayScreen { frame })
                    && play_post(*old(self), *final(self), frame, delta_ms as int,
                        key == Some(Command::Flap)),
                GameMode::End => out matches (TickOutput::DeadScreen { score, quit })
                    && score == old(self).score
                    && menu_post(*old(self), *final(self), key, quit),
            }),
    {
        match self.mode {
            GameMode::Menu => {
                let quit = self.main_menu(key);
                TickOutput::MenuScreen { quit }
            },
            GameMode::Playing => {
                let flap = matches!(key, Some(Command::Flap));
                let frame = self.play(delta_ms, flap);
                TickOutput::PlayScreen { frame }
            },
            GameMode::End => {
                let score = self.score;
                let quit = self.dead(key);
                TickOutput::DeadScreen { score, quit }
            },
        }
    }
}

} // verus!
