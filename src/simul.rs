use vstd::prelude::*;

use crate::framedata::{box_in_limits, boxes_overlap, overlap_amount_of, CBox, FrameData};
use crate::input::FgInput;
use crate::player::{
    audio_of, lemma_fetched_in_limits, lemma_frame_zero_in_range, sat_dec, Player, PlayerState,
    MAX_GUARD, PLAYER_STATE_COUNT,
};
use crate::timer::{seconds_of, Timer, FRAMES_PER_SECOND};
use vstd::math::abs;

verus! {

/// Width of the stage; positions stay within `0..=STAGE_LEN`.
pub const STAGE_LEN: i16 = 1530;

/// Distance of each starting position from its end of the stage.
pub const PLAYER_START: i16 = 400;

/// Length of a round in frames.
pub const ROUND_TIME: u16 = 3600;

/// Frames of the freeze before a round.
pub const ROUND_START_LEN: u8 = 90;

/// Frames of the freeze after a hit.
pub const HITSTOP_LEN: u8 = 15;

/// Frames of the freeze after a knockdown.
pub const ROUND_END_LEN: u8 = 60;

/// Wins that end the match.
pub const WINS_TO_END: u8 = 3;

/// Number of distinct match state ordinals.
pub const GAME_STATE_COUNT: i64 = 5;

/// The phase of a round. The counting phases hold the frames left.
#[derive(Debug, Clone, Copy, PartialEq, Eq, Structural)]
pub enum GameState {
    RoundStart(u8),
    Active,
    Hitstop(u8),
    RoundEnd(u8),
    RoundFinish,
}

/// What one frame of simulation reports to its driver.
#[derive(Debug, Clone, Copy, PartialEq, Eq, Structural)]
pub enum Result {
    Continue,
    Pause,
    Player1,
    Player2,
    Draw,
    Timeout,
}

impl GameState {
    /// The phase one frame later: a counting phase counts down and, at zero,
    /// gives way to combat (a knockdown freeze to the round's finish).
    pub open spec fn stepped(self) -> GameState {
        match self {
            GameState::RoundStart(t) => if sat_dec(t) > 0 {
                GameState::RoundStart(sat_dec(t))
            } else {
                GameState::Active
            },
            GameState::Active => GameState::Active,
            GameState::Hitstop(t) => if sat_dec(t) > 0 {
                GameState::Hitstop(sat_dec(t))
            } else {
                GameState::Active
            },
            GameState::RoundEnd(t) => if sat_dec(t) > 0 {
                GameState::RoundEnd(sat_dec(t))
            } else {
                GameState::RoundFinish
            },
            GameState::RoundFinish => GameState::RoundFinish,
        }
    }

    /// Frames left in a counting phase; zero otherwise.
    pub open spec fn frames(self) -> u8 {
        match self {
            GameState::RoundStart(f) => f,
            GameState::Active => 0,
            GameState::Hitstop(f) => f,
            GameState::RoundEnd(f) => f,
            GameState::RoundFinish => 0,
        }
    }

    /// The phase ordinal shown to outside consumers.
    pub open spec fn ordinal(self) -> i64 {
        match self {
            GameState::RoundStart(_) => 0,
            GameState::Active => 1,
            GameState::Hitstop(_) => 2,
            GameState::RoundEnd(_) => 3,
            GameState::RoundFinish => 4,
        }
    }

    /// Whether one-shot signals (sounds, hit and block flags) are held back:
    /// after the first frame of a hit or knockdown freeze, and once the
    /// round is finished.
    pub open spec fn quiet(self) -> bool {
        match self {
            GameState::Hitstop(t) => t < HITSTOP_LEN,
            GameState::RoundEnd(t) => t < ROUND_END_LEN,
            GameState::RoundFinish => true,
            _ => false,
        }
    }

    /// Advances the phase by one frame.
    pub fn step(self) -> (r: Self)
        ensures
            r == self.stepped(),
    {
        match self {
            GameState::RoundStart(time) => {
                let time = time.saturating_sub(1);
                if time > 0 {
                    GameState::RoundStart(time)
                } else {
                    GameState::Active
                }
            },
            GameState::Active => GameState::Active,
            GameState::Hitstop(time) => {
                let time = time.saturating_sub(1);
                if time > 0 {
                    GameState::Hitstop(time)
                } else {
                    GameState::Active
                }
            },
            GameState::RoundEnd(time) => {
                let time = time.saturating_sub(1);
                if time > 0 {
                    GameState::RoundEnd(time)
                } else {
                    GameState::RoundFinish
                }
            },
            GameState::RoundFinish => GameState::RoundFinish,
        }
    }

    /// Frames left in a counting phase; zero otherwise.
    pub fn state_len(self) -> (r: u8)
        ensures
            r == self.frames(),
    {
        match self {
            GameState::RoundStart(f) => f,
            GameState::Active => 0,
            GameState::Hitstop(f) => f,
            GameState::RoundEnd(f) => f,
            GameState::RoundFinish => 0,
        }
    }

    fn is_quiet(self) -> (r: bool)
        ensures
            r == self.quiet(),
    {
        match self {
            GameState::Hitstop(t) => t < HITSTOP_LEN,
            GameState::RoundEnd(t) => t < ROUND_END_LEN,
            GameState::RoundFinish => true,
            _ => false,
        }
    }
}

impl From<GameState> for i64 {
    fn from(s: GameState) -> (r: i64) {
        match s {
            GameState::RoundStart(_) => 0,
            GameState::Active => 1,
            GameState::Hitstop(_) => 2,
            GameState::RoundEnd(_) => 3,
            GameState::RoundFinish => 4,
        }
    }
}

impl vstd::std_specs::convert::FromSpecImpl<GameState> for i64 {
    open spec fn obeys_from_spec() -> bool {
        true
    }

    open spec fn from_spec(s: GameState) -> i64 {
        s.ordinal()
    }
}

/// Whether attack box `hit` of a character at `attacker_pos` touches
/// vulnerable box `hurt` of its opponent at `target_pos`. The box of the
/// character on the right is mirrored: the attacker's when `inverse`, the
/// target's otherwise.
pub open spec fn box_hits(hit: CBox, hurt: CBox, attacker_pos: int, target_pos: int, inverse: bool) -> bool {
    if inverse {
        boxes_overlap(hit.mirror(), attacker_pos, hurt, target_pos)
    } else {
        boxes_overlap(hit, attacker_pos, hurt.mirror(), target_pos)
    }
}

/// Whether `hit` touches vulnerable box `hurt`, if there is one.
pub open spec fn touches_opt(hit: CBox, hurt: Option<CBox>, attacker_pos: int, target_pos: int, inverse: bool) -> bool {
    match hurt {
        Some(hurt) => box_hits(hit, hurt, attacker_pos, target_pos, inverse),
        None => false,
    }
}

/// Whether an optional attack box touches any of the present vulnerable boxes.
pub open spec fn hits(
    hitbox: Option<CBox>,
    hurtbox: Seq<Option<CBox>>,
    attacker_pos: int,
    target_pos: int,
    inverse: bool,
) -> bool {
    match hitbox {
        Some(hit) => exists|j: int|
            0 <= j < hurtbox.len() && touches_opt(
                hit,
                #[trigger] hurtbox[j],
                attacker_pos,
                target_pos,
                inverse,
            ),
        None => false,
    }
}

pub open spec fn opt_can_mirror(b: Option<CBox>) -> bool {
    match b {
        Some(b) => b.can_mirror(),
        None => true,
    }
}

/// One entry of an observation: `num / den`, left to the consumer to divide.
#[derive(Debug, Clone, Copy, PartialEq, Eq, Structural)]
pub struct Ratio {
    pub num: i64,
    pub den: i64,
}

pub open spec fn ratio(num: int, den: int) -> Ratio {
    Ratio { num: num as i64, den: den as i64 }
}

/// `n` entries, one at index `k` and zero elsewhere.
pub open spec fn one_hot(n: int, k: int) -> Seq<Ratio> {
    Seq::new(n as nat, |x: int| if x == k { ratio(1, 1) } else { ratio(0, 1) })
}

/// A sound name as a sequence of zero or one names.
pub open spec fn opt_seq(a: Option<&'static str>) -> Seq<&'static str> {
    match a {
        Some(a) => seq![a],
        None => seq![],
    }
}

/// Whether `player` could punish `opponent` now with attack box `attack`:
/// free to attack, the opponent stuck for more than `min_recovery` frames,
/// and the box touching the opponent's vulnerable boxes.
pub open spec fn punishes(
    player: Player,
    opponent: Player,
    inverse: bool,
    attack: CBox,
    min_recovery: int,
) -> bool {
    &&& player.state.free()
    &&& opponent.state.punishable_frames() > min_recovery
    &&& hits(
        Some(attack),
        opponent.state.fetched_entry().data.hurtbox@,
        player.position as int,
        opponent.position as int,
        inverse,
    )
}

pub open spec fn nnormal_reach() -> CBox {
    CBox { offsetx: 140, offsety: 0, x: 159, y: 46 }
}

pub open spec fn mnormal_reach() -> CBox {
    CBox { offsetx: 130, offsety: 0, x: 130, y: 138 }
}

pub open spec fn nspecial_reach() -> CBox {
    CBox { offsetx: 258, offsety: 119, x: 158, y: 55 }
}

pub open spec fn mspecial_reach() -> CBox {
    CBox { offsetx: 95, offsety: 0, x: 95, y: 158 }
}

/// The two fighters, the clock and the phase of the round.
#[derive(Debug)]
pub struct Match {
    pub timer: Timer,
    pub rounds: u8,
    pub player1: Player,
    pub player2: Player,
    pub state: GameState,
}

impl Match {
    /// Both players well formed and on the stage.
    pub open spec fn wf(self) -> bool {
        &&& self.player1.wf()
        &&& self.player2.wf()
        &&& 0 <= self.player1.position <= STAGE_LEN
        &&& 0 <= self.player2.position <= STAGE_LEN
    }

    pub open spec fn start_position(player1: bool) -> i16 {
        if player1 {
            PLAYER_START
        } else {
            (STAGE_LEN - PLAYER_START) as i16
        }
    }

    /// A match before its first round.
    pub open spec fn fresh(p1_bot: bool, p2_bot: bool) -> Match {
        Match {
            timer: Timer::Limited(ROUND_TIME),
            rounds: 0,
            player1: Player::fresh(Match::start_position(true), p1_bot),
            player2: Player::fresh(Match::start_position(false), p2_bot),
            state: GameState::RoundStart(ROUND_START_LEN),
        }
    }

    /// Progress of a player toward the opponent's end of the stage.
    pub open spec fn progress(self, p1: bool) -> int {
        if p1 {
            self.player1.position as int
        } else {
            STAGE_LEN - self.player2.position
        }
    }

    /// The round's result: a lone survivor wins, two dead draw; else more
    /// guard points win, then more progress, and a full tie draws.
    pub open spec fn outcome(self) -> Result {
        let d1 = self.player1.state is Dead;
        let d2 = self.player2.state is Dead;
        if d1 && d2 {
            Result::Draw
        } else if d1 {
            Result::Player2
        } else if d2 {
            Result::Player1
        } else if self.player1.guard_points > self.player2.guard_points {
            Result::Player1
        } else if self.player1.guard_points < self.player2.guard_points {
            Result::Player2
        } else if self.progress(true) > self.progress(false) {
            Result::Player1
        } else if self.progress(true) < self.progress(false) {
            Result::Player2
        } else {
            Result::Draw
        }
    }

    /// The match with the wins of a result counted; a draw counts for both.
    pub open spec fn with_wins(self, r: Result) -> Match {
        Match {
            player1: Player {
                wins: if r is Player1 || r is Draw {
                    (self.player1.wins + 1) as u8
                } else {
                    self.player1.wins
                },
                ..self.player1
            },
            player2: Player {
                wins: if r is Player2 || r is Draw {
                    (self.player2.wins + 1) as u8
                } else {
                    self.player2.wins
                },
                ..self.player2
            },
            ..self
        }
    }

    /// Both players advanced one frame, with their frame data fetched.
    pub open spec fn after_advance(self) -> Match {
        Match {
            player1: self.player1.after_update_state().after_fetch(),
            player2: self.player2.after_update_state().after_fetch(),
            ..self
        }
    }

    /// Both players moved by their speeds; player 2 faces the other way.
    pub open spec fn after_moves(self, speed1: i16, speed2: i16) -> Match {
        Match {
            player1: self.player1.moved(speed1 as int),
            player2: self.player2.moved(-speed2),
            ..self
        }
    }

    /// Two overlapping bodies pushed apart, each by half the overlap.
    pub open spec fn after_push(self, col1: CBox, col2: CBox) -> Match {
        let c2 = col2.mirror();
        let x1 = self.player1.position as int;
        let x2 = self.player2.position as int;
        let amount = overlap_amount_of(col1, x1, c2, x2);
        if boxes_overlap(col1, x1, c2, x2) {
            Match {
                player1: self.player1.moved(-amount),
                player2: self.player2.moved(amount),
                ..self
            }
        } else {
            self
        }
    }

    /// Whether player 1's attack lands on player 2: skipped once player 2
    /// has connected.
    pub open spec fn p2_struck(self, d1: FrameData, d2: FrameData) -> bool {
        !self.player2.state.connected() && hits(
            d1.hitbox,
            d2.hurtbox@,
            self.player1.position as int,
            self.player2.position as int,
            false,
        )
    }

    /// Whether player 2's attack lands on player 1: skipped once player 1
    /// has connected.
    pub open spec fn p1_struck(self, d1: FrameData, d2: FrameData) -> bool {
        !self.player1.state.connected() && hits(
            d2.hitbox,
            d1.hurtbox@,
            self.player2.position as int,
            self.player1.position as int,
            true,
        )
    }

    /// The exchange of blows: each landed attack strikes its target and
    /// marks its attacker as connected; any landed hit freezes the round.
    pub open spec fn after_exchange(self, d1: FrameData, d2: FrameData) -> Match {
        let p2_hit = self.p2_struck(d1, d2);
        let p1_hit = self.p1_struck(d1, d2);
        let p2d = if p2_hit {
            self.player2.after_attacked(d1.ender, d1.low)
        } else {
            self.player2
        };
        let p1d = if p2_hit {
            self.player1.after_set_hit()
        } else {
            self.player1
        };
        let p1e = if p1_hit {
            p1d.after_attacked(d2.ender, d2.low)
        } else {
            p1d
        };
        let p2e = if p1_hit {
            p2d.after_set_hit()
        } else {
            p2d
        };
        Match {
            player1: p1e,
            player2: p2e,
            state: if p2_hit || p1_hit {
                GameState::Hitstop(HITSTOP_LEN)
            } else {
                self.state
            },
            ..self
        }
    }

    /// One frame of combat: both players advance and fetch their frame
    /// data, move, push each other apart, and exchange blows.
    pub open spec fn after_combat(self) -> Match {
        let d1 = self.player1.after_update_state().state.fetched_entry().data;
        let d2 = self.player2.after_update_state().state.fetched_entry().data;
        self.after_advance().after_moves(d1.speed, d2.speed).after_push(
            d1.collision,
            d2.collision,
        ).after_exchange(d1, d2)
    }

    /// The player named by `p1`: player 1 if true, else player 2.
    pub open spec fn side(self, p1: bool) -> Player {
        if p1 {
            self.player1
        } else {
            self.player2
        }
    }

    /// Distance between the two players.
    pub open spec fn distance(self) -> int {
        abs(self.player1.position - self.player2.position) as int
    }

    /// The match after both inputs are read and the phase steps: counter
    /// hits expire, inputs are taken, and buffers age except in a hit freeze.
    pub open spec fn prepared(self, input1: FgInput, input2: FgInput) -> Match {
        let p1 = Player { counter_hit: false, ..self.player1 }.after_input(input1);
        let p2 = Player { counter_hit: false, ..self.player2 }.after_input(input2);
        Match {
            player1: if self.state is Hitstop {
                p1
            } else {
                p1.after_tick()
            },
            player2: if self.state is Hitstop {
                p2
            } else {
                p2.after_tick()
            },
            state: self.state.stepped(),
            ..self
        }
    }

    /// The match after one frame, and what the frame reports. A finished
    /// round reports and counts its result; a freeze pauses; otherwise the
    /// clock runs and combat resolves, a death starts the knockdown freeze,
    /// and a clock run out ends the round.
    pub open spec fn after_frame(self, input1: FgInput, input2: FgInput) -> (Match, Result) {
        let m = self.prepared(input1, input2);
        if m.state is RoundFinish {
            (m.with_wins(m.outcome()), m.outcome())
        } else if !(m.state is Active) {
            (m, Result::Pause)
        } else {
            let c = Match { timer: m.timer.stepped(), ..m }.after_combat();
            if c.player1.state is Dead || c.player2.state is Dead {
                (Match { state: GameState::RoundEnd(ROUND_END_LEN), ..c }, Result::Continue)
            } else if c.timer == Timer::Limited(0) {
                (c.with_wins(c.outcome()), c.outcome())
            } else {
                (c, Result::Continue)
            }
        }
    }

    /// The observation of the player named by `p1`, as ratios: positions,
    /// distance, guard, wins, recovery, blocking, charge and the phase's
    /// frames, then one-hot encodings of both players' states and the phase.
    pub open spec fn observation(self, p1: bool) -> Seq<Ratio> {
        let player = self.side(p1);
        let opponent = self.side(!p1);
        seq![
            ratio(self.progress(p1), STAGE_LEN as int),
            ratio(self.progress(!p1), STAGE_LEN as int),
            ratio(self.distance(), STAGE_LEN as int),
            ratio(player.guard_points as int, MAX_GUARD as int),
            ratio(opponent.guard_points as int, MAX_GUARD as int),
            ratio(player.wins as int, WINS_TO_END as int),
            ratio(opponent.wins as int, WINS_TO_END as int),
            ratio(player.state.recovery_frames(), FRAMES_PER_SECOND as int),
            ratio(opponent.state.recovery_frames(), FRAMES_PER_SECOND as int),
            ratio(if player.state.blockable() { 1 } else { 0 }, 1),
            ratio(if opponent.state.blockable() { 1 } else { 0 }, 1),
            ratio(player.input_hold as int, FRAMES_PER_SECOND as int),
            ratio(self.state.frames() as int, FRAMES_PER_SECOND as int),
        ] + one_hot(PLAYER_STATE_COUNT as int, player.state.ordinal() as int) + one_hot(
            PLAYER_STATE_COUNT as int,
            opponent.state.ordinal() as int,
        ) + one_hot(GAME_STATE_COUNT as int, self.state.ordinal() as int)
    }

    /// A match before its first round; bots dash on a shorter window.
    pub fn new(p1_bot: bool, p2_bot: bool) -> (r: Self)
        ensures
            r == Match::fresh(p1_bot, p2_bot),
            r.wf(),
    {
        Match {
            timer: Timer::Limited(ROUND_TIME),
            rounds: 0,
            player1: Player::new(Self::starting_position(true), p1_bot),
            player2: Player::new(Self::starting_position(false), p2_bot),
            state: GameState::RoundStart(ROUND_START_LEN),
        }
    }

    /// Starts the next round: players back at their starting positions with
    /// their wins and controllers kept, the clock and phase as in a new match.
    pub fn new_round(&mut self)
        ensures
            *final(self) == (Match {
                player1: Player {
                    wins: old(self).player1.wins,
                    ..Player::fresh(Match::start_position(true), old(self).player1.bot)
                },
                player2: Player {
                    wins: old(self).player2.wins,
                    ..Player::fresh(Match::start_position(false), old(self).player2.bot)
                },
                ..Match::fresh(false, false)
            }),
            final(self).wf(),
    {
        self.player1.reset(Self::starting_position(true));
        self.player2.reset(Self::starting_position(false));
        let player1 = self.player1;
        let player2 = self.player2;
        *self = Match { player1, player2, ..Match::new(false, false) };
    }

    fn combat_update(&mut self)
        requires
            old(self).wf(),
        ensures
            *final(self) == old(self).after_combat(),
            final(self).wf(),
    {
        // Advance each character's action
        self.player1.update_state();
        self.player2.update_state();

        // Fetch the active frame data
        let ghost s1 = self.player1.state;
        let ghost s2 = self.player2.state;
        let p1_move = self.player1.update_move();
        let p2_move = self.player2.update_move();
        proof {
            lemma_fetched_in_limits(s1);
            lemma_fetched_in_limits(s2);
        }

        self.position_update(p1_move.data.speed, p2_move.data.speed);
        self.collision_update(p1_move.data.collision, p2_move.data.collision);
        self.exchange(p1_move.data, p2_move.data);
    }

    /// Tests both attacks against the current positions and applies what
    /// landed.
    fn exchange(&mut self, d1: FrameData, d2: FrameData)
        requires
            old(self).wf(),
            opt_can_mirror(d1.hitbox),
            opt_can_mirror(d2.hitbox),
            forall|j: int| 0 <= j < 2 ==> opt_can_mirror(#[trigger] d1.hurtbox@[j]),
            forall|j: int| 0 <= j < 2 ==> opt_can_mirror(#[trigger] d2.hurtbox@[j]),
        ensures
            *final(self) == old(self).after_exchange(d1, d2),
            final(self).wf(),
    {
        // An attacker whose target has already connected lands nothing
        let p2_hit = if !self.player2.get_hit() {
            Self::hitbox_hurtbox_collision(
                &d1.hitbox,
                &d2.hurtbox,
                self.p1_pos(),
                self.p2_pos(),
                false,
            )
        } else {
            false
        };
        let p1_hit = if !self.player1.get_hit() {
            Self::hitbox_hurtbox_collision(
                &d2.hitbox,
                &d1.hurtbox,
                self.p2_pos(),
                self.p1_pos(),
                true,
            )
        } else {
            false
        };

        if p2_hit {
            self.player2.get_attacked(d1.ender, d1.low);
            proof {
                lemma_frame_zero_in_range(self.player2.state);
            }
            self.player1.set_hit();
        }
        if p1_hit {
            self.player1.get_attacked(d2.ender, d2.low);
            proof {
                lemma_frame_zero_in_range(self.player1.state);
            }
            self.player2.set_hit();
        }

        if p2_hit || p1_hit {
            self.state = GameState::Hitstop(HITSTOP_LEN);
        }
    }

    fn position_update(&mut self, p1_move: i16, p2_move: i16)
        requires
            -100 <= p2_move <= 100,
        ensures
            *final(self) == old(self).after_moves(p1_move, p2_move),
    {
        self.player1.move_position(p1_move);
        self.player2.move_position(-p2_move);
    }

    /// Pushes two overlapping bodies apart, each by half the overlap.
    fn collision_update(&mut self, p1_col: CBox, p2_col: CBox)
        requires
            box_in_limits(p1_col),
            box_in_limits(p2_col),
            0 <= old(self).player1.position <= STAGE_LEN,
            0 <= old(self).player2.position <= STAGE_LEN,
        ensures
            *final(self) == old(self).after_push(p1_col, p2_col),
    {
        let offsetx1 = self.player1.position;
        let offsetx2 = self.player2.position;
        let mirrored = core::ops::Neg::neg(p2_col);

        if p1_col.overlap(offsetx1, mirrored, offsetx2) {
            let amount = p1_col.overlap_amount(offsetx1, mirrored, offsetx2);

            self.player1.move_position(-amount);
            self.player2.move_position(amount);
        }
    }

    fn starting_position(player1: bool) -> (r: i16)
        ensures
            r == Match::start_position(player1),
    {
        if player1 {
            PLAYER_START
        } else {
            STAGE_LEN - PLAYER_START
        }
    }

    fn hitbox_hurtbox_collision(
        hitbox: &Option<CBox>,
        hurtbox: &[Option<CBox>; 2],
        p1_pos: i16,
        p2_pos: i16,
        inverse: bool,
    ) -> (r: bool)
        requires
            opt_can_mirror(*hitbox),
            forall|j: int| 0 <= j < 2 ==> opt_can_mirror(#[trigger] hurtbox@[j]),
        ensures
            r == hits(*hitbox, hurtbox@, p1_pos as int, p2_pos as int, inverse),
    {
        let hit = match hitbox {
            Some(hit) => *hit,
            None => {
                return false;
            },
        };
        let mut k: usize = 0;
        while k < 2
            invariant
                0 <= k <= 2,
                *hitbox == Some(hit),
                hit.can_mirror(),
                hurtbox@.len() == 2,
                forall|j: int| 0 <= j < 2 ==> opt_can_mirror(#[trigger] hurtbox@[j]),
                forall|j: int|
                    0 <= j < k ==> !touches_opt(
                        hit,
                        #[trigger] hurtbox@[j],
                        p1_pos as int,
                        p2_pos as int,
                        inverse,
                    ),
            decreases 2 - k,
        {
            if let Some(hurt) = hurtbox[k] {
                let touches = if inverse {
                    core::ops::Neg::neg(hit).overlap(p1_pos, hurt, p2_pos)
                } else {
                    hit.overlap(p1_pos, core::ops::Neg::neg(hurt), p2_pos)
                };
                if touches {
                    assert(touches_opt(hit, hurtbox@[k as int], p1_pos as int, p2_pos as int, inverse));
                    return true;
                }
            }
            k += 1;
        }
        false
    }

    /// Advances the match by one frame on both players' inputs.
    pub fn frame_update(&mut self, input1: FgInput, input2: FgInput) -> (r: Result)
        requires
            old(self).wf(),
            old(self).player1.wins < u8::MAX,
            old(self).player2.wins < u8::MAX,
        ensures
            (*final(self), r) == old(self).after_frame(input1, input2),
            final(self).wf(),
    {
        self.player1.counter_hit = false;
        self.player2.counter_hit = false;

        self.player1.set_input(input1);
        self.player2.set_input(input2);

        if !matches!(self.state, GameState::Hitstop(_)) {
            self.player1.update_buffer();
            self.player2.update_buffer();
        }

        self.state = self.state.step();

        if matches!(self.state, GameState::RoundFinish) {
            let res = self.end_result();
            self.update_wins(res);
            return res;
        }

        if !matches!(self.state, GameState::Active) {
            return Result::Pause;
        }

        self.timer = self.timer.step();

        self.combat_update();

        if self.player1.is_dead() || self.player2.is_dead() {
            self.state = GameState::RoundEnd(ROUND_END_LEN);
            return Result::Continue;
        }

        if self.timer.is_over() {
            let res = self.end_result();
            self.update_wins(res);
            return res;
        }

        Result::Continue
    }

    fn end_result(&self) -> (r: Result)
        requires
            self.wf(),
        ensures
            r == self.outcome(),
    {
        let p1down = self.player1.is_dead();
        let p2down = self.player2.is_dead();

        if p1down && p2down {
            return Result::Draw;
        } else if p1down {
            return Result::Player2;
        } else if p2down {
            return Result::Player1;
        }

        let guard1 = self.player1.guard_points;
        let guard2 = self.player2.guard_points;
        if guard1 > guard2 {
            Result::Player1
        } else if guard1 < guard2 {
            Result::Player2
        } else {
            let progress1 = self.player_relative_pos(true);
            let progress2 = self.player_relative_pos(false);
            if progress1 > progress2 {
                Result::Player1
            } else if progress1 < progress2 {
                Result::Player2
            } else {
                Result::Draw
            }
        }
    }

    fn update_wins(&mut self, result: Result)
        requires
            old(self).player1.wins < u8::MAX,
            old(self).player2.wins < u8::MAX,
        ensures
            *final(self) == old(self).with_wins(result),
    {
        match result {
            Result::Continue => {},
            Result::Pause => {},
            Result::Timeout => {},
            Result::Player1 => {
                self.player1.wins += 1;
            },
            Result::Player2 => {
                self.player2.wins += 1;
            },
            Result::Draw => {
                self.player1.wins += 1;
                self.player2.wins += 1;
            },
        }
    }

    /// A player's progress toward the opponent's end of the stage.
    pub fn player_relative_pos(&self, p1: bool) -> (r: i16)
        requires
            self.wf(),
        ensures
            r == self.progress(p1),
    {
        if p1 {
            self.player1.position
        } else {
            STAGE_LEN - self.player2.position
        }
    }

    /// The distance between the players.
    pub fn player_distance(&self) -> (r: i16)
        requires
            self.wf(),
        ensures
            r == self.distance(),
    {
        let d = self.player1.position - self.player2.position;
        if d < 0 {
            -d
        } else {
            d
        }
    }

    /// The animation frame player 1 shows.
    pub fn p1_sprite(&self) -> (r: &'static str)
        requires
            self.player1.state.in_range(),
        ensures
            r == self.player1.state.fetched_entry().animation_frame,
    {
        self.player1.get_move().animation_frame
    }

    /// The animation frame player 2 shows.
    pub fn p2_sprite(&self) -> (r: &'static str)
        requires
            self.player2.state.in_range(),
        ensures
            r == self.player2.state.fetched_entry().animation_frame,
    {
        self.player2.get_move().animation_frame
    }

    pub fn p1_wins(&self) -> (r: u8)
        ensures
            r == self.player1.wins,
    {
        self.player1.wins
    }

    pub fn p2_wins(&self) -> (r: u8)
        ensures
            r == self.player2.wins,
    {
        self.player2.wins
    }

    /// Whether the player blocked on this frame; held back in quiet phases.
    pub fn player_block(&self, p1: bool) -> (r: bool)
        ensures
            r == (!self.state.quiet() && {
                let s = self.side(p1).state;
                s is HBlock && s.frame() == 0 || s is LBlock && s.frame() == 0
            }),
    {
        if self.state.is_quiet() {
            return false;
        }
        if p1 {
            self.player1.is_blocking()
        } else {
            self.player2.is_blocking()
        }
    }

    /// Whether the player blocked a match-ending attack on this frame; held
    /// back in quiet phases.
    pub fn player_block_ender(&self, p1: bool) -> (r: bool)
        ensures
            r == (!self.state.quiet() && (self.side(p1).state == PlayerState::HBlock(0, true)
                || self.side(p1).state == PlayerState::LBlock(0, true))),
    {
        if self.state.is_quiet() {
            return false;
        }
        if p1 {
            self.player1.is_blocking_ender()
        } else {
            self.player2.is_blocking_ender()
        }
    }

    pub fn player_guard(&self, p1: bool) -> (r: u8)
        ensures
            r == self.side(p1).guard_points,
    {
        if p1 {
            self.player1.guard_points
        } else {
            self.player2.guard_points
        }
    }

    /// The ordinal of the player's state.
    pub fn player_state(&self, p1: bool) -> (r: i64)
        ensures
            r == self.side(p1).state.ordinal(),
    {
        if p1 {
            self.player1.state_int()
        } else {
            self.player2.state_int()
        }
    }

    /// The elapsed frames of the player's state.
    pub fn player_state_len(&self, p1: bool) -> (r: i64)
        ensures
            r == self.side(p1).state.frame(),
    {
        if p1 {
            self.player1.state_len()
        } else {
            self.player2.state_len()
        }
    }

    /// Whether the player took a counter hit on this frame.
    pub fn player_counter(&self, p1: bool) -> (r: bool)
        ensures
            r == self.side(p1).counter_hit,
    {
        if p1 {
            self.player1.counter_hit
        } else {
            self.player2.counter_hit
        }
    }

    /// Whether the player was stunned on this frame; held back in quiet phases.
    pub fn player_hit(&self, p1: bool) -> (r: bool)
        ensures
            r == (!self.state.quiet() && self.side(p1).state == PlayerState::Hit(0)),
    {
        if self.state.is_quiet() {
            return false;
        }
        if p1 {
            self.player1.is_hit()
        } else {
            self.player2.is_hit()
        }
    }

    /// Whether the player's guard broke on this frame; held back in quiet
    /// phases.
    pub fn player_guard_break(&self, p1: bool) -> (r: bool)
        ensures
            r == (!self.state.quiet() && self.side(p1).state == PlayerState::GuardBreak(0)),
    {
        if self.state.is_quiet() {
            return false;
        }
        if p1 {
            self.player1.newly_guard_break()
        } else {
            self.player2.newly_guard_break()
        }
    }

    /// Whether the player died and it was not yet reported; held back in
    /// quiet phases.
    pub fn player_dead(&self, p1: bool) -> (r: bool)
        ensures
            r == (!self.state.quiet() && self.side(p1).state == PlayerState::Dead(false)),
    {
        if self.state.is_quiet() {
            return false;
        }
        if p1 {
            self.player1.newly_dead()
        } else {
            self.player2.newly_dead()
        }
    }

    /// Frames the player has held the attack button.
    pub fn player_hold(&self, p1: bool) -> (r: u8)
        ensures
            r == self.side(p1).input_hold,
    {
        if p1 {
            self.player1.hold_time()
        } else {
            self.player2.hold_time()
        }
    }

    /// The round clock in whole seconds, rounded up.
    pub fn timer_sec(&self) -> (r: u16)
        ensures
            r == (match self.timer {
                Timer::Limited(t) => seconds_of(t as nat),
                Timer::Unlimited => 0,
            }),
    {
        self.timer.seconds()
    }

    pub fn rounds(&self) -> (r: u8)
        ensures
            r == self.rounds,
    {
        self.rounds
    }

    /// The sounds that states starting on this frame play, player 1 first;
    /// none in quiet phases.
    pub fn audio(&self) -> (r: Vec<&'static str>)
        ensures
            r@ == if self.state.quiet() {
                Seq::empty()
            } else {
                opt_seq(audio_of(self.player1.state)) + opt_seq(audio_of(self.player2.state))
            },
    {
        let mut res: Vec<&'static str> = Vec::new();

        if self.state.is_quiet() {
            return res;
        }
        if let Some(audio) = self.player1.get_audio() {
            res.push(audio);
        }
        if let Some(audio) = self.player2.get_audio() {
            res.push(audio);
        }
        assert(res@ =~= opt_seq(audio_of(self.player1.state)) + opt_seq(
            audio_of(self.player2.state),
        ));
        res
    }

    /// Whether the match goes on: neither player has the wins to end it.
    pub fn continues(&self) -> (r: bool)
        ensures
            r == (self.player1.wins < WINS_TO_END && self.player2.wins < WINS_TO_END),
    {
        self.player1.wins < WINS_TO_END && self.player2.wins < WINS_TO_END
    }

    /// The ordinal of the phase.
    pub fn state(&self) -> (r: i64)
        ensures
            r == self.state.ordinal(),
    {
        i64::from(self.state)
    }

    /// Frames left in the phase; zero outside the counting phases.
    pub fn state_len(&self) -> (r: i64)
        ensures
            r == self.state.frames(),
    {
        self.state.state_len() as i64
    }

    pub fn stage_len() -> (r: i16)
        ensures
            r == STAGE_LEN,
    {
        STAGE_LEN
    }

    /// The observation of the player named by `p1`, as ratios.
    pub fn player_obs(&self, p1: bool) -> (r: Vec<Ratio>)
        requires
            self.wf(),
        ensures
            r@ == self.observation(p1),
    {
        let (player, opponent) = if p1 {
            (&self.player1, &self.player2)
        } else {
            (&self.player2, &self.player1)
        };
        let mut res: Vec<Ratio> = vec![
            Ratio { num: self.player_relative_pos(p1) as i64, den: STAGE_LEN as i64 },
            Ratio { num: self.player_relative_pos(!p1) as i64, den: STAGE_LEN as i64 },
            Ratio { num: self.player_distance() as i64, den: STAGE_LEN as i64 },
            Ratio { num: player.guard_points as i64, den: MAX_GUARD as i64 },
            Ratio { num: opponent.guard_points as i64, den: MAX_GUARD as i64 },
            Ratio { num: player.wins as i64, den: WINS_TO_END as i64 },
            Ratio { num: opponent.wins as i64, den: WINS_TO_END as i64 },
            Ratio { num: player.recovery() as i64, den: FRAMES_PER_SECOND as i64 },
            Ratio { num: opponent.recovery() as i64, den: FRAMES_PER_SECOND as i64 },
            Ratio { num: if player.can_block() { 1 } else { 0 }, den: 1 },
            Ratio { num: if opponent.can_block() { 1 } else { 0 }, den: 1 },
            Ratio { num: player.hold_time() as i64, den: FRAMES_PER_SECOND as i64 },
            Ratio { num: self.state_len(), den: FRAMES_PER_SECOND as i64 },
        ];
        let ghost scalars = res@;

        // The player's state, the opponent's and the phase, one-hot encoded
        push_one_hot(&mut res, PLAYER_STATE_COUNT, player.state_int());
        push_one_hot(&mut res, PLAYER_STATE_COUNT, opponent.state_int());
        push_one_hot(&mut res, GAME_STATE_COUNT, self.state());
        assert(scalars =~= self.observation(p1).subrange(0, 13));
        assert(res@ =~= self.observation(p1));
        res
    }

    /// For each of the four attacks, whether the player named by `p1` could
    /// punish the opponent with it now.
    pub fn punish_obs(&self, p1: bool) -> (r: Vec<bool>)
        requires
            self.wf(),
        ensures
            r@ == seq![
                punishes(self.side(p1), self.side(!p1), p1, nnormal_reach(), 18),
                punishes(self.side(p1), self.side(!p1), p1, mnormal_reach(), 17),
                punishes(self.side(p1), self.side(!p1), p1, nspecial_reach(), 25),
                punishes(self.side(p1), self.side(!p1), p1, mspecial_reach(), 16),
            ],
    {
        let (player, opponent) = if p1 {
            (&self.player1, &self.player2)
        } else {
            (&self.player2, &self.player1)
        };
        let r = vec![
            Self::can_punish_nnormal(player, opponent, p1),
            Self::can_punish_mnormal(player, opponent, p1),
            Self::can_punish_nspecial(player, opponent, p1),
            Self::can_punish_mspecial(player, opponent, p1),
        ];
        assert(r@ =~= seq![
            punishes(self.side(p1), self.side(!p1), p1, nnormal_reach(), 18),
            punishes(self.side(p1), self.side(!p1), p1, mnormal_reach(), 17),
            punishes(self.side(p1), self.side(!p1), p1, nspecial_reach(), 25),
            punishes(self.side(p1), self.side(!p1), p1, mspecial_reach(), 16),
        ]);
        r
    }

    /// Whether the neutral normal would punish the opponent now.
    pub fn can_punish_nnormal(player: &Player, opponent: &Player, inverse: bool) -> (r: bool)
        requires
            opponent.state.in_range(),
        ensures
            r == punishes(*player, *opponent, inverse, nnormal_reach(), 18),
    {
        let attack = CBox { offsetx: 140, offsety: 0, x: 159, y: 46 };
        Self::can_punish_with(player, opponent, inverse, attack, 18)
    }

    /// Whether the moving normal would punish the opponent now.
    pub fn can_punish_mnormal(player: &Player, opponent: &Player, inverse: bool) -> (r: bool)
        requires
            opponent.state.in_range(),
        ensures
            r == punishes(*player, *opponent, inverse, mnormal_reach(), 17),
    {
        let attack = CBox { offsetx: 130, offsety: 0, x: 130, y: 138 };
        Self::can_punish_with(player, opponent, inverse, attack, 17)
    }

    /// Whether the neutral special would punish the opponent now.
    pub fn can_punish_nspecial(player: &Player, opponent: &Player, inverse: bool) -> (r: bool)
        requires
            opponent.state.in_range(),
        ensures
            r == punishes(*player, *opponent, inverse, nspecial_reach(), 25),
    {
        let attack = CBox { offsetx: 258, offsety: 119, x: 158, y: 55 };
        Self::can_punish_with(player, opponent, inverse, attack, 25)
    }

    /// Whether the moving special would punish the opponent now.
    pub fn can_punish_mspecial(player: &Player, opponent: &Player, inverse: bool) -> (r: bool)
        requires
            opponent.state.in_range(),
        ensures
            r == punishes(*player, *opponent, inverse, mspecial_reach(), 16),
    {
        let attack = CBox { offsetx: 95, offsety: 0, x: 95, y: 158 };
        Self::can_punish_with(player, opponent, inverse, attack, 16)
    }

    fn can_punish_with(
        player: &Player,
        opponent: &Player,
        inverse: bool,
        attack: CBox,
        min_recovery: u8,
    ) -> (r: bool)
        requires
            opponent.state.in_range(),
            box_in_limits(attack),
        ensures
            r == punishes(*player, *opponent, inverse, attack, min_recovery as int),
    {
        if !player.can_attack() || opponent.recovery_punishable() <= min_recovery {
            return false;
        }
        proof {
            lemma_fetched_in_limits(opponent.state);
        }
        let target = opponent.get_move();
        Self::hitbox_hurtbox_collision(
            &Some(attack),
            &target.data.hurtbox,
            player.position,
            opponent.position,
            inverse,
        )
    }

    pub fn p1_pos(&self) -> (r: i16)
        ensures
            r == self.player1.position,
    {
        self.player1.position
    }

    pub fn p2_pos(&self) -> (r: i16)
        ensures
            r == self.player2.position,
    {
        self.player2.position
    }
}

/// With neither player dead, equal guard and equal progress, the round is
/// a draw, and counting it gives each player one more win.
pub proof fn lemma_even_round_draws(m: Match)
    requires
        !(m.player1.state is Dead),
        !(m.player2.state is Dead),
        m.player1.guard_points == m.player2.guard_points,
        m.progress(true) == m.progress(false),
        m.player1.wins < u8::MAX,
        m.player2.wins < u8::MAX,
    ensures
        m.outcome() == Result::Draw,
        m.with_wins(m.outcome()).player1.wins == m.player1.wins + 1,
        m.with_wins(m.outcome()).player2.wins == m.player2.wins + 1,
{
}

/// A clock that runs out on an active frame with both players alive, at
/// full guard and at equal progress, ends the round in a draw that counts
/// for both.
pub proof fn lemma_timeout_draw(m: Match, input1: FgInput, input2: FgInput)
    requires
        m.prepared(input1, input2).state is Active,
        ({
            let p = m.prepared(input1, input2);
            let c = Match { timer: p.timer.stepped(), ..p }.after_combat();
            &&& c.timer == Timer::Limited(0)
            &&& !(c.player1.state is Dead)
            &&& !(c.player2.state is Dead)
            &&& c.player1.guard_points == MAX_GUARD
            &&& c.player2.guard_points == MAX_GUARD
            &&& c.progress(true) == c.progress(false)
        }),
        m.player1.wins < u8::MAX,
        m.player2.wins < u8::MAX,
    ensures
        m.after_frame(input1, input2).1 == Result::Draw,
        m.after_frame(input1, input2).0.player1.wins == m.player1.wins + 1,
        m.after_frame(input1, input2).0.player2.wins == m.player2.wins + 1,
{
    let p = m.prepared(input1, input2);
    let c = Match { timer: p.timer.stepped(), ..p }.after_combat();
    lemma_even_round_draws(c);
}

/// Player 1's attack landing on a blocking player 2 who has guard left,
/// with no hit coming back: player 2 blocks high or low as the attack is
/// and loses exactly one guard point, player 1's attack is marked as
/// connected, and the round freezes for a hit.
pub proof fn lemma_blocked_hit(m: Match, d1: FrameData, d2: FrameData)
    requires
        m.p2_struck(d1, d2),
        !m.p1_struck(d1, d2),
        m.player2.blocks(),
        m.player2.guard_points > 0,
        m.player1.state is NNormal || m.player1.state is MNormal || m.player1.state is NSpecial
            || m.player1.state is MSpecial,
    ensures
        m.after_exchange(d1, d2).player2.state == if d1.low {
            PlayerState::LBlock(0, d1.ender)
        } else {
            PlayerState::HBlock(0, d1.ender)
        },
        m.after_exchange(d1, d2).player2.guard_points == m.player2.guard_points - 1,
        m.after_exchange(d1, d2).player1.state.connected(),
        m.after_exchange(d1, d2).state == GameState::Hitstop(HITSTOP_LEN),
{
}

/// A death on an active frame starts the knockdown freeze, whose first
/// frame is not quiet: the death is reported then.
pub proof fn lemma_death_reported(m: Match, input1: FgInput, input2: FgInput)
    requires
        m.prepared(input1, input2).state is Active,
        ({
            let p = m.prepared(input1, input2);
            let c = Match { timer: p.timer.stepped(), ..p }.after_combat();
            c.player1.state is Dead || c.player2.state is Dead
        }),
    ensures
        m.after_frame(input1, input2).0.state == GameState::RoundEnd(ROUND_END_LEN),
        !m.after_frame(input1, input2).0.state.quiet(),
        m.after_frame(input1, input2).1 == Result::Continue,
{
}

/// Once the knockdown freeze has begun, every later frame is quiet and
/// stays within the freeze or the finished round; the phase never returns
/// to combat, so a death is reported on one frame only.
pub proof fn lemma_knockdown_stays_quiet(m: Match, input1: FgInput, input2: FgInput)
    requires
        m.state matches GameState::RoundEnd(t) && t <= ROUND_END_LEN || m.state is RoundFinish,
    ensures
        m.after_frame(input1, input2).0.state.quiet(),
        m.after_frame(input1, input2).0.state matches GameState::RoundEnd(t) && t
            <= ROUND_END_LEN || m.after_frame(input1, input2).0.state is RoundFinish,
{
}

/// Appends `n` ratios, one at index `k` and zero elsewhere.
fn push_one_hot(res: &mut Vec<Ratio>, n: i64, k: i64)
    requires
        0 <= n <= 100,
    ensures
        final(res)@ == old(res)@ + one_hot(n as int, k as int),
{
    let ghost start = res@;
    let mut x: i64 = 0;
    while x < n
        invariant
            0 <= x <= n <= 100,
            res@ == start + one_hot(x as int, k as int),
        decreases n - x,
    {
        res.push(Ratio { num: if x == k { 1 } else { 0 }, den: 1 });
        x += 1;
        assert(res@ =~= start + one_hot(x as int, k as int));
    }
}

} // verus!
