use vstd::prelude::*;

use crate::framedata::{
    bdash_data, bdash_moves, bdash_script, bwalk_data, bwalk_script, dead_data, dead_entry,
    fdash_data, fdash_moves, fdash_script, fwalk_data, fwalk_script, guard_break_data,
    guard_break_moves, guard_break_script, hblock_data, hblock_moves, hblock_script, hit_data,
    hit_moves, hit_script, idle_data, idle_script, lblock_data, lblock_moves, lblock_script,
    lemma_bdash_script, lemma_bwalk_script, lemma_fdash_script, lemma_fwalk_script,
    lemma_guard_break_script, lemma_hblock_script, lemma_hit_script, lemma_idle_script,
    lemma_lblock_script, lemma_lookup_covers, lemma_lookup_first, lemma_mnormal_script, cumulative, lemma_mspecial_script,
    lemma_nnormal_script, lemma_nspecial_script, mnormal_data, mnormal_moves, mnormal_script,
    move_length, mspecial_data, mspecial_moves, mspecial_script, nnormal_data, nnormal_moves,
    nnormal_script, nspecial_data, nspecial_moves, nspecial_script, script_entry, script_len,
    script_wf, MoveData,
};
use crate::input::{buffer_of, preferred, ticked_opt, ActionBuffer, FgInput};
use crate::simul::STAGE_LEN;

verus! {

/// Guard points of a fresh player.
pub const MAX_GUARD: u8 = 3;

/// Frames the attack button must be held before a release fires a special.
pub const SPECIAL_CHARGE_TIME: u8 = 60;

/// Window, in frames, for the second tap of a dash by a human player.
pub const PLAYER_DASH_TIME: u8 = 10;

/// Window, in frames, for the second tap of a dash by a bot.
pub const BOT_DASH_TIME: u8 = 3;

/// Number of distinct state ordinals; the two blocks share one.
pub const PLAYER_STATE_COUNT: i64 = 13;

/// `v + 1`, held at `u8::MAX`.
pub open spec fn sat_inc(v: u8) -> u8 {
    if v == u8::MAX {
        v
    } else {
        (v + 1) as u8
    }
}

/// `v - 1`, held at zero.
pub open spec fn sat_dec(v: u8) -> u8 {
    if v == 0 {
        0
    } else {
        (v - 1) as u8
    }
}

/// Frames left in a move of `len` frames at frame `frame`, held at zero.
pub open spec fn remaining(len: int, frame: u8) -> int {
    if len - frame - 1 > 0 {
        len - frame - 1
    } else {
        0
    }
}

/// What a character is doing, with the frames elapsed in it. Attacks carry
/// whether they have connected; blocks and death carry whether the attack
/// that caused them ends the match (for death: whether it was reported).
#[derive(Debug, Clone, Copy, PartialEq, Eq, Structural)]
pub enum PlayerState {
    Idle(u8),
    FWalk(u8),
    BWalk(u8),
    FDash(u8),
    BDash(u8),
    HBlock(u8, bool),
    LBlock(u8, bool),
    GuardBreak(u8),
    Hit(u8),
    NNormal(u8, bool),
    MNormal(u8, bool),
    NSpecial(u8, bool),
    MSpecial(u8, bool),
    Dead(bool),
}

impl PlayerState {
    /// Elapsed frames of the state; zero for death.
    pub open spec fn frame(self) -> u8 {
        match self {
            PlayerState::Idle(f) => f,
            PlayerState::FWalk(f) => f,
            PlayerState::BWalk(f) => f,
            PlayerState::FDash(f) => f,
            PlayerState::BDash(f) => f,
            PlayerState::HBlock(f, _) => f,
            PlayerState::LBlock(f, _) => f,
            PlayerState::GuardBreak(f) => f,
            PlayerState::Hit(f) => f,
            PlayerState::NNormal(f, _) => f,
            PlayerState::MNormal(f, _) => f,
            PlayerState::NSpecial(f, _) => f,
            PlayerState::MSpecial(f, _) => f,
            PlayerState::Dead(_) => 0,
        }
    }

    /// The movement script the state plays.
    pub open spec fn script(self) -> Seq<MoveData> {
        match self {
            PlayerState::Idle(_) => idle_script(),
            PlayerState::FWalk(_) => fwalk_script(),
            PlayerState::BWalk(_) => bwalk_script(),
            PlayerState::FDash(_) => fdash_script(),
            PlayerState::BDash(_) => bdash_script(),
            PlayerState::HBlock(_, _) => hblock_script(),
            PlayerState::LBlock(_, _) => lblock_script(),
            PlayerState::GuardBreak(_) => guard_break_script(),
            PlayerState::Hit(_) => hit_script(),
            PlayerState::NNormal(_, _) => nnormal_script(),
            PlayerState::MNormal(_, _) => mnormal_script(),
            PlayerState::NSpecial(_, _) => nspecial_script(),
            PlayerState::MSpecial(_, _) => mspecial_script(),
            PlayerState::Dead(_) => seq![dead_entry()],
        }
    }

    /// The state taken when the script has run out: walks loop, all else
    /// returns to standing.
    pub open spec fn fallback(self) -> PlayerState {
        match self {
            PlayerState::FWalk(_) => PlayerState::FWalk(0),
            PlayerState::BWalk(_) => PlayerState::BWalk(0),
            _ => PlayerState::Idle(0),
        }
    }

    /// Whether the elapsed frames still lie within the state's script.
    pub open spec fn in_range(self) -> bool {
        script_entry(self.script(), self.frame() as int) is Some
    }

    /// The state after its frame data is fetched.
    pub open spec fn fetched(self) -> PlayerState {
        if self.in_range() {
            self
        } else {
            self.fallback()
        }
    }

    /// The frame data fetched for the state.
    pub open spec fn fetched_entry(self) -> MoveData {
        match script_entry(self.script(), self.frame() as int) {
            Some(m) => m,
            None => self.fallback().script()[0],
        }
    }

    /// The state one frame later, before buffered actions are consulted:
    /// standing and walking follow the held direction, every other state
    /// counts its frame, and death becomes reported.
    pub open spec fn stance_after(self, movement: i8) -> PlayerState {
        match self {
            PlayerState::Idle(f) => if movement == 0 {
                PlayerState::Idle(sat_inc(f))
            } else if movement > 0 {
                PlayerState::FWalk(0)
            } else {
                PlayerState::BWalk(0)
            },
            PlayerState::FWalk(f) => if movement == 0 {
                PlayerState::Idle(0)
            } else if movement > 0 {
                PlayerState::FWalk(sat_inc(f))
            } else {
                PlayerState::BWalk(0)
            },
            PlayerState::BWalk(f) => if movement == 0 {
                PlayerState::Idle(0)
            } else if movement > 0 {
                PlayerState::FWalk(0)
            } else {
                PlayerState::BWalk(sat_inc(f))
            },
            PlayerState::FDash(f) => PlayerState::FDash(sat_inc(f)),
            PlayerState::BDash(f) => PlayerState::BDash(sat_inc(f)),
            PlayerState::HBlock(f, e) => PlayerState::HBlock(sat_inc(f), e),
            PlayerState::LBlock(f, e) => PlayerState::LBlock(sat_inc(f), e),
            PlayerState::GuardBreak(f) => PlayerState::GuardBreak(sat_inc(f)),
            PlayerState::Hit(f) => PlayerState::Hit(sat_inc(f)),
            PlayerState::NNormal(f, h) => PlayerState::NNormal(sat_inc(f), h),
            PlayerState::MNormal(f, h) => PlayerState::MNormal(sat_inc(f), h),
            PlayerState::NSpecial(f, h) => PlayerState::NSpecial(sat_inc(f), h),
            PlayerState::MSpecial(f, h) => PlayerState::MSpecial(sat_inc(f), h),
            PlayerState::Dead(_) => PlayerState::Dead(true),
        }
    }

    /// Standing, walking or blocking: states that can block a hit.
    pub open spec fn blockable(self) -> bool {
        self is Idle || self is FWalk || self is BWalk || self is HBlock || self is LBlock
    }

    /// Standing or walking: states that can start an action.
    pub open spec fn free(self) -> bool {
        self is Idle || self is FWalk || self is BWalk
    }

    /// Whether an attack state has connected.
    pub open spec fn connected(self) -> bool {
        match self {
            PlayerState::NNormal(_, h) => h,
            PlayerState::MNormal(_, h) => h,
            PlayerState::NSpecial(_, h) => h,
            PlayerState::MSpecial(_, h) => h,
            _ => false,
        }
    }

    /// The state ordinal shown to outside consumers; the blocks share one.
    pub open spec fn ordinal(self) -> i64 {
        match self {
            PlayerState::Idle(_) => 0,
            PlayerState::FWalk(_) => 1,
            PlayerState::BWalk(_) => 2,
            PlayerState::FDash(_) => 3,
            PlayerState::BDash(_) => 4,
            PlayerState::HBlock(_, _) => 5,
            PlayerState::LBlock(_, _) => 5,
            PlayerState::GuardBreak(_) => 6,
            PlayerState::Hit(_) => 7,
            PlayerState::NNormal(_, _) => 8,
            PlayerState::MNormal(_, _) => 9,
            PlayerState::NSpecial(_, _) => 10,
            PlayerState::MSpecial(_, _) => 11,
            PlayerState::Dead(_) => 12,
        }
    }

    /// Frames left in a move an opponent could punish: attacks, the forward
    /// dash and a broken guard.
    pub open spec fn punishable_frames(self) -> int {
        match self {
            PlayerState::NNormal(f, _) => remaining(script_len(nnormal_script()), f),
            PlayerState::MNormal(f, _) => remaining(script_len(mnormal_script()), f),
            PlayerState::NSpecial(f, _) => remaining(script_len(nspecial_script()), f),
            PlayerState::MSpecial(f, _) => remaining(script_len(mspecial_script()), f),
            PlayerState::FDash(f) => remaining(script_len(fdash_script()), f),
            PlayerState::GuardBreak(f) => remaining(script_len(guard_break_script()), f),
            _ => 0,
        }
    }

    /// Frames left in every committed move; zero when free or dead.
    pub open spec fn recovery_frames(self) -> int {
        match self {
            PlayerState::Idle(_) | PlayerState::FWalk(_) | PlayerState::BWalk(_)
            | PlayerState::Dead(_) => 0,
            _ => remaining(script_len(self.script()), self.frame()),
        }
    }

    /// The elapsed frames of the state; zero for death.
    pub fn state_len(self) -> (r: u8)
        ensures
            r == self.frame(),
    {
        match self {
            PlayerState::Idle(f) => f,
            PlayerState::FWalk(f) => f,
            PlayerState::BWalk(f) => f,
            PlayerState::FDash(f) => f,
            PlayerState::BDash(f) => f,
            PlayerState::HBlock(f, _) => f,
            PlayerState::LBlock(f, _) => f,
            PlayerState::GuardBreak(f) => f,
            PlayerState::Hit(f) => f,
            PlayerState::NNormal(f, _) => f,
            PlayerState::MNormal(f, _) => f,
            PlayerState::NSpecial(f, _) => f,
            PlayerState::MSpecial(f, _) => f,
            PlayerState::Dead(_) => 0,
        }
    }
}

impl From<PlayerState> for i64 {
    fn from(s: PlayerState) -> (r: i64) {
        match s {
            PlayerState::Idle(_) => 0,
            PlayerState::FWalk(_) => 1,
            PlayerState::BWalk(_) => 2,
            PlayerState::FDash(_) => 3,
            PlayerState::BDash(_) => 4,
            PlayerState::HBlock(_, _) | PlayerState::LBlock(_, _) => 5,
            PlayerState::GuardBreak(_) => 6,
            PlayerState::Hit(_) => 7,
            PlayerState::NNormal(_, _) => 8,
            PlayerState::MNormal(_, _) => 9,
            PlayerState::NSpecial(_, _) => 10,
            PlayerState::MSpecial(_, _) => 11,
            PlayerState::Dead(_) => 12,
        }
    }
}

impl vstd::std_specs::convert::FromSpecImpl<PlayerState> for i64 {
    open spec fn obeys_from_spec() -> bool {
        true
    }

    open spec fn from_spec(s: PlayerState) -> i64 {
        s.ordinal()
    }
}

/// Every state's script is well formed.
pub proof fn lemma_state_script_wf(s: PlayerState)
    ensures
        script_wf(s.script()),
        script_len(s.script()) <= u8::MAX,
{
    lemma_idle_script();
    lemma_fwalk_script();
    lemma_bwalk_script();
    lemma_fdash_script();
    lemma_bdash_script();
    lemma_hblock_script();
    lemma_lblock_script();
    lemma_guard_break_script();
    lemma_hit_script();
    lemma_nnormal_script();
    lemma_mnormal_script();
    lemma_nspecial_script();
    lemma_mspecial_script();
    assert(script_len(seq![dead_entry()]) == 1) by {
        reveal_with_fuel(crate::framedata::cumulative, 2);
    }
}

/// The fallback state lies at the start of its script.
pub proof fn lemma_fallback_in_range(s: PlayerState)
    ensures
        s.fallback().in_range(),
        script_entry(s.fallback().script(), 0) == Some(s.fallback().script()[0]),
{
    lemma_state_script_wf(s.fallback());
    lemma_lookup_first(s.fallback().script());
}

/// Every state on its first frame lies within its script.
pub proof fn lemma_frame_zero_in_range(s: PlayerState)
    requires
        s.frame() == 0,
    ensures
        s.in_range(),
{
    lemma_state_script_wf(s);
    lemma_lookup_first(s.script());
}

/// Fetching always lands on a state within its script, with frame data
/// whose speed and boxes stay in limits.
pub proof fn lemma_fetched_in_limits(s: PlayerState)
    ensures
        s.fetched().in_range(),
        s.fetched_entry().in_limits(),
{
    lemma_state_script_wf(s);
    lemma_fallback_in_range(s);
    lemma_state_script_wf(s.fallback());
    lemma_lookup_covers(s.script(), s.frame() as int);
    if s.in_range() {
        let k = choose|k: int|
            0 <= k < s.script().len() && cumulative(s.script(), k) <= s.frame()
                < cumulative(s.script(), k + 1) && script_entry(s.script(), s.frame() as int)
                == Some(#[trigger] s.script()[k]);
        assert(s.script()[k].in_limits());
    }
}

/// The frame data of a state, if its elapsed frames lie within its script.
pub fn state_entry(s: PlayerState) -> (r: Option<MoveData>)
    ensures
        r == script_entry(s.script(), s.frame() as int),
{
    match s {
        PlayerState::Idle(f) => idle_data(f),
        PlayerState::FWalk(f) => fwalk_data(f),
        PlayerState::BWalk(f) => bwalk_data(f),
        PlayerState::FDash(f) => fdash_data(f),
        PlayerState::BDash(f) => bdash_data(f),
        PlayerState::HBlock(f, _) => hblock_data(f),
        PlayerState::LBlock(f, _) => lblock_data(f),
        PlayerState::GuardBreak(f) => guard_break_data(f),
        PlayerState::Hit(f) => hit_data(f),
        PlayerState::NNormal(f, _) => nnormal_data(f),
        PlayerState::MNormal(f, _) => mnormal_data(f),
        PlayerState::NSpecial(f, _) => nspecial_data(f),
        PlayerState::MSpecial(f, _) => mspecial_data(f),
        PlayerState::Dead(_) => {
            proof {
                lemma_state_script_wf(s);
                lemma_lookup_first(s.script());
            }
            Some(dead_data())
        },
    }
}

/// One combatant: position, guard and wins, the current state, the three
/// action buffers, dash windows, the charge counter, the last held
/// direction, and whether a bot controls it.
#[derive(Debug, Clone, Copy)]
pub struct Player {
    pub position: i16,
    pub wins: u8,
    pub guard_points: u8,
    pub counter_hit: bool,
    pub state: PlayerState,
    pub normal_buff: Option<ActionBuffer>,
    pub special_buff: Option<ActionBuffer>,
    pub dash_buff: Option<ActionBuffer>,
    pub fdash_timer: u8,
    pub bdash_timer: u8,
    pub movement: i8,
    pub input_hold: u8,
    pub bot: bool,
}

pub open spec fn opt_buffer_wf(b: Option<ActionBuffer>) -> bool {
    match b {
        Some(b) => b.wf(),
        None => true,
    }
}

/// Position `p + delta`, held within the stage.
pub open spec fn clamp_to_stage(v: int) -> i16 {
    if v < 0 {
        0
    } else if v > STAGE_LEN {
        STAGE_LEN
    } else {
        v as i16
    }
}

impl Player {
    /// Guard points within their bound, live buffers, and a state whose
    /// frame lies within its script.
    pub open spec fn wf(self) -> bool {
        &&& self.guard_points <= MAX_GUARD
        &&& opt_buffer_wf(self.normal_buff)
        &&& opt_buffer_wf(self.special_buff)
        &&& opt_buffer_wf(self.dash_buff)
        &&& self.state.in_range()
    }

    /// A fresh player at `start_pos`.
    pub open spec fn fresh(start_pos: i16, bot: bool) -> Player {
        Player {
            position: start_pos,
            wins: 0,
            guard_points: MAX_GUARD,
            counter_hit: false,
            state: PlayerState::Idle(0),
            normal_buff: None,
            special_buff: None,
            dash_buff: None,
            fdash_timer: 0,
            bdash_timer: 0,
            movement: 0,
            input_hold: 0,
            bot,
        }
    }

    pub open spec fn dash_window(self) -> u8 {
        if self.bot {
            BOT_DASH_TIME
        } else {
            PLAYER_DASH_TIME
        }
    }

    /// The player after reading one frame's input: the held direction, the
    /// normal buffer, the dash windows and buffer, and the charge.
    pub open spec fn after_input(self, input: FgInput) -> Player {
        let dash_buff = if input.movement_press >= 1 && self.fdash_timer > 0 {
            buffer_of(1, true)
        } else if input.movement_press <= -1 && self.bdash_timer > 0 {
            buffer_of(-1 as i8, true)
        } else {
            self.dash_buff
        };
        let fdash_timer = if input.movement_press >= 1 {
            if self.fdash_timer > 0 {
                0
            } else {
                self.dash_window()
            }
        } else if input.movement_press <= -1 {
            0
        } else {
            sat_dec(self.fdash_timer)
        };
        let bdash_timer = if input.movement_press <= -1 {
            if self.bdash_timer > 0 {
                0
            } else {
                self.dash_window()
            }
        } else if input.movement_press >= 1 {
            0
        } else {
            sat_dec(self.bdash_timer)
        };
        Player {
            movement: input.movement,
            normal_buff: preferred(
                self.normal_buff,
                buffer_of(input.movement, input.attack_press),
            ),
            dash_buff,
            fdash_timer,
            bdash_timer,
            input_hold: if input.attack_hold {
                sat_inc(self.input_hold)
            } else {
                0
            },
            special_buff: if self.input_hold >= SPECIAL_CHARGE_TIME && !input.attack_hold {
                buffer_of(input.movement, true)
            } else {
                None
            },
            ..self
        }
    }

    /// The player with every buffer one frame older.
    pub open spec fn after_tick(self) -> Player {
        Player {
            normal_buff: ticked_opt(self.normal_buff),
            special_buff: ticked_opt(self.special_buff),
            dash_buff: ticked_opt(self.dash_buff),
            ..self
        }
    }

    /// The action a free player starts from its buffers: a special before a
    /// normal before a dash.
    pub open spec fn action(self) -> Option<PlayerState> {
        match self.special_buff {
            Some(b) => Some(
                if b.movement == 0 {
                    PlayerState::NSpecial(0, false)
                } else {
                    PlayerState::MSpecial(0, false)
                },
            ),
            None => match self.normal_buff {
                Some(b) => Some(
                    if b.movement == 0 {
                        PlayerState::NNormal(0, false)
                    } else {
                        PlayerState::MNormal(0, false)
                    },
                ),
                None => match self.dash_buff {
                    Some(b) => Some(
                        if b.movement >= 1 {
                            PlayerState::FDash(0)
                        } else {
                            PlayerState::BDash(0)
                        },
                    ),
                    None => None,
                },
            },
        }
    }

    /// The player with its state and the attack buffers cleared.
    pub open spec fn starting(self, s: PlayerState) -> Player {
        Player { state: s, normal_buff: None, special_buff: None, ..self }
    }

    /// The player after its buffers are consulted: a free player starts the
    /// buffered action; a normal attack that connected cancels into the
    /// neutral special on a cancelable frame while a normal is buffered.
    pub open spec fn after_action(self) -> Player {
        match self.state {
            PlayerState::Idle(_) | PlayerState::FWalk(_) | PlayerState::BWalk(_) => match self.action() {
                Some(s) => self.starting(s),
                None => self,
            },
            PlayerState::NNormal(_, hit) | PlayerState::MNormal(_, hit) => if self.normal_buff is Some
                && hit {
                if self.state.fetched_entry().data.cancel {
                    self.starting(PlayerState::NSpecial(0, false))
                } else {
                    Player { state: self.state.fetched(), ..self }
                }
            } else {
                self
            },
            _ => self,
        }
    }

    /// The player one frame on: its stance, then its action.
    pub open spec fn after_update_state(self) -> Player {
        Player { state: self.state.stance_after(self.movement), ..self }.after_action()
    }

    /// The player once its frame data is fetched.
    pub open spec fn after_fetch(self) -> Player {
        Player { state: self.state.fetched(), ..self }
    }

    /// The player moved by `delta`, held within the stage.
    pub open spec fn moved(self, delta: int) -> Player {
        Player { position: clamp_to_stage(self.position + delta), ..self }
    }

    /// Whether the player blocks a hit: in a blockable state and moving
    /// toward the attacker.
    pub open spec fn blocks(self) -> bool {
        self.state.blockable() && self.movement > 0
    }

    /// The player after being struck by an attack with the given flags.
    pub open spec fn after_attacked(self, ender: bool, low: bool) -> Player {
        Player {
            state: if self.blocks() {
                if self.guard_points == 0 {
                    PlayerState::GuardBreak(0)
                } else if low {
                    PlayerState::LBlock(0, ender)
                } else {
                    PlayerState::HBlock(0, ender)
                }
            } else if ender {
                PlayerState::Dead(false)
            } else {
                PlayerState::Hit(0)
            },
            counter_hit: if !self.blocks() && !ender && !self.state.blockable() {
                true
            } else {
                self.counter_hit
            },
            guard_points: sat_dec(self.guard_points),
            ..self
        }
    }

    /// The player with its attack marked as connected.
    pub open spec fn after_set_hit(self) -> Player {
        Player {
            state: match self.state {
                PlayerState::NNormal(f, _) => PlayerState::NNormal(f, true),
                PlayerState::MNormal(f, _) => PlayerState::MNormal(f, true),
                PlayerState::NSpecial(f, _) => PlayerState::NSpecial(f, true),
                PlayerState::MSpecial(f, _) => PlayerState::MSpecial(f, true),
                _ => self.state,
            },
            ..self
        }
    }

    /// A fresh player at `start_pos`, standing, with full guard.
    pub fn new(start_pos: i16, bot: bool) -> (r: Self)
        ensures
            r == Player::fresh(start_pos, bot),
            r.wf(),
    {
        proof {
            lemma_fallback_in_range(PlayerState::Idle(0));
        }
        Player {
            position: start_pos,
            wins: 0,
            guard_points: MAX_GUARD,
            state: PlayerState::Idle(0),
            normal_buff: None,
            special_buff: None,
            dash_buff: None,
            fdash_timer: 0,
            bdash_timer: 0,
            movement: 0,
            input_hold: 0,
            counter_hit: false,
            bot,
        }
    }

    /// Starts a new round at `start_pos`, keeping the wins and the controller.
    pub fn reset(&mut self, start_pos: i16)
        ensures
            *final(self) == (Player { wins: old(self).wins, ..Player::fresh(start_pos, old(self).bot) }),
            final(self).wf(),
    {
        let wins = self.wins;
        *self = Player { wins, ..Player::new(start_pos, self.bot) };
    }

    /// Reads one frame's input.
    pub fn set_input(&mut self, input: FgInput)
        ensures
            *final(self) == old(self).after_input(input),
            opt_buffer_wf(old(self).normal_buff) ==> opt_buffer_wf(final(self).normal_buff),
            opt_buffer_wf(old(self).dash_buff) ==> opt_buffer_wf(final(self).dash_buff),
            opt_buffer_wf(final(self).special_buff),
    {
        self.movement = input.movement;
        self.normal_buff = ActionBuffer::compare(self.normal_buff, input.to_buffer());

        if input.movement_press >= 1 {
            if self.fdash_timer > 0 {
                self.dash_buff = ActionBuffer::new(1, true);
                self.reset_dash_timer();
            } else {
                self.reset_dash_timer();
                self.fdash_timer = self.dash_time();
            }
        } else if input.movement_press <= -1 {
            if self.bdash_timer > 0 {
                self.dash_buff = ActionBuffer::new(-1, true);
                self.reset_dash_timer();
            } else {
                self.reset_dash_timer();
                self.bdash_timer = self.dash_time();
            }
        } else {
            self.fdash_timer = self.fdash_timer.saturating_sub(1);
            self.bdash_timer = self.bdash_timer.saturating_sub(1);
        }

        let old_hold = self.input_hold;

        // The charge follows the button's level on this frame, not a buffer.
        self.input_hold = if input.attack_hold {
            self.input_hold.saturating_add(1)
        } else {
            0
        };

        // Releasing a full charge fires the special.
        if old_hold >= SPECIAL_CHARGE_TIME && !input.attack_hold {
            self.special_buff = ActionBuffer::new(input.movement, true);
        } else {
            self.special_buff = None;
        }
    }

    /// Ages every buffer by one frame.
    pub fn update_buffer(&mut self)
        ensures
            *final(self) == old(self).after_tick(),
            opt_buffer_wf(old(self).normal_buff) ==> opt_buffer_wf(final(self).normal_buff),
            opt_buffer_wf(old(self).special_buff) ==> opt_buffer_wf(final(self).special_buff),
            opt_buffer_wf(old(self).dash_buff) ==> opt_buffer_wf(final(self).dash_buff),
    {
        self.normal_buff = tick(self.normal_buff);
        self.special_buff = tick(self.special_buff);
        self.dash_buff = tick(self.dash_buff);
    }

    /// Advances the state one frame: stance first, then buffered actions.
    pub fn update_state(&mut self)
        ensures
            *final(self) == old(self).after_update_state(),
    {
        self.update_stance();
        self.update_action();
    }

    fn update_stance(&mut self)
        ensures
            *final(self) == (Player {
                state: old(self).state.stance_after(old(self).movement),
                ..*old(self)
            }),
    {
        let movement = self.movement;
        self.state = match self.state {
            PlayerState::Idle(frame) => if movement == 0 {
                PlayerState::Idle(frame.saturating_add(1))
            } else if movement > 0 {
                PlayerState::FWalk(0)
            } else {
                PlayerState::BWalk(0)
            },
            PlayerState::FWalk(frame) => if movement == 0 {
                PlayerState::Idle(0)
            } else if movement > 0 {
                PlayerState::FWalk(frame.saturating_add(1))
            } else {
                PlayerState::BWalk(0)
            },
            PlayerState::BWalk(frame) => if movement == 0 {
                PlayerState::Idle(0)
            } else if movement > 0 {
                PlayerState::FWalk(0)
            } else {
                PlayerState::BWalk(frame.saturating_add(1))
            },
            PlayerState::FDash(frame) => PlayerState::FDash(frame.saturating_add(1)),
            PlayerState::BDash(frame) => PlayerState::BDash(frame.saturating_add(1)),
            PlayerState::HBlock(frame, ender) => PlayerState::HBlock(frame.saturating_add(1), ender),
            PlayerState::LBlock(frame, ender) => PlayerState::LBlock(frame.saturating_add(1), ender),
            PlayerState::GuardBreak(frame) => PlayerState::GuardBreak(frame.saturating_add(1)),
            PlayerState::Hit(frame) => PlayerState::Hit(frame.saturating_add(1)),
            PlayerState::NNormal(frame, hit) => PlayerState::NNormal(frame.saturating_add(1), hit),
            PlayerState::MNormal(frame, hit) => PlayerState::MNormal(frame.saturating_add(1), hit),
            PlayerState::NSpecial(frame, hit) => PlayerState::NSpecial(
                frame.saturating_add(1),
                hit,
            ),
            PlayerState::MSpecial(frame, hit) => PlayerState::MSpecial(
                frame.saturating_add(1),
                hit,
            ),
            PlayerState::Dead(_) => PlayerState::Dead(true),
        };
    }

    fn update_action(&mut self)
        ensures
            *final(self) == old(self).after_action(),
    {
        match self.state {
            PlayerState::Idle(_) | PlayerState::FWalk(_) | PlayerState::BWalk(_) => {
                if let Some(state) = self.which_action() {
                    self.reset_input();
                    self.state = state;
                }
            },
            PlayerState::NNormal(_, hit) | PlayerState::MNormal(_, hit) => {
                if self.normal_buff.is_some() && hit {
                    let data = self.update_move();
                    if data.data.cancel {
                        self.reset_input();
                        self.state = PlayerState::NSpecial(0, false);
                    }
                }
            },
            _ => {},
        }
    }

    /// Fetches the frame data of the current state. A state whose script has
    /// run out first falls back to the start of its fallback state.
    pub fn update_move(&mut self) -> (r: MoveData)
        ensures
            *final(self) == old(self).after_fetch(),
            r == old(self).state.fetched_entry(),
            final(self).state.in_range(),
    {
        proof {
            lemma_fallback_in_range(self.state);
        }
        match state_entry(self.state) {
            Some(data) => data,
            None => {
                let fallback = match self.state {
                    PlayerState::FWalk(_) => PlayerState::FWalk(0),
                    PlayerState::BWalk(_) => PlayerState::BWalk(0),
                    _ => PlayerState::Idle(0),
                };
                self.state = fallback;
                state_entry(fallback).unwrap()
            },
        }
    }

    /// Moves by `movement`, held within the stage.
    pub fn move_position(&mut self, movement: i16)
        ensures
            *final(self) == old(self).moved(movement as int),
    {
        let target: i32 = self.position as i32 + movement as i32;
        self.position = if target < 0 {
            0
        } else if target > STAGE_LEN as i32 {
            STAGE_LEN
        } else {
            target as i16
        };
    }

    /// Clears the normal and special buffers.
    pub fn reset_input(&mut self)
        ensures
            *final(self) == (Player { normal_buff: None, special_buff: None, ..*old(self) }),
    {
        self.normal_buff = None;
        self.special_buff = None;
    }

    /// Closes both dash windows.
    pub fn reset_dash_timer(&mut self)
        ensures
            *final(self) == (Player { fdash_timer: 0, bdash_timer: 0, ..*old(self) }),
    {
        self.fdash_timer = 0;
        self.bdash_timer = 0;
    }

    /// The frame data of the current state, which must lie within its script.
    pub fn get_move(&self) -> (r: MoveData)
        requires
            self.state.in_range(),
        ensures
            r == self.state.fetched_entry(),
    {
        state_entry(self.state).unwrap()
    }

    /// Resolves an attack that struck this player. Moving toward the attacker
    /// in a blockable state blocks (or, with no guard left, breaks the
    /// guard); otherwise a match-ending attack kills and any other stuns,
    /// as a counter hit if the player could not have blocked at all. Every
    /// strike costs a guard point, down to zero.
    pub fn get_attacked(&mut self, ender: bool, low: bool)
        ensures
            *final(self) == old(self).after_attacked(ender, low),
    {
        let blockable_state = self.can_block();

        if blockable_state && self.movement > 0 {
            self.state = if self.guard_points == 0 {
                PlayerState::GuardBreak(0)
            } else if low {
                PlayerState::LBlock(0, ender)
            } else {
                PlayerState::HBlock(0, ender)
            };
        } else if ender {
            self.state = PlayerState::Dead(false);
        } else {
            if !blockable_state {
                self.counter_hit = true;
            }
            self.state = PlayerState::Hit(0);
        }

        self.guard_points = self.guard_points.saturating_sub(1);
    }

    /// Whether the current state can block.
    pub fn can_block(&self) -> (r: bool)
        ensures
            r == self.state.blockable(),
    {
        matches!(
            self.state,
            PlayerState::Idle(_) | PlayerState::BWalk(_) | PlayerState::FWalk(_)
                | PlayerState::HBlock(_, _) | PlayerState::LBlock(_, _)
        )
    }

    /// Whether the current state can start an attack.
    pub fn can_attack(&self) -> (r: bool)
        ensures
            r == self.state.free(),
    {
        matches!(self.state, PlayerState::Idle(_) | PlayerState::BWalk(_) | PlayerState::FWalk(_))
    }

    /// Frames left in a move an opponent could punish: attacks, the forward
    /// dash and a broken guard; zero otherwise.
    pub fn recovery_punishable(&self) -> (r: u8)
        ensures
            r == self.state.punishable_frames(),
    {
        proof {
            lemma_nnormal_script();
            lemma_mnormal_script();
            lemma_nspecial_script();
            lemma_mspecial_script();
            lemma_fdash_script();
            lemma_guard_break_script();
        }
        match self.state {
            PlayerState::NNormal(frame, _) => frames_left(&nnormal_moves(), frame),
            PlayerState::MNormal(frame, _) => frames_left(&mnormal_moves(), frame),
            PlayerState::NSpecial(frame, _) => frames_left(&nspecial_moves(), frame),
            PlayerState::MSpecial(frame, _) => frames_left(&mspecial_moves(), frame),
            PlayerState::FDash(frame) => frames_left(&fdash_moves(), frame),
            PlayerState::GuardBreak(frame) => frames_left(&guard_break_moves(), frame),
            _ => 0,
        }
    }

    /// Frames left in every committed move: attacks, dashes, blocks, stun and
    /// a broken guard; zero when standing, walking or dead.
    pub fn recovery(&self) -> (r: u8)
        ensures
            r == self.state.recovery_frames(),
    {
        proof {
            lemma_state_script_wf(self.state);
        }
        match self.state {
            PlayerState::Idle(_) => 0,
            PlayerState::FWalk(_) => 0,
            PlayerState::BWalk(_) => 0,
            PlayerState::FDash(frame) => frames_left(&fdash_moves(), frame),
            PlayerState::BDash(frame) => frames_left(&bdash_moves(), frame),
            PlayerState::HBlock(frame, _) => frames_left(&hblock_moves(), frame),
            PlayerState::LBlock(frame, _) => frames_left(&lblock_moves(), frame),
            PlayerState::GuardBreak(frame) => frames_left(&guard_break_moves(), frame),
            PlayerState::Hit(frame) => frames_left(&hit_moves(), frame),
            PlayerState::NNormal(frame, _) => frames_left(&nnormal_moves(), frame),
            PlayerState::MNormal(frame, _) => frames_left(&mnormal_moves(), frame),
            PlayerState::NSpecial(frame, _) => frames_left(&nspecial_moves(), frame),
            PlayerState::MSpecial(frame, _) => frames_left(&mspecial_moves(), frame),
            PlayerState::Dead(_) => 0,
        }
    }

    /// Frames left on the buffered normal attack; zero without one.
    pub fn buff_time(&self) -> (r: u8)
        ensures
            r == (match self.normal_buff {
                Some(b) => b.buff_time,
                None => 0,
            }),
    {
        match self.normal_buff {
            Some(input) => input.buff_time,
            None => 0,
        }
    }

    pub fn is_dead(&self) -> (r: bool)
        ensures
            r == self.state is Dead,
    {
        matches!(self.state, PlayerState::Dead(_))
    }

    /// Whether the guard broke on this very frame.
    pub fn newly_guard_break(&self) -> (r: bool)
        ensures
            r == (self.state == PlayerState::GuardBreak(0)),
    {
        matches!(self.state, PlayerState::GuardBreak(0))
    }

    /// Whether the player died and it has not been reported yet.
    pub fn newly_dead(&self) -> (r: bool)
        ensures
            r == (self.state == PlayerState::Dead(false)),
    {
        matches!(self.state, PlayerState::Dead(false))
    }

    /// Frames the attack button has been held.
    pub fn hold_time(&self) -> (r: u8)
        ensures
            r == self.input_hold,
    {
        self.input_hold
    }

    /// Marks the current attack as connected.
    pub fn set_hit(&mut self)
        ensures
            *final(self) == old(self).after_set_hit(),
    {
        self.state = match self.state {
            PlayerState::NNormal(frame, _) => PlayerState::NNormal(frame, true),
            PlayerState::MNormal(frame, _) => PlayerState::MNormal(frame, true),
            PlayerState::NSpecial(frame, _) => PlayerState::NSpecial(frame, true),
            PlayerState::MSpecial(frame, _) => PlayerState::MSpecial(frame, true),
            _ => self.state,
        };
    }

    /// Whether the current attack has connected.
    pub fn get_hit(&self) -> (r: bool)
        ensures
            r == self.state.connected(),
    {
        match self.state {
            PlayerState::NNormal(_, hit) => hit,
            PlayerState::MNormal(_, hit) => hit,
            PlayerState::NSpecial(_, hit) => hit,
            PlayerState::MSpecial(_, hit) => hit,
            _ => false,
        }
    }

    /// The sound that the state starts with, on its first frame only.
    pub fn get_audio(&self) -> (r: Option<&'static str>)
        ensures
            r == audio_of(self.state),
    {
        match self.state {
            PlayerState::FDash(0) => Some("fdash"),
            PlayerState::BDash(0) => Some("bdash"),
            PlayerState::HBlock(0, _) | PlayerState::LBlock(0, _) => Some("block"),
            PlayerState::GuardBreak(0) => Some("guard_break"),
            PlayerState::Hit(0) => Some("hit"),
            PlayerState::NNormal(0, _) => Some("nnormal"),
            PlayerState::MNormal(0, _) => Some("mnormal"),
            PlayerState::NSpecial(0, _) => Some("nspecial"),
            PlayerState::MSpecial(0, _) => Some("mspecial"),
            PlayerState::Dead(false) => Some("ender_hit"),
            _ => None,
        }
    }

    /// Whether the player was stunned on this very frame.
    pub fn is_hit(&self) -> (r: bool)
        ensures
            r == (self.state == PlayerState::Hit(0)),
    {
        matches!(self.state, PlayerState::Hit(0))
    }

    /// Whether the player blocked on this very frame.
    pub fn is_blocking(&self) -> (r: bool)
        ensures
            r == (self.state is HBlock && self.state.frame() == 0 || self.state is LBlock
                && self.state.frame() == 0),
    {
        matches!(self.state, PlayerState::HBlock(0, _) | PlayerState::LBlock(0, _))
    }

    /// Whether the player blocked a match-ending attack on this very frame.
    pub fn is_blocking_ender(&self) -> (r: bool)
        ensures
            r == (self.state == PlayerState::HBlock(0, true) || self.state == PlayerState::LBlock(
                0,
                true,
            )),
    {
        matches!(self.state, PlayerState::HBlock(0, true) | PlayerState::LBlock(0, true))
    }

    /// The ordinal of the current state.
    pub fn state_int(&self) -> (r: i64)
        ensures
            r == self.state.ordinal(),
    {
        i64::from(self.state)
    }

    /// The elapsed frames of the current state.
    pub fn state_len(&self) -> (r: i64)
        ensures
            r == self.state.frame(),
    {
        self.state.state_len() as i64
    }

    fn which_action(&self) -> (r: Option<PlayerState>)
        ensures
            r == self.action(),
    {
        match self.special_buff {
            Some(buffer) => Some(
                if buffer.movement == 0 {
                    PlayerState::NSpecial(0, false)
                } else {
                    PlayerState::MSpecial(0, false)
                },
            ),
            None => match self.normal_buff {
                Some(buffer) => Some(
                    if buffer.movement == 0 {
                        PlayerState::NNormal(0, false)
                    } else {
                        PlayerState::MNormal(0, false)
                    },
                ),
                None => match self.dash_buff {
                    Some(buffer) => Some(
                        if buffer.movement >= 1 {
                            PlayerState::FDash(0)
                        } else {
                            PlayerState::BDash(0)
                        },
                    ),
                    None => None,
                },
            },
        }
    }

    fn dash_time(&self) -> (r: u8)
        ensures
            r == self.dash_window(),
    {
        if self.bot {
            BOT_DASH_TIME
        } else {
            PLAYER_DASH_TIME
        }
    }
}

/// A blocked hit with no guard left breaks the guard, whatever its height.
pub proof fn lemma_empty_guard_breaks(p: Player, ender: bool, low: bool)
    requires
        p.blocks(),
        p.guard_points == 0,
    ensures
        p.after_attacked(ender, low).state == PlayerState::GuardBreak(0),
        p.after_attacked(ender, low).guard_points == 0,
{
}

/// A blocked hit with guard left is blocked high or low as the attack is,
/// and costs exactly one guard point.
pub proof fn lemma_guarded_block(p: Player, ender: bool, low: bool)
    requires
        p.blocks(),
        p.guard_points > 0,
    ensures
        p.after_attacked(ender, low).state == if low {
            PlayerState::LBlock(0, ender)
        } else {
            PlayerState::HBlock(0, ender)
        },
        p.after_attacked(ender, low).guard_points == p.guard_points - 1,
{
}

/// A match-ending attack that is not blocked kills, freshly.
pub proof fn lemma_ender_kills(p: Player, low: bool)
    requires
        !p.blocks(),
    ensures
        p.after_attacked(true, low).state == PlayerState::Dead(false),
{
}

/// The sound a state starts with, on its first frame.
pub open spec fn audio_of(s: PlayerState) -> Option<&'static str> {
    match s {
        PlayerState::FDash(0) => Some("fdash"),
        PlayerState::BDash(0) => Some("bdash"),
        PlayerState::HBlock(0, _) => Some("block"),
        PlayerState::LBlock(0, _) => Some("block"),
        PlayerState::GuardBreak(0) => Some("guard_break"),
        PlayerState::Hit(0) => Some("hit"),
        PlayerState::NNormal(0, _) => Some("nnormal"),
        PlayerState::MNormal(0, _) => Some("mnormal"),
        PlayerState::NSpecial(0, _) => Some("nspecial"),
        PlayerState::MSpecial(0, _) => Some("mspecial"),
        PlayerState::Dead(false) => Some("ender_hit"),
        _ => None,
    }
}

fn tick(b: Option<ActionBuffer>) -> (r: Option<ActionBuffer>)
    ensures
        r == ticked_opt(b),
        opt_buffer_wf(b) ==> opt_buffer_wf(r),
{
    match b {
        Some(input) => input.update_buffer(),
        None => None,
    }
}

/// Frames left after `frame` in a move given by `moves`, held at zero.
fn frames_left(moves: &Vec<MoveData>, frame: u8) -> (r: u8)
    requires
        script_len(moves@) <= u8::MAX,
    ensures
        r == remaining(script_len(moves@), frame),
{
    move_length(moves.as_slice()).saturating_sub(frame).saturating_sub(1)
}

} // verus!
