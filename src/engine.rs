//! The round state machine: start, tick, cash out.
use vstd::prelude::*;

use crate::crash_point::{
    crash_point, crash_point_of, draw_below, MAX_CRASH_POINT, MULTIPLIER_SCALE,
    SAMPLE_DENOMINATOR, TICK_STEP,
};

verus! {

/// The abstract state of an engine, multipliers in multiplier units.
pub struct RoundState {
    pub multiplier: nat,
    pub running: bool,
    pub crash_point: nat,
}

/// What every engine state satisfies: the multiplier is at least 1.0, no
/// value exceeds the largest crash point, and while a round runs the
/// multiplier has not passed its crash point.
pub open spec fn valid_state(s: RoundState) -> bool {
    &&& MULTIPLIER_SCALE <= s.multiplier <= MAX_CRASH_POINT
    &&& s.crash_point <= MAX_CRASH_POINT
    &&& s.running ==> s.multiplier <= s.crash_point
}

/// A freshly built engine: multiplier 1.0, idle, no crash point drawn yet.
pub open spec fn idle_state() -> RoundState {
    RoundState { multiplier: MULTIPLIER_SCALE as nat, running: false, crash_point: 0 }
}

/// Starting a round with the given crash point; a running round is kept.
pub open spec fn start_step(s: RoundState, crash: nat) -> RoundState {
    if s.running {
        s
    } else {
        RoundState { multiplier: MULTIPLIER_SCALE as nat, running: true, crash_point: crash }
    }
}

/// One tick: a running round gains one step, and crashes, with the
/// multiplier clamped to the crash point, once it reaches it. An idle engine
/// is left as it is.
pub open spec fn tick_step(s: RoundState) -> RoundState {
    if !s.running {
        s
    } else if s.multiplier + TICK_STEP >= s.crash_point {
        RoundState { multiplier: s.crash_point, running: false, crash_point: s.crash_point }
    } else {
        RoundState { multiplier: (s.multiplier + TICK_STEP) as nat, ..s }
    }
}

/// `n` ticks in a row.
pub open spec fn ticks(s: RoundState, n: nat) -> RoundState
    decreases n,
{
    if n == 0 {
        s
    } else {
        tick_step(ticks(s, (n - 1) as nat))
    }
}

/// The state after a cash-out: a running round ends with the multiplier
/// reset to 1.0; an idle engine is left as it is.
pub open spec fn cash_out_step(s: RoundState) -> RoundState {
    if s.running {
        RoundState { multiplier: MULTIPLIER_SCALE as nat, running: false, ..s }
    } else {
        s
    }
}

/// What a cash-out of `bet` pays while a round runs: exactly the bet times
/// the current multiplier. Since the multiplier is counted in units of
/// 1/`MULTIPLIER_SCALE`, the amount is in that fraction of the bet's unit.
/// An idle engine pays nothing.
pub open spec fn winnings_of(s: RoundState, bet: nat) -> nat {
    if s.running {
        bet * s.multiplier
    } else {
        0
    }
}

/// Starting a fresh engine gives multiplier 1.0 and a running round with the
/// crash point drawn for it.
pub proof fn lemma_start_on_fresh_engine(crash: nat)
    ensures
        start_step(idle_state(), crash).multiplier == MULTIPLIER_SCALE,
        start_step(idle_state(), crash).running,
        start_step(idle_state(), crash).crash_point == crash,
{
}

/// A second start without an end of round in between changes nothing: it
/// returns the same multiplier and keeps the crash point of the first.
pub proof fn lemma_start_twice(s: RoundState, first: nat, second: nat)
    ensures
        start_step(start_step(s, first), second) == start_step(s, first),
{
}

/// While a running round stays below its crash point, each tick adds exactly
/// one step: after `k` such ticks the multiplier has grown by `k` steps.
pub proof fn lemma_ticks_climb(s: RoundState, k: nat)
    requires
        valid_state(s),
        s.running,
        s.multiplier + k * TICK_STEP < s.crash_point,
    ensures
        ticks(s, k) == (RoundState {
            multiplier: (s.multiplier + k * TICK_STEP) as nat,
            running: true,
            crash_point: s.crash_point,
        }),
    decreases k,
{
    if k > 0 {
        lemma_ticks_climb(s, (k - 1) as nat);
    }
}

/// The first tick that reaches the crash point ends the round, and leaves
/// the multiplier at exactly the crash point, not past it.
pub proof fn lemma_ticks_crash(s: RoundState, k: nat)
    requires
        valid_state(s),
        s.running,
        k >= 1,
        s.multiplier + (k - 1) * TICK_STEP < s.crash_point <= s.multiplier + k * TICK_STEP,
    ensures
        ticks(s, k) == (RoundState {
            multiplier: s.crash_point,
            running: false,
            crash_point: s.crash_point,
        }),
{
    lemma_ticks_climb(s, (k - 1) as nat);
}

/// A tick on an idle engine changes nothing and returns the last multiplier.
pub proof fn lemma_tick_idle(s: RoundState)
    requires
        !s.running,
    ensures
        tick_step(s) == s,
{
}

/// A cash-out while running pays exactly the bet times the current
/// multiplier, ends the round and resets the multiplier to 1.0.
pub proof fn lemma_cash_out_running(s: RoundState, bet: nat)
    requires
        s.running,
    ensures
        winnings_of(s, bet) == bet * s.multiplier,
        !cash_out_step(s).running,
        cash_out_step(s).multiplier == MULTIPLIER_SCALE,
{
}

/// A cash-out on an idle engine pays nothing and changes nothing.
pub proof fn lemma_cash_out_idle(s: RoundState, bet: nat)
    requires
        !s.running,
    ensures
        winnings_of(s, bet) == 0,
        cash_out_step(s) == s,
{
}

/// The one malformed input the engine rejects.
#[derive(Debug, Clone, Copy, PartialEq, Eq, Structural)]
pub enum GameError {
    /// A negative bet was offered for a cash-out.
    InvalidArgument,
}

/// A single round engine, reused from round to round.
///
/// The crash point stays private: a caller learns it only from the
/// multiplier that the crashing tick returns.
pub struct Game {
    multiplier: u64,
    is_running: bool,
    crash_point: u64,
}

impl View for Game {
    type V = RoundState;

    closed spec fn view(&self) -> RoundState {
        RoundState {
            multiplier: self.multiplier as nat,
            running: self.is_running,
            crash_point: self.crash_point as nat,
        }
    }
}

impl Game {
    #[verifier::type_invariant]
    spec fn inv(&self) -> bool {
        valid_state(self@)
    }

    /// Builds an idle engine.
    pub fn new() -> (r: Game)
        ensures
            r@ == idle_state(),
            valid_state(r@),
    {
        Game { multiplier: MULTIPLIER_SCALE, is_running: false, crash_point: 0 }
    }

    /// Starts a round whose crash point comes from the sample `num / den`
    /// in `[0, 1)`, and returns the multiplier. A round that is already
    /// running is left alone and its multiplier returned.
    pub fn start_game_with(&mut self, num: u32, den: u32) -> (r: u64)
        requires
            num < den,
        ensures
            final(self)@ == start_step(old(self)@, crash_point_of(num as nat, den as nat)),
            r == final(self)@.multiplier,
            valid_state(final(self)@),
    {
        proof {
            use_type_invariant(&*self);
        }
        if self.is_running {
            return self.multiplier;
        }
        let crash = crash_point(num, den);
        *self = Game { multiplier: MULTIPLIER_SCALE, is_running: true, crash_point: crash };
        self.multiplier
    }

    /// Starts a round with a crash point drawn at random, and returns the
    /// multiplier. A round that is already running is left alone.
    pub fn start_game(&mut self) -> (r: u64)
        ensures
            exists|num: u32|
                num < SAMPLE_DENOMINATOR && final(self)@ == start_step(
                    old(self)@,
                    #[trigger] crash_point_of(num as nat, SAMPLE_DENOMINATOR as nat),
                ),
            r == final(self)@.multiplier,
            valid_state(final(self)@),
    {
        if self.is_running {
            proof {
                use_type_invariant(&*self);
                assert(start_step(old(self)@, crash_point_of(0, SAMPLE_DENOMINATOR as nat))
                    == old(self)@);
            }
            return self.multiplier;
        }
        let num = draw_below(SAMPLE_DENOMINATOR);
        self.start_game_with(num, SAMPLE_DENOMINATOR)
    }

    /// Advances a running round by one step and returns the multiplier,
    /// which on a crash is exactly the crash point. An idle engine is left
    /// as it is.
    pub fn update_multiplier(&mut self) -> (r: u64)
        ensures
            final(self)@ == tick_step(old(self)@),
            r == final(self)@.multiplier,
            valid_state(final(self)@),
    {
        proof {
            use_type_invariant(&*self);
        }
        if !self.is_running {
            return self.multiplier;
        }
        let next: u64 = self.multiplier + TICK_STEP;
        if next >= self.crash_point {
            self.is_running = false;
            self.multiplier = self.crash_point;
        } else {
            self.multiplier = next;
        }
        self.multiplier
    }

    /// Cashes out `bet` (in any whole unit of currency) and returns the
    /// winnings, exactly the bet times the multiplier, in units of
    /// 1/`MULTIPLIER_SCALE` of the bet's unit (a bet of 100 at 1.5 pays
    /// 1_500_000), while a round runs, which then ends with the multiplier
    /// back at 1.0;
    /// zero, with no change, on an idle engine. A negative bet is rejected
    /// and changes nothing.
    pub fn cash_out(&mut self, bet: i64) -> (r: Result<u128, GameError>)
        ensures
            bet < 0 ==> r == Err::<u128, GameError>(GameError::InvalidArgument) && final(self)@
                == old(self)@,
            bet >= 0 ==> (r matches Ok(w) && w == winnings_of(old(self)@, bet as nat)),
            bet >= 0 ==> final(self)@ == cash_out_step(old(self)@),
            valid_state(final(self)@),
    {
        proof {
            use_type_invariant(&*self);
        }
        if bet < 0 {
            return Err(GameError::InvalidArgument);
        }
        if !self.is_running {
            return Ok(0);
        }
        let b: u128 = bet as u128;
        let m: u128 = self.multiplier as u128;
        assert(b * m <= 9_223_372_036_854_775_807u128 * (MAX_CRASH_POINT as u128))
            by (nonlinear_arith)
            requires
                b <= 9_223_372_036_854_775_807u128,
                m <= MAX_CRASH_POINT,
        ;
        let winnings: u128 = b * m;
        self.is_running = false;
        self.multiplier = MULTIPLIER_SCALE;
        Ok(winnings)
    }

    /// The current multiplier.
    pub fn get_multiplier(&self) -> (r: u64)
        ensures
            r == self@.multiplier,
    {
        self.multiplier
    }

    /// Whether a round is running.
    pub fn is_running(&self) -> (r: bool)
        ensures
            r == self@.running,
    {
        self.is_running
    }
}

} // verus!
