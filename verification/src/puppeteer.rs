//! The jump state machine of a puppeteer, and the rules by which it steers.
//!
//! An actor's jump state is one record, [`JumpState`]: the held flag, the
//! count of air jumps used, and two optional countdowns. Three passes change
//! it each tick, in this order: [`update_coyote_time`],
//! [`update_jump_buffer`], [`jumping`]. Each pass is stated over the
//! mathematical value of the record, [`JumpModel`].

use crate::timer::{duration_nanos, Clock, Countdown};
use core::cmp::Ordering;
use core::time::Duration;
use vstd::prelude::*;

verus! {

/// The jump rules of a locomotion profile.
pub struct Puppeteer {
    /// How many jumps may start in the air before the next landing.
    pub max_air_jumps: u32,
    /// How long after leaving the ground a jump still counts as grounded.
    pub coyote_time: Duration,
    /// How long a jump that could not be granted is remembered.
    pub jump_buffer: Duration,
}

/// The mathematical value of a [`Puppeteer`]. Times are in nanoseconds.
pub struct Rules {
    pub max_air_jumps: nat,
    pub coyote_window: nat,
    pub buffer_window: nat,
}

impl View for Puppeteer {
    type V = Rules;

    open spec fn view(&self) -> Rules {
        Rules {
            max_air_jumps: self.max_air_jumps as nat,
            coyote_window: duration_nanos(self.coyote_time),
            buffer_window: duration_nanos(self.jump_buffer),
        }
    }
}

impl Default for Puppeteer {
    /// No air jumps, and 150 ms for each of the two windows.
    fn default() -> (p: Puppeteer)
        ensures
            p@ == (Rules {
                max_air_jumps: 0,
                coyote_window: 150_000_000,
                buffer_window: 150_000_000,
            }),
    {
        Puppeteer {
            max_air_jumps: 0,
            coyote_time: Duration::from_millis(150),
            jump_buffer: Duration::from_millis(150),
        }
    }
}

/// The jump commands of a controller: two one-shot flags, set by
/// [`PuppeteerInput::start_jump`] and [`PuppeteerInput::stop_jump`] and
/// cleared by the state machine.
pub struct PuppeteerInput {
    jump_start: bool,
    jump_canceled: bool,
}

/// The mathematical value of a [`PuppeteerInput`].
pub struct Intent {
    /// A jump was asked for and has been neither granted nor forgotten.
    pub jump_start: bool,
    /// The jump in progress is to be cut.
    pub jump_canceled: bool,
}

impl Intent {
    /// The flags after the commands of one tick: `start` says that
    /// `start_jump` was called, `stop` that `stop_jump` was.
    pub open spec fn command(self, start: bool, stop: bool) -> Intent {
        Intent {
            jump_start: self.jump_start || start,
            jump_canceled: self.jump_canceled || stop,
        }
    }
}

impl View for PuppeteerInput {
    type V = Intent;

    closed spec fn view(&self) -> Intent {
        Intent { jump_start: self.jump_start, jump_canceled: self.jump_canceled }
    }
}

impl Default for PuppeteerInput {
    /// No command pending.
    fn default() -> (input: PuppeteerInput)
        ensures
            input@ == (Intent { jump_start: false, jump_canceled: false }),
    {
        PuppeteerInput { jump_start: false, jump_canceled: false }
    }
}

impl PuppeteerInput {
    /// Asks for a jump. The request stands until it is granted or its buffer
    /// runs out.
    pub fn start_jump(&mut self)
        ensures
            final(self)@ == old(self)@.command(true, false),
    {
        self.jump_start = true;
    }

    /// Asks for the jump in progress to be cut.
    pub fn stop_jump(&mut self)
        ensures
            final(self)@ == old(self)@.command(false, true),
    {
        self.jump_canceled = true;
    }

    /// Whether a jump request is pending.
    pub fn jump_started(&self) -> (b: bool)
        ensures
            b == self@.jump_start,
    {
        self.jump_start
    }

    /// Whether a request to cut the jump is pending.
    pub fn jump_canceled(&self) -> (b: bool)
        ensures
            b == self@.jump_canceled,
    {
        self.jump_canceled
    }
}

/// The number of jumps started in the air since the last landing.
pub struct AirJumpCount(pub u32);

/// Time since the actor left the ground without jumping.
pub struct CoyoteTime(pub Countdown);

/// Time since a jump was asked for and could not be granted.
pub struct JumpBuffer(pub Countdown);

impl View for CoyoteTime {
    type V = Clock;

    open spec fn view(&self) -> Clock {
        self.0@
    }
}

impl View for JumpBuffer {
    type V = Clock;

    open spec fn view(&self) -> Clock {
        self.0@
    }
}

/// The jump state of one actor. An absent field means "not applicable now".
pub struct JumpState {
    /// The jump input is held: set by a request, cleared by a cancel.
    pub jumping: bool,
    /// Present once an air jump was used; absent again after a landing.
    pub air_jumps: Option<AirJumpCount>,
    /// Present while airborne; running during the grace window.
    pub coyote_time: Option<CoyoteTime>,
    /// Present while a jump request is remembered.
    pub jump_buffer: Option<JumpBuffer>,
}

/// The mathematical value of a [`JumpState`].
pub struct JumpModel {
    pub jumping: bool,
    pub air_jumps: Option<nat>,
    pub coyote: Option<Clock>,
    pub buffer: Option<Clock>,
}

impl View for JumpState {
    type V = JumpModel;

    open spec fn view(&self) -> JumpModel {
        JumpModel {
            jumping: self.jumping,
            air_jumps: match self.air_jumps {
                Some(count) => Some(count.0 as nat),
                None => None,
            },
            coyote: match self.coyote_time {
                Some(coyote) => Some(coyote@),
                None => None,
            },
            buffer: match self.jump_buffer {
                Some(buffer) => Some(buffer@),
                None => None,
            },
        }
    }
}

impl Default for JumpState {
    /// Not jumping, nothing counted, no countdown armed.
    fn default() -> (state: JumpState)
        ensures
            state@ == JumpModel::idle(),
    {
        JumpState { jumping: false, air_jumps: None, coyote_time: None, jump_buffer: None }
    }
}

/// From where a granted jump starts.
#[derive(Clone, Copy, Debug, PartialEq, Eq, Structural)]
pub enum JumpKind {
    /// From the ground, or within the coyote window after leaving it.
    FromGround,
    /// In the air, using up one air jump.
    InAir,
}

/// What the state machine made of a tick's jump request.
#[derive(Clone, Copy, Debug, PartialEq, Eq, Structural)]
pub enum JumpOutcome {
    /// No jump was asked for.
    Idle,
    /// The jump starts now: the caller adds the jump impulse.
    Granted(JumpKind),
    /// The jump cannot start now. The request stays pending while its
    /// buffer runs.
    Denied,
}

impl JumpModel {
    /// Not jumping, nothing counted, no countdown armed.
    pub open spec fn idle() -> JumpModel {
        JumpModel { jumping: false, air_jumps: None, coyote: None, buffer: None }
    }

    /// The coyote countdown is present and has not expired.
    pub open spec fn coyote_live(self) -> bool {
        self.coyote is Some && !self.coyote->0.expired
    }

    /// Air jumps used since the last landing.
    pub open spec fn air_jumps_used(self) -> nat {
        match self.air_jumps {
            Some(used) => used,
            None => 0,
        }
    }

    /// The state after the coyote pass of a tick of length `delta`.
    ///
    /// On the ground the countdown is removed. In the air, unless the jump
    /// input is held, it counts `delta` up, or is armed if it was absent.
    pub open spec fn update_coyote_time(self, rules: Rules, grounded: bool, delta: nat)
        -> JumpModel {
        if grounded {
            JumpModel { coyote: None, ..self }
        } else if self.jumping {
            self
        } else {
            JumpModel {
                coyote: Some(
                    match self.coyote {
                        Some(coyote) => coyote.tick(delta),
                        None => Clock::armed(rules.coyote_window),
                    },
                ),
                ..self
            }
        }
    }

    /// Whether the buffer pass of a tick of length `delta` keeps the jump
    /// buffer: it is armed, the request still stands, and `delta` does not
    /// run it out.
    pub open spec fn buffer_holds(self, intent: Intent, delta: nat) -> bool {
        self.buffer is Some && intent.jump_start && !self.buffer->0.tick(delta).expired
    }

    /// The state after the buffer pass of a tick of length `delta`.
    pub open spec fn update_jump_buffer(self, intent: Intent, delta: nat) -> JumpModel {
        JumpModel {
            buffer: if self.buffer_holds(intent, delta) {
                Some(self.buffer->0.tick(delta))
            } else {
                None
            },
            ..self
        }
    }

    /// What the jump pass answers.
    ///
    /// A request is granted on the ground and while the coyote countdown
    /// runs; else, while air jumps are left, as an air jump; else denied.
    pub open spec fn jump_outcome(self, intent: Intent, rules: Rules, grounded: bool)
        -> JumpOutcome {
        if !intent.jump_start {
            JumpOutcome::Idle
        } else if grounded || self.coyote_live() {
            JumpOutcome::Granted(JumpKind::FromGround)
        } else if self.air_jumps_used() < rules.max_air_jumps {
            JumpOutcome::Granted(JumpKind::InAir)
        } else {
            JumpOutcome::Denied
        }
    }

    /// The state after the jump pass.
    ///
    /// A cancel clears the held flag, a request sets it. On the ground the
    /// air jumps are forgotten. A granted jump leaves the coyote countdown
    /// spent, so that no second jump counts as grounded before the next
    /// landing. A jump from the ground arms a fresh buffer and forgets the
    /// air jumps; an air jump counts one more. A denied request arms the
    /// buffer unless it is armed.
    pub open spec fn jumping(self, intent: Intent, rules: Rules, grounded: bool) -> JumpModel {
        match self.jump_outcome(intent, rules, grounded) {
            JumpOutcome::Idle => JumpModel {
                jumping: self.jumping && !intent.jump_canceled,
                air_jumps: if grounded {
                    None
                } else {
                    self.air_jumps
                },
                ..self
            },
            JumpOutcome::Granted(JumpKind::FromGround) => JumpModel {
                jumping: true,
                air_jumps: None,
                coyote: Some(Clock::spent(rules.coyote_window)),
                buffer: Some(Clock::armed(rules.buffer_window)),
            },
            JumpOutcome::Granted(JumpKind::InAir) => JumpModel {
                jumping: true,
                air_jumps: Some(self.air_jumps_used() + 1),
                coyote: Some(Clock::spent(rules.coyote_window)),
                buffer: self.buffer,
            },
            JumpOutcome::Denied => JumpModel {
                jumping: true,
                buffer: if self.buffer is Some {
                    self.buffer
                } else {
                    Some(Clock::armed(rules.buffer_window))
                },
                ..self
            },
        }
    }
}

impl Intent {
    /// The flags after the buffer pass: the request stands only while the
    /// buffer holds, or while none is armed.
    pub open spec fn update_jump_buffer(self, state: JumpModel, delta: nat) -> Intent {
        Intent {
            jump_start: self.jump_start && (state.buffer is None || state.buffer_holds(
                self,
                delta,
            )),
            ..self
        }
    }

    /// The flags after the jump pass: the cancel is consumed, and the
    /// request stands only if it was denied.
    pub open spec fn jumping(self, outcome: JumpOutcome) -> Intent {
        Intent { jump_start: outcome == JumpOutcome::Denied, jump_canceled: false }
    }
}

/// The coyote pass: counts the time since the actor left the ground.
pub fn update_coyote_time(
    puppeteer: &Puppeteer,
    state: &mut JumpState,
    grounded: bool,
    delta: Duration,
)
    ensures
        final(state)@ == old(state)@.update_coyote_time(
            puppeteer@,
            grounded,
            duration_nanos(delta),
        ),
{
    if grounded {
        state.coyote_time = None;
    } else if !state.jumping {
        match state.coyote_time.take() {
            Some(mut coyote) => {
                coyote.0.tick(delta);
                state.coyote_time = Some(coyote);
            },
            None => {
                state.coyote_time = Some(CoyoteTime(Countdown::new(puppeteer.coyote_time)));
            },
        }
    }
}

/// The buffer pass: counts the time since a jump request was denied, and
/// forgets the request when its buffer runs out.
pub fn update_jump_buffer(input: &mut PuppeteerInput, state: &mut JumpState, delta: Duration)
    ensures
        final(state)@ == old(state)@.update_jump_buffer(old(input)@, duration_nanos(delta)),
        final(input)@ == old(input)@.update_jump_buffer(old(state)@, duration_nanos(delta)),
{
    match state.jump_buffer.take() {
        Some(mut buffer) => {
            buffer.0.tick(delta);
            if buffer.0.finished() || !input.jump_start {
                input.jump_start = false;
            } else {
                state.jump_buffer = Some(buffer);
            }
        },
        None => {},
    }
}

/// The jump pass: consumes the cancel and the request, and says whether a
/// jump starts on this tick.
pub fn jumping(
    puppeteer: &Puppeteer,
    input: &mut PuppeteerInput,
    state: &mut JumpState,
    grounded: bool,
) -> (outcome: JumpOutcome)
    ensures
        outcome == old(state)@.jump_outcome(old(input)@, puppeteer@, grounded),
        final(state)@ == old(state)@.jumping(old(input)@, puppeteer@, grounded),
        final(input)@ == old(input)@.jumping(outcome),
{
    if input.jump_canceled {
        state.jumping = false;
        input.jump_canceled = false;
    }
    if grounded {
        state.air_jumps = None;
    }
    if !input.jump_start {
        return JumpOutcome::Idle;
    }
    state.jumping = true;
    let coyote_live = match &state.coyote_time {
        Some(coyote) => !coyote.0.finished(),
        None => false,
    };
    let kind = if grounded || coyote_live {
        state.jump_buffer = Some(JumpBuffer(Countdown::new(puppeteer.jump_buffer)));
        state.air_jumps = None;
        JumpKind::FromGround
    } else {
        let used: u32 = match &state.air_jumps {
            Some(count) => count.0,
            None => 0,
        };
        if used < puppeteer.max_air_jumps {
            state.air_jumps = Some(AirJumpCount(used + 1));
            JumpKind::InAir
        } else {
            if state.jump_buffer.is_none() {
                state.jump_buffer = Some(JumpBuffer(Countdown::new(puppeteer.jump_buffer)));
            }
            return JumpOutcome::Denied;
        }
    };
    input.jump_start = false;
    state.coyote_time = Some(CoyoteTime(Countdown::spent(puppeteer.coyote_time)));
    JumpOutcome::Granted(kind)
}

/// How the vertical velocity stands against the two small thresholds.
#[derive(Clone, Copy, Debug, PartialEq, Eq, Structural)]
pub enum VerticalMotion {
    /// Above the positive threshold.
    Rising,
    /// Below the negative threshold.
    Falling,
    /// Between the two, bounds included.
    Level,
}

impl VerticalMotion {
    /// The motion of a vertical velocity that compares to the positive
    /// threshold as `to_upper` says and to the negative one as `to_lower`
    /// says. The thresholds themselves are level, and so is a velocity that
    /// does not compare.
    pub open spec fn classify(to_upper: Option<Ordering>, to_lower: Option<Ordering>)
        -> VerticalMotion {
        if to_upper == Some(Ordering::Greater) {
            VerticalMotion::Rising
        } else if to_lower == Some(Ordering::Less) {
            VerticalMotion::Falling
        } else {
            VerticalMotion::Level
        }
    }

    /// Classifies a vertical velocity by how it compares to the two
    /// thresholds.
    pub fn of(to_upper: Option<Ordering>, to_lower: Option<Ordering>) -> (motion: VerticalMotion)
        ensures
            motion == VerticalMotion::classify(to_upper, to_lower),
    {
        match to_upper {
            Some(Ordering::Greater) => VerticalMotion::Rising,
            _ => match to_lower {
                Some(Ordering::Less) => VerticalMotion::Falling,
                _ => VerticalMotion::Level,
            },
        }
    }
}

/// Which of the profile's gravity multipliers is in force until the next
/// tick.
#[derive(Clone, Copy, Debug, PartialEq, Eq, Structural)]
pub enum GravityMultiplier {
    /// One: the full jump arc.
    Unit,
    /// The jump cutoff, which cuts the arc short.
    JumpCutoff,
    /// The downward-movement multiplier, which speeds the fall.
    DownwardMovement,
}

impl GravityMultiplier {
    /// The multiplier for an actor in vertical `motion` whose jump input is
    /// held or not: rising with the input released cuts the jump, falling
    /// takes the downward multiplier, anything else is one.
    pub open spec fn select(motion: VerticalMotion, jumping: bool) -> GravityMultiplier {
        match motion {
            VerticalMotion::Rising => if jumping {
                GravityMultiplier::Unit
            } else {
                GravityMultiplier::JumpCutoff
            },
            VerticalMotion::Falling => GravityMultiplier::DownwardMovement,
            VerticalMotion::Level => GravityMultiplier::Unit,
        }
    }
}

/// Chooses the gravity multiplier for the next tick. `motion` is that of the
/// vertical velocity after the jump pass and its impulse, `jumping` the held
/// flag after the jump pass.
pub fn gravity_multiplier(motion: VerticalMotion, jumping: bool) -> (multiplier:
    GravityMultiplier)
    ensures
        multiplier == GravityMultiplier::select(motion, jumping),
{
    match motion {
        VerticalMotion::Rising => {
            if jumping {
                GravityMultiplier::Unit
            } else {
                GravityMultiplier::JumpCutoff
            }
        },
        VerticalMotion::Falling => GravityMultiplier::DownwardMovement,
        VerticalMotion::Level => GravityMultiplier::Unit,
    }
}

/// Which pair of rates the integrator reads from the profile.
#[derive(Clone, Copy, Debug, PartialEq, Eq, Structural)]
pub enum Rates {
    /// Acceleration, deceleration and turn speed on the ground.
    Ground,
    /// Their counterparts in the air.
    Air,
}

/// By which rate the horizontal velocity moves towards the desired one.
#[derive(Clone, Copy, Debug, PartialEq, Eq, Structural)]
pub enum SpeedChange {
    /// The deceleration rate: no input, pure braking.
    Decelerate,
    /// The acceleration rate: starting from rest.
    Accelerate,
    /// Between acceleration and turn speed, by how far the input opposes
    /// the current direction.
    Turn,
}

/// What the locomotion integrator does on one tick.
#[derive(Clone, Copy, Debug, PartialEq, Eq, Structural)]
pub struct Movement {
    /// The rates to read.
    pub rates: Rates,
    /// The rate by which to blend.
    pub speed_change: SpeedChange,
    /// Whether vertical velocity accumulates gravity on this tick.
    pub falls: bool,
}

/// Whether a length that compares to the threshold as `to_threshold` says is
/// negligible: it is below the threshold, or does not compare.
pub open spec fn negligible(to_threshold: Option<Ordering>) -> bool {
    to_threshold == Some(Ordering::Less) || to_threshold is None
}

impl Movement {
    /// The integrator's choices for an actor that is `grounded` or not,
    /// from how the length of its input direction and its current speed
    /// compare to the threshold below which each is negligible.
    ///
    /// Without input the actor brakes; from rest it accelerates; else it
    /// turns. Off the ground it reads the air rates and falls.
    pub open spec fn plan(
        grounded: bool,
        input_to_threshold: Option<Ordering>,
        speed_to_threshold: Option<Ordering>,
    ) -> Movement {
        Movement {
            rates: if grounded {
                Rates::Ground
            } else {
                Rates::Air
            },
            speed_change: if negligible(input_to_threshold) {
                SpeedChange::Decelerate
            } else if negligible(speed_to_threshold) {
                SpeedChange::Accelerate
            } else {
                SpeedChange::Turn
            },
            falls: !grounded,
        }
    }
}

/// The locomotion integrator's choices for one tick.
pub fn movement(
    grounded: bool,
    input_to_threshold: Option<Ordering>,
    speed_to_threshold: Option<Ordering>,
) -> (plan: Movement)
    ensures
        plan == Movement::plan(grounded, input_to_threshold, speed_to_threshold),
{
    let rates = if grounded {
        Rates::Ground
    } else {
        Rates::Air
    };
    let speed_change = match input_to_threshold {
        Some(Ordering::Greater) | Some(Ordering::Equal) => match speed_to_threshold {
            Some(Ordering::Greater) | Some(Ordering::Equal) => SpeedChange::Turn,
            _ => SpeedChange::Accelerate,
        },
        _ => SpeedChange::Decelerate,
    };
    Movement { rates, speed_change, falls: !grounded }
}

} // verus!
