//! One tick of the jump state machine, and what holds over runs of ticks.

use crate::puppeteer::{
    jumping, update_coyote_time, update_jump_buffer, Intent, JumpKind, JumpModel, JumpOutcome,
    JumpState, Puppeteer, PuppeteerInput, Rules,
};
use crate::timer::{duration_nanos, lemma_spent_stays, lemma_tick_all_from, total, Clock};
use core::time::Duration;
use vstd::prelude::*;

verus! {

/// One fixed tick, as the jump state machine sees it.
pub struct Tick {
    /// The grounding detector found ground on this tick.
    pub grounded: bool,
    /// The length of the tick in nanoseconds.
    pub delta: nat,
    /// `start_jump` was called since the last tick.
    pub start: bool,
    /// `stop_jump` was called since the last tick.
    pub stop: bool,
}

impl Tick {
    /// A tick in the air with no command.
    pub open spec fn airborne(delta: nat) -> Tick {
        Tick { grounded: false, delta, start: false, stop: false }
    }

    /// A tick in the air before which a jump was asked for.
    pub open spec fn airborne_jump(delta: nat) -> Tick {
        Tick { grounded: false, delta, start: true, stop: false }
    }

    /// A tick on the ground with no command.
    pub open spec fn landing(delta: nat) -> Tick {
        Tick { grounded: true, delta, start: false, stop: false }
    }
}

/// The jump flags and the jump state of one actor.
pub struct Actor {
    pub intent: Intent,
    pub state: JumpModel,
}

impl Actor {
    /// The jump state as the jump pass of tick `t` finds it: after the
    /// commands, the coyote pass and the buffer pass.
    pub open spec fn before_jump(self, rules: Rules, t: Tick) -> Actor {
        let intent = self.intent.command(t.start, t.stop);
        let timed = self.state.update_coyote_time(rules, t.grounded, t.delta);
        Actor {
            intent: intent.update_jump_buffer(timed, t.delta),
            state: timed.update_jump_buffer(intent, t.delta),
        }
    }

    /// What the jump pass of tick `t` answers.
    pub open spec fn outcome(self, rules: Rules, t: Tick) -> JumpOutcome {
        let a = self.before_jump(rules, t);
        a.state.jump_outcome(a.intent, rules, t.grounded)
    }

    /// The actor after tick `t`.
    pub open spec fn tick(self, rules: Rules, t: Tick) -> Actor {
        let a = self.before_jump(rules, t);
        Actor {
            intent: a.intent.jumping(self.outcome(rules, t)),
            state: a.state.jumping(a.intent, rules, t.grounded),
        }
    }

    /// The actor after one airborne tick without a command for each of
    /// `deltas`.
    pub open spec fn drift(self, rules: Rules, deltas: Seq<nat>) -> Actor
        decreases deltas.len(),
    {
        if deltas.len() == 0 {
            self
        } else {
            self.tick(rules, Tick::airborne(deltas[0])).drift(rules, deltas.drop_first())
        }
    }

    /// Whether a jump is granted on one of the ticks of
    /// [`drift`](Actor::drift).
    pub open spec fn drift_grants(self, rules: Rules, deltas: Seq<nat>) -> bool
        decreases deltas.len(),
    {
        deltas.len() > 0 && (self.outcome(rules, Tick::airborne(deltas[0])) is Granted
            || self.tick(rules, Tick::airborne(deltas[0])).drift_grants(
            rules,
            deltas.drop_first(),
        ))
    }

    /// Standing on the ground with nothing pending: not jumping, no jump
    /// asked for, no countdown armed.
    pub open spec fn at_rest(self) -> bool {
        &&& !self.intent.jump_start
        &&& !self.state.jumping
        &&& self.state.coyote is None
        &&& self.state.buffer is None
    }
}

/// Runs the three passes of one tick in their order: coyote time, jump
/// buffer, jump. The commands of the tick have been given to `input`
/// before.
pub fn tick(
    puppeteer: &Puppeteer,
    input: &mut PuppeteerInput,
    state: &mut JumpState,
    grounded: bool,
    delta: Duration,
) -> (outcome: JumpOutcome)
    ensures
        ({
            let before = Actor { intent: old(input)@, state: old(state)@ };
            let t = Tick { grounded, delta: duration_nanos(delta), start: false, stop: false };
            &&& outcome == before.outcome(puppeteer@, t)
            &&& (Actor { intent: final(input)@, state: final(state)@ }) == before.tick(
                puppeteer@,
                t,
            )
        }),
{
    update_coyote_time(puppeteer, state, grounded, delta);
    update_jump_buffer(input, state, delta);
    jumping(puppeteer, input, state, grounded)
}

/// What holds after every tick, whatever came before it.
///
/// The cancel is consumed. A request stands if and only if it was denied on
/// this tick, and then its buffer is armed and running. A granted jump
/// leaves the jump held and the coyote countdown spent. On the ground no
/// air jump counts as used, and without a jump no coyote countdown is left.
/// In the air the count of air jumps never passes the limit, unless it was
/// past it before.
pub proof fn lemma_after_a_tick(actor: Actor, rules: Rules, t: Tick)
    ensures
        ({
            let outcome = actor.outcome(rules, t);
            let after = actor.tick(rules, t);
            &&& !after.intent.jump_canceled
            &&& after.intent.jump_start <==> outcome == JumpOutcome::Denied
            &&& outcome == JumpOutcome::Denied ==> after.state.buffer is Some
                && !after.state.buffer->0.expired
            &&& outcome is Granted ==> after.state.jumping && after.state.coyote == Some(
                Clock::spent(rules.coyote_window),
            )
            &&& t.grounded ==> after.state.air_jumps is None && outcome != JumpOutcome::Denied
            &&& t.grounded && outcome == JumpOutcome::Idle ==> after.state.coyote is None
            &&& after.state.air_jumps_used() <= rules.max_air_jumps
                || after.state.air_jumps_used() <= actor.state.air_jumps_used()
        }),
{
}

/// A jump asked for on the ground is granted on that tick, unless a buffer
/// armed earlier runs out on that very tick and takes the request with it.
pub proof fn lemma_grounded_jump_is_granted(actor: Actor, rules: Rules, delta: nat, stop: bool)
    requires
        actor.state.buffer is Some ==> !actor.state.buffer->0.tick(delta).expired,
    ensures
        actor.outcome(rules, Tick { grounded: true, delta, start: true, stop })
            == JumpOutcome::Granted(JumpKind::FromGround),
{
}

/// A jump asked for on the first tick off the ground is granted as a jump
/// from the ground, whatever the coyote window.
pub proof fn lemma_jump_on_leaving_ground(actor: Actor, rules: Rules, delta: nat)
    requires
        actor.at_rest(),
    ensures
        actor.outcome(rules, Tick::airborne_jump(delta)) == JumpOutcome::Granted(
            JumpKind::FromGround,
        ),
{
}

/// An actor walks off a ledge: a first tick in the air, then one for each
/// of `waits`, then a tick of length `press` before which a jump is asked
/// for. The jump is granted as a jump from the ground if and only if the
/// time since that first tick, `press` included, is less than the coyote
/// window.
pub proof fn lemma_jump_within_coyote_window(
    actor: Actor,
    rules: Rules,
    first: nat,
    waits: Seq<nat>,
    press: nat,
)
    requires
        actor.at_rest(),
    ensures
        actor.tick(rules, Tick::airborne(first)).drift(rules, waits).outcome(
            rules,
            Tick::airborne_jump(press),
        ) == JumpOutcome::Granted(JumpKind::FromGround) <==> total(waits) + press
            < rules.coyote_window,
{
    let off = actor.tick(rules, Tick::airborne(first));
    assert(off.state.coyote == Some(Clock::armed(rules.coyote_window)));
    lemma_drift_counts_coyote_time(off, rules, waits);
    let armed = Clock::armed(rules.coyote_window);
    if waits.len() > 0 {
        lemma_tick_all_from(armed, waits);
    } else {
        assert(total(waits) == 0);
    }
}

/// Over airborne ticks without a command, an actor that is not jumping and
/// has no request pending counts coyote time and changes nothing else.
pub proof fn lemma_drift_counts_coyote_time(actor: Actor, rules: Rules, deltas: Seq<nat>)
    requires
        !actor.intent.jump_start,
        !actor.intent.jump_canceled,
        !actor.state.jumping,
        actor.state.coyote is Some,
        actor.state.buffer is None,
    ensures
        actor.drift(rules, deltas) == (Actor {
            state: JumpModel {
                coyote: Some(actor.state.coyote->0.tick_all(deltas)),
                ..actor.state
            },
            ..actor
        }),
    decreases deltas.len(),
{
    if deltas.len() > 0 {
        let next = actor.tick(rules, Tick::airborne(deltas[0]));
        lemma_drift_counts_coyote_time(next, rules, deltas.drop_first());
    }
}

/// The state of an actor in the air that can start no jump: the coyote
/// countdown is spent and no air jump is left.
pub open spec fn jump_spent(actor: Actor, rules: Rules) -> bool {
    &&& actor.state.coyote is Some
    &&& actor.state.coyote->0.expired
    &&& actor.state.air_jumps_used() >= rules.max_air_jumps
}

/// A jump asked for in the air, when none can start, is granted on landing
/// and not before.
///
/// The request comes before a tick of length `press`; one airborne tick
/// for each of `waits` follows, then a tick of length `land` on the ground.
/// The request is denied on its own tick, no jump is granted on the ticks
/// that follow in the air, and the landing tick grants the jump if and only
/// if the time since the request's own tick, `land` included, is less than
/// the jump buffer's window.
pub proof fn lemma_buffered_jump_is_granted_on_landing(
    actor: Actor,
    rules: Rules,
    press: nat,
    waits: Seq<nat>,
    land: nat,
)
    requires
        jump_spent(actor, rules),
        actor.state.buffer is None,
    ensures
        actor.outcome(rules, Tick::airborne_jump(press)) == JumpOutcome::Denied,
        !actor.tick(rules, Tick::airborne_jump(press)).drift_grants(rules, waits),
        actor.tick(rules, Tick::airborne_jump(press)).drift(rules, waits).outcome(
            rules,
            Tick::landing(land),
        ) == if total(waits) + land < rules.buffer_window {
            JumpOutcome::Granted(JumpKind::FromGround)
        } else {
            JumpOutcome::Idle
        },
{
    let denied = actor.tick(rules, Tick::airborne_jump(press));
    let armed = Clock::armed(rules.buffer_window);
    assert(denied.state.buffer == Some(armed));
    lemma_drift_keeps_request(denied, rules, waits);
    if waits.len() > 0 {
        lemma_tick_all_from(armed, waits);
    } else {
        assert(total(waits) == 0);
    }
}

/// Over airborne ticks without a command, an actor that can start no jump
/// and has a request buffered is granted none; the buffer counts the time,
/// and the request stands until the buffer runs out.
pub proof fn lemma_drift_keeps_request(actor: Actor, rules: Rules, deltas: Seq<nat>)
    requires
        jump_spent(actor, rules),
        actor.intent.jump_start,
        actor.state.buffer is Some,
        !actor.state.buffer->0.expired,
    ensures
        !actor.drift_grants(rules, deltas),
        jump_spent(actor.drift(rules, deltas), rules),
        ({
            let buffer = actor.state.buffer->0.tick_all(deltas);
            let after = actor.drift(rules, deltas);
            if buffer.expired {
                !after.intent.jump_start && after.state.buffer is None
            } else {
                after.intent.jump_start && after.state.buffer == Some(buffer)
            }
        }),
    decreases deltas.len(),
{
    if deltas.len() > 0 {
        let next = actor.tick(rules, Tick::airborne(deltas[0]));
        let rest = deltas.drop_first();
        let buffer = actor.state.buffer->0.tick(deltas[0]);
        if buffer.expired {
            lemma_spent_stays(buffer.window, rest);
            lemma_drift_without_request(next, rules, rest);
        } else {
            lemma_drift_keeps_request(next, rules, rest);
        }
    }
}

/// Over airborne ticks without a command, an actor that can start no jump
/// and has no request pending is granted none, and stays so.
pub proof fn lemma_drift_without_request(actor: Actor, rules: Rules, deltas: Seq<nat>)
    requires
        jump_spent(actor, rules),
        !actor.intent.jump_start,
    ensures
        !actor.drift_grants(rules, deltas),
        jump_spent(actor.drift(rules, deltas), rules),
        !actor.drift(rules, deltas).intent.jump_start,
        deltas.len() > 0 ==> actor.drift(rules, deltas).state.buffer is None,
    decreases deltas.len(),
{
    if deltas.len() > 0 {
        let next = actor.tick(rules, Tick::airborne(deltas[0]));
        lemma_drift_without_request(next, rules, deltas.drop_first());
    }
}

/// Once the air jumps are used up, a further jump asked for in the air is
/// denied and arms the jump buffer.
///
/// An air jump is granted on tick `first` and uses up the last air jump.
/// One airborne tick without a command for each of `waits` follows, then a
/// tick in the air of length `press` before which a jump is asked for
/// again. Left out is the one case in which the second request is lost
/// instead: a buffer armed before the first jump runs out on the very tick
/// of the second request.
pub proof fn lemma_air_jumps_run_out(
    actor: Actor,
    rules: Rules,
    first: Tick,
    waits: Seq<nat>,
    press: nat,
)
    requires
        !first.grounded,
        actor.outcome(rules, first) == JumpOutcome::Granted(JumpKind::InAir),
        actor.tick(rules, first).state.air_jumps_used() == rules.max_air_jumps,
        ({
            let before = actor.tick(rules, first).drift(rules, waits);
            before.state.buffer is Some ==> !before.state.buffer->0.tick(press).expired
        }),
    ensures
        ({
            let before = actor.tick(rules, first).drift(rules, waits);
            &&& before.outcome(rules, Tick::airborne_jump(press)) == JumpOutcome::Denied
            &&& before.tick(rules, Tick::airborne_jump(press)).state.buffer is Some
            &&& before.tick(rules, Tick::airborne_jump(press)).intent.jump_start
        }),
{
    lemma_drift_without_request(actor.tick(rules, first), rules, waits);
}

/// With one air jump allowed, the jump after an air jump is denied: the
/// special case of [`lemma_air_jumps_run_out`] in which the first air jump
/// is the only one.
pub proof fn lemma_second_air_jump_is_denied(
    actor: Actor,
    rules: Rules,
    first: Tick,
    waits: Seq<nat>,
    press: nat,
)
    requires
        rules.max_air_jumps == 1,
        !first.grounded,
        actor.outcome(rules, first) == JumpOutcome::Granted(JumpKind::InAir),
        ({
            let before = actor.tick(rules, first).drift(rules, waits);
            before.state.buffer is Some ==> !before.state.buffer->0.tick(press).expired
        }),
    ensures
        ({
            let before = actor.tick(rules, first).drift(rules, waits);
            &&& before.outcome(rules, Tick::airborne_jump(press)) == JumpOutcome::Denied
            &&& before.tick(rules, Tick::airborne_jump(press)).state.buffer is Some
        }),
{
    lemma_air_jumps_run_out(actor, rules, first, waits, press);
}

} // verus!
