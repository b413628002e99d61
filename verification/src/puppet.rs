//! The grounding detector and the collide-and-slide solver of a puppet.
//!
//! The solver is a state machine. It never touches a vector: it says what
//! to do next ([`Action`]), is told what came of it ([`Event`]), and decides
//! from the kind of pass, the grounded flag and the depth reached. Its
//! mathematical value is [`Slide`].

use core::cmp::Ordering;
use vstd::prelude::*;

verus! {

/// How many times one pass may be turned aside by an obstacle.
pub const MAX_BOUNCES: u32 = 5;

/// What the short downward probe of the grounding detector found.
#[derive(Clone, Copy, Debug, PartialEq, Eq, Structural)]
pub enum Contact {
    /// A hit at distance zero: the collider already touches or overlaps.
    Overlapping,
    /// A hit further down.
    Apart,
}

impl Contact {
    /// The contact of a hit whose distance compares to zero as
    /// `distance_to_zero` says: overlapping when the two are equal.
    pub open spec fn classify(distance_to_zero: Option<Ordering>) -> Contact {
        if distance_to_zero == Some(Ordering::Equal) {
            Contact::Overlapping
        } else {
            Contact::Apart
        }
    }

    /// Classifies a hit of the downward probe by how its distance compares
    /// to zero.
    pub fn of(distance_to_zero: Option<Ordering>) -> (contact: Contact)
        ensures
            contact == Contact::classify(distance_to_zero),
    {
        match distance_to_zero {
            Some(Ordering::Equal) => Contact::Overlapping,
            _ => Contact::Apart,
        }
    }
}

/// The grounding detector's answer for one tick.
#[derive(Clone, Copy, Debug, PartialEq, Eq, Structural)]
pub struct Grounding {
    /// The actor stands on ground for this tick.
    pub grounded: bool,
    /// The actor is to be moved up by its skin thickness, to restore the
    /// collision margin.
    pub lift: bool,
}

impl Grounding {
    /// Grounded on any hit; lifted when the hit is at distance zero.
    pub open spec fn of(probe: Option<Contact>) -> Grounding {
        Grounding { grounded: probe is Some, lift: probe == Some(Contact::Overlapping) }
    }
}

/// Classifies an actor as grounded or airborne from its downward probe.
pub fn check_if_grounded(probe: Option<Contact>) -> (grounding: Grounding)
    ensures
        grounding == Grounding::of(probe),
{
    match probe {
        Some(Contact::Overlapping) => Grounding { grounded: true, lift: true },
        Some(Contact::Apart) => Grounding { grounded: true, lift: false },
        None => Grounding { grounded: false, lift: false },
    }
}

/// Which of a tick's two displacements a pass resolves.
#[derive(Clone, Copy, Debug, PartialEq, Eq, Structural)]
pub enum Pass {
    /// The horizontal part of the velocity.
    Horizontal,
    /// The vertical part: gravity and jumps.
    Gravity,
}

/// A contact normal against the slope limit.
#[derive(Clone, Copy, Debug, PartialEq, Eq, Structural)]
pub enum Surface {
    /// The angle between the normal and up is at most the slope limit.
    Walkable,
    /// It is steeper.
    Wall,
}

impl Surface {
    /// The surface whose angle to up compares to the slope limit as
    /// `angle_to_limit` says: walkable up to the limit, the limit included;
    /// a wall when steeper, or when the two do not compare.
    pub open spec fn classify(angle_to_limit: Option<Ordering>) -> Surface {
        if angle_to_limit == Some(Ordering::Less) || angle_to_limit == Some(Ordering::Equal) {
            Surface::Walkable
        } else {
            Surface::Wall
        }
    }

    /// Classifies a contact normal by how its angle to up compares to the
    /// slope limit.
    pub fn of(angle_to_limit: Option<Ordering>) -> (surface: Surface)
        ensures
            surface == Surface::classify(angle_to_limit),
    {
        match angle_to_limit {
            Some(Ordering::Less) | Some(Ordering::Equal) => Surface::Walkable,
            _ => Surface::Wall,
        }
    }
}

/// What a shape cast found.
#[derive(Clone, Copy, Debug, PartialEq, Eq, Structural)]
pub enum Sweep {
    /// Nothing within the cast's reach.
    Clear,
    /// The nearest hit, by its surface.
    Blocked(Surface),
}

/// The vector that one level of the solver resolves.
#[derive(Clone, Copy, Debug, PartialEq, Eq, Structural)]
pub enum Heading {
    /// The displacement asked for.
    Requested,
    /// What the level above left over, turned into the plane of the
    /// walkable surface it hit, at its old length.
    AlongSlope,
    /// What the level above left over, flattened and turned along the
    /// flattened wall it hit, scaled by how squarely it hit.
    AlongWall,
}

/// What the last level adds to the travel of the levels above it.
#[derive(Clone, Copy, Debug, PartialEq, Eq, Structural)]
pub enum Ending {
    /// Nothing: the vector had no length, or the depth limit was reached.
    Nothing,
    /// The whole vector: nothing was in the way.
    Whole,
    /// The travel up to the surface hit: a fall that landed.
    Travel,
    /// The step: forward at the raised height, and up by the height
    /// climbed.
    Step,
}

/// What the solver asks of its caller.
#[derive(Clone, Copy, Debug, PartialEq, Eq, Structural)]
pub enum Action {
    /// Form this level's vector and report whether it has zero length.
    Measure(Heading),
    /// Cast the collider along the vector, for its length and the skin.
    Cast,
    /// Probe for a step: cast up, forward at the raised height, and down.
    ProbeStep,
    /// Stop: the pass is resolved.
    Finish(Ending),
}

/// What the caller reports back.
#[derive(Clone, Copy, Debug, PartialEq, Eq, Structural)]
pub enum Event {
    /// The answer to [`Action::Measure`].
    Measured { still: bool },
    /// The answer to [`Action::Cast`].
    Swept(Sweep),
    /// The answer to [`Action::ProbeStep`]: what the downward cast found.
    Landed(Sweep),
}

impl Event {
    /// The report on a vector whose length compares to zero as
    /// `length_to_zero` says: still unless the length is above zero. A
    /// length that does not compare counts as none.
    pub open spec fn measure(length_to_zero: Option<Ordering>) -> Event {
        Event::Measured { still: length_to_zero != Some(Ordering::Greater) }
    }

    /// Reports on a level's vector by how its length compares to zero.
    pub fn measured(length_to_zero: Option<Ordering>) -> (event: Event)
        ensures
            event == Event::measure(length_to_zero),
    {
        match length_to_zero {
            Some(Ordering::Greater) => Event::Measured { still: false },
            _ => Event::Measured { still: true },
        }
    }
}

/// Whether a travel towards a hit is made, when its length compares to the
/// skin thickness as `travel_to_skin` says: a travel shorter than the skin,
/// or one that does not compare, is not made.
pub open spec fn clears_skin(travel_to_skin: Option<Ordering>) -> bool {
    travel_to_skin == Some(Ordering::Greater) || travel_to_skin == Some(Ordering::Equal)
}

/// Decides whether a travel towards a hit is made or dropped to zero, by
/// how its length compares to the skin thickness.
pub fn travels(travel_to_skin: Option<Ordering>) -> (made: bool)
    ensures
        made == clears_skin(travel_to_skin),
{
    match travel_to_skin {
        Some(Ordering::Greater) | Some(Ordering::Equal) => true,
        _ => false,
    }
}

/// The mathematical value of a [`Solver`].
pub struct Slide {
    pub pass: Pass,
    pub grounded: bool,
    /// How many times the pass was turned aside so far.
    pub depth: nat,
    pub max_bounces: nat,
    /// What the solver waits for.
    pub pending: Action,
}

impl Slide {
    /// A pass before its first step.
    pub open spec fn start(pass: Pass, grounded: bool, max_bounces: nat) -> Slide {
        Slide { pass, grounded, depth: 0, max_bounces, pending: Action::Measure(Heading::Requested) }
    }

    /// The depth never passes the limit, and a cast is asked for only
    /// below it.
    pub open spec fn wf(self) -> bool {
        &&& self.depth <= self.max_bounces
        &&& (self.pending is Cast || self.pending is ProbeStep) ==> self.depth
            < self.max_bounces
    }

    /// The pass stopped with `ending`.
    pub open spec fn finish(self, ending: Ending) -> Slide {
        Slide { pending: Action::Finish(ending), ..self }
    }

    /// The pass goes one level down, along `heading`.
    pub open spec fn turn(self, heading: Heading) -> Slide {
        Slide { depth: self.depth + 1, pending: Action::Measure(heading), ..self }
    }

    /// The solver after `event`. An event that does not answer what is
    /// pending changes nothing.
    ///
    /// - A vector without length, or one at the depth limit, ends the pass
    ///   with nothing; any other is cast.
    /// - A clear cast ends the pass with the whole vector.
    /// - On a walkable surface a gravity pass has landed; a horizontal pass
    ///   follows the slope.
    /// - At a wall a grounded horizontal pass probes for a step; any other
    ///   slides along the wall.
    /// - A step that lands on a walkable surface ends the pass; any other
    ///   probe falls back to sliding along the wall.
    pub open spec fn advance(self, event: Event) -> Slide {
        match (self.pending, event) {
            (Action::Measure(_), Event::Measured { still }) => if still || self.depth
                >= self.max_bounces {
                self.finish(Ending::Nothing)
            } else {
                Slide { pending: Action::Cast, ..self }
            },
            (Action::Cast, Event::Swept(Sweep::Clear)) => self.finish(Ending::Whole),
            (Action::Cast, Event::Swept(Sweep::Blocked(Surface::Walkable))) => if self.pass
                == Pass::Gravity {
                self.finish(Ending::Travel)
            } else {
                self.turn(Heading::AlongSlope)
            },
            (Action::Cast, Event::Swept(Sweep::Blocked(Surface::Wall))) => if self.grounded
                && self.pass == Pass::Horizontal {
                Slide { pending: Action::ProbeStep, ..self }
            } else {
                self.turn(Heading::AlongWall)
            },
            (Action::ProbeStep, Event::Landed(Sweep::Blocked(Surface::Walkable))) => self.finish(
                Ending::Step,
            ),
            (Action::ProbeStep, Event::Landed(_)) => self.turn(Heading::AlongWall),
            _ => self,
        }
    }

    /// The solver after each of `events` in turn.
    pub open spec fn run(self, events: Seq<Event>) -> Slide
        decreases events.len(),
    {
        if events.len() == 0 {
            self
        } else {
            self.advance(events[0]).run(events.drop_first())
        }
    }

    /// How many casts along a level's vector the solver asks for while it
    /// is told `events`.
    pub open spec fn casts(self, events: Seq<Event>) -> nat
        decreases events.len(),
    {
        if events.len() == 0 {
            0
        } else {
            let next = self.advance(events[0]);
            let asked: nat = if next.pending is Cast && !(self.pending is Cast) {
                1
            } else {
                0
            };
            asked + next.casts(events.drop_first())
        }
    }

    /// How many casts along a level's vector the solver can still ask for.
    pub open spec fn casts_left(self) -> nat {
        match self.pending {
            Action::Measure(_) => (self.max_bounces - self.depth) as nat,
            Action::Cast | Action::ProbeStep => (self.max_bounces - self.depth - 1) as nat,
            Action::Finish(_) => 0,
        }
    }
}

/// The collide-and-slide solver of one pass.
pub struct Solver {
    pass: Pass,
    grounded: bool,
    depth: u32,
    max_bounces: u32,
    pending: Action,
}

impl View for Solver {
    type V = Slide;

    closed spec fn view(&self) -> Slide {
        Slide {
            pass: self.pass,
            grounded: self.grounded,
            depth: self.depth as nat,
            max_bounces: self.max_bounces as nat,
            pending: self.pending,
        }
    }
}

impl Solver {
    #[verifier::type_invariant]
    spec fn well_formed(self) -> bool {
        self@.wf()
    }

    /// A solver for one pass of an actor that is `grounded` or not, which
    /// gives up after `max_bounces` obstacles.
    pub fn new(pass: Pass, grounded: bool, max_bounces: u32) -> (solver: Solver)
        ensures
            solver@ == Slide::start(pass, grounded, max_bounces as nat),
    {
        Solver { pass, grounded, depth: 0, max_bounces, pending: Action::Measure(Heading::Requested) }
    }

    /// What the solver waits for.
    pub fn pending(&self) -> (action: Action)
        ensures
            action == self@.pending,
            self@.wf(),
    {
        proof {
            use_type_invariant(self);
        }
        self.pending
    }

    /// How many times the pass was turned aside so far.
    pub fn depth(&self) -> (depth: u32)
        ensures
            depth == self@.depth,
    {
        self.depth
    }

    /// Takes `event` in and says what to do next.
    pub fn advance(&mut self, event: Event) -> (next: Action)
        ensures
            final(self)@ == old(self)@.advance(event),
            next == final(self)@.pending,
    {
        proof {
            use_type_invariant(&*self);
        }
        let next = match (self.pending, event) {
            (Action::Measure(_), Event::Measured { still }) => {
                if still || self.depth >= self.max_bounces {
                    Action::Finish(Ending::Nothing)
                } else {
                    Action::Cast
                }
            },
            (Action::Cast, Event::Swept(Sweep::Clear)) => Action::Finish(Ending::Whole),
            (Action::Cast, Event::Swept(Sweep::Blocked(Surface::Walkable))) => {
                match self.pass {
                    Pass::Gravity => Action::Finish(Ending::Travel),
                    Pass::Horizontal => Action::Measure(Heading::AlongSlope),
                }
            },
            (Action::Cast, Event::Swept(Sweep::Blocked(Surface::Wall))) => {
                match self.pass {
                    Pass::Horizontal if self.grounded => Action::ProbeStep,
                    _ => Action::Measure(Heading::AlongWall),
                }
            },
            (Action::ProbeStep, Event::Landed(Sweep::Blocked(Surface::Walkable))) => {
                Action::Finish(Ending::Step)
            },
            (Action::ProbeStep, Event::Landed(_)) => Action::Measure(Heading::AlongWall),
            _ => self.pending,
        };
        let turned = match (self.pending, next) {
            (Action::Measure(_), _) => false,
            (_, Action::Measure(_)) => true,
            _ => false,
        };
        self.pending = next;
        if turned {
            self.depth = self.depth + 1;
        }
        next
    }
}

/// The two passes of one tick, in the order in which they run: first the
/// horizontal one, then gravity, both on the grounded flag of this tick.
pub fn move_puppet(grounded: bool) -> (passes: (Solver, Solver))
    ensures
        passes.0@ == Slide::start(Pass::Horizontal, grounded, MAX_BOUNCES as nat),
        passes.1@ == Slide::start(Pass::Gravity, grounded, MAX_BOUNCES as nat),
{
    (
        Solver::new(Pass::Horizontal, grounded, MAX_BOUNCES),
        Solver::new(Pass::Gravity, grounded, MAX_BOUNCES),
    )
}

/// An obstacle as one level of the solver meets it.
pub struct Obstacle {
    /// The surface that the cast along the level's vector hits.
    pub surface: Surface,
    /// What the downward cast of a step probe finds, if the solver probes.
    pub landing: Sweep,
}

impl Slide {
    /// The solver after one level whose vector has length and whose cast
    /// hits `obstacle`.
    pub open spec fn bounce(self, obstacle: Obstacle) -> Slide {
        let hit = self.advance(Event::Measured { still: false }).advance(
            Event::Swept(Sweep::Blocked(obstacle.surface)),
        );
        if hit.pending is ProbeStep {
            hit.advance(Event::Landed(obstacle.landing))
        } else {
            hit
        }
    }

    /// The solver after one level for each of `obstacles`.
    pub open spec fn bounce_all(self, obstacles: Seq<Obstacle>) -> Slide
        decreases obstacles.len(),
    {
        if obstacles.len() == 0 {
            self
        } else {
            self.bounce(obstacles[0]).bounce_all(obstacles.drop_first())
        }
    }

    /// Whether `obstacle` turns the pass aside instead of ending it: it is
    /// no landing of a fall, and no step that can be climbed.
    pub open spec fn turned_by(self, obstacle: Obstacle) -> bool {
        &&& !(self.pass == Pass::Gravity && obstacle.surface == Surface::Walkable)
        &&& !(self.climbs() && obstacle.surface == Surface::Wall && obstacle.landing
            == Sweep::Blocked(Surface::Walkable))
    }

    /// Whether the pass probes for steps at walls: a horizontal pass of a
    /// grounded actor.
    pub open spec fn climbs(self) -> bool {
        self.grounded && self.pass == Pass::Horizontal
    }
}

/// Whatever the solver is told, it stays well formed and asks for no more
/// casts along a vector than [`Slide::casts_left`] says: from the start of
/// a pass, no more than `max_bounces`.
pub proof fn lemma_casts_are_bounded(slide: Slide, events: Seq<Event>)
    requires
        slide.wf(),
    ensures
        slide.run(events).wf(),
        slide.casts(events) <= slide.casts_left(),
        slide.casts_left() <= slide.max_bounces,
    decreases events.len(),
{
    if events.len() > 0 {
        lemma_casts_are_bounded(slide.advance(events[0]), events.drop_first());
    }
}

/// A pass that has stopped stays stopped, with the same ending.
pub proof fn lemma_finish_is_final(slide: Slide, events: Seq<Event>)
    requires
        slide.pending is Finish,
    ensures
        slide.run(events) == slide,
    decreases events.len(),
{
    if events.len() > 0 {
        lemma_finish_is_final(slide, events.drop_first());
    }
}

/// Obstacles at every depth: a pass that is turned aside on each level
/// reaches the depth limit after exactly `max_bounces` casts and ends there,
/// adding nothing more, without another cast.
pub proof fn lemma_blocked_at_every_depth(
    pass: Pass,
    grounded: bool,
    max_bounces: nat,
    obstacles: Seq<Obstacle>,
)
    requires
        obstacles.len() == max_bounces,
        forall|i: int|
            0 <= i < obstacles.len() ==> #[trigger] Slide::start(
                pass,
                grounded,
                max_bounces,
            ).turned_by(obstacles[i]),
    ensures
        ({
            let end = Slide::start(pass, grounded, max_bounces).bounce_all(obstacles);
            &&& end.depth == max_bounces
            &&& end.pending is Measure
            &&& end.advance(Event::Measured { still: false }).pending == Action::Finish(
                Ending::Nothing,
            )
        }),
{
    lemma_bounces_count(Slide::start(pass, grounded, max_bounces), obstacles);
}

/// Each obstacle that turns a pass aside takes it one level down.
pub proof fn lemma_bounces_count(slide: Slide, obstacles: Seq<Obstacle>)
    requires
        slide.pending is Measure,
        slide.depth + obstacles.len() <= slide.max_bounces,
        forall|i: int| 0 <= i < obstacles.len() ==> #[trigger] slide.turned_by(obstacles[i]),
    ensures
        slide.bounce_all(obstacles).pending is Measure,
        slide.bounce_all(obstacles).depth == slide.depth + obstacles.len(),
        slide.bounce_all(obstacles).pass == slide.pass,
        slide.bounce_all(obstacles).grounded == slide.grounded,
        slide.bounce_all(obstacles).max_bounces == slide.max_bounces,
    decreases obstacles.len(),
{
    if obstacles.len() > 0 {
        let next = slide.bounce(obstacles[0]);
        let rest = obstacles.drop_first();
        assert(slide.turned_by(obstacles[0]));
        assert forall|i: int| 0 <= i < rest.len() implies #[trigger] next.turned_by(rest[i]) by {
            assert(slide.turned_by(obstacles[i + 1]));
        }
        lemma_bounces_count(next, rest);
    }
}

/// What a level does at the surface it hits.
///
/// On a walkable surface it never probes for a step and never slides along
/// a wall: a fall has landed, a horizontal pass follows the slope. At a
/// wall it probes for a step if the pass climbs, and slides along the wall
/// if not.
pub proof fn lemma_surface_decides(slide: Slide, surface: Surface)
    requires
        slide.pending is Cast,
    ensures
        ({
            let next = slide.advance(Event::Swept(Sweep::Blocked(surface))).pending;
            match surface {
                Surface::Walkable => next == if slide.pass == Pass::Gravity {
                    Action::Finish(Ending::Travel)
                } else {
                    Action::Measure(Heading::AlongSlope)
                },
                Surface::Wall => next == if slide.climbs() {
                    Action::ProbeStep
                } else {
                    Action::Measure(Heading::AlongWall)
                },
            }
        }),
{
}

/// The slope limit itself is walkable, and anything steeper is a wall: a
/// level that hits a surface at the limit follows the slope or lands on it,
/// one that hits a steeper surface probes for a step or slides along the
/// wall.
pub proof fn lemma_slope_limit_is_walkable(slide: Slide)
    requires
        slide.pending is Cast,
    ensures
        Surface::classify(Some(Ordering::Equal)) == Surface::Walkable,
        Surface::classify(Some(Ordering::Greater)) == Surface::Wall,
        ({
            let at_limit = slide.advance(
                Event::Swept(Sweep::Blocked(Surface::classify(Some(Ordering::Equal)))),
            ).pending;
            at_limit == Action::Measure(Heading::AlongSlope) || at_limit == Action::Finish(
                Ending::Travel,
            )
        }),
        ({
            let steeper = slide.advance(
                Event::Swept(Sweep::Blocked(Surface::classify(Some(Ordering::Greater)))),
            ).pending;
            steeper == Action::ProbeStep || steeper == Action::Measure(Heading::AlongWall)
        }),
{
}

/// However a pass runs, its ending fits it: only a horizontal pass of a
/// grounded actor ends with a step, and only a gravity pass ends with the
/// travel to a landing.
pub proof fn lemma_ending_fits_the_pass(
    pass: Pass,
    grounded: bool,
    max_bounces: nat,
    events: Seq<Event>,
)
    ensures
        ({
            let start = Slide::start(pass, grounded, max_bounces);
            let end = start.run(events);
            &&& end.pending == Action::Finish(Ending::Step) ==> start.climbs()
            &&& end.pending == Action::Finish(Ending::Travel) ==> pass == Pass::Gravity
            &&& end.pending is ProbeStep ==> start.climbs()
        }),
{
    lemma_run_keeps_the_pass(Slide::start(pass, grounded, max_bounces), events);
}

/// A run changes neither the kind of pass nor the grounded flag nor the
/// limit, and reaches a step probe, a step or a landing only in a pass
/// that allows it.
pub proof fn lemma_run_keeps_the_pass(slide: Slide, events: Seq<Event>)
    requires
        slide.pending is ProbeStep || slide.pending == Action::Finish(Ending::Step)
            ==> slide.climbs(),
        slide.pending == Action::Finish(Ending::Travel) ==> slide.pass == Pass::Gravity,
    ensures
        ({
            let end = slide.run(events);
            &&& end.pass == slide.pass
            &&& end.grounded == slide.grounded
            &&& end.max_bounces == slide.max_bounces
            &&& end.pending is ProbeStep || end.pending == Action::Finish(Ending::Step)
                ==> slide.climbs()
            &&& end.pending == Action::Finish(Ending::Travel) ==> slide.pass == Pass::Gravity
        }),
    decreases events.len(),
{
    if events.len() > 0 {
        lemma_run_keeps_the_pass(slide.advance(events[0]), events.drop_first());
    }
}

/// A step is climbed if and only if a grounded actor's horizontal pass
/// hits a wall and the step probe lands on a walkable surface. The pass
/// ends there, with the step. Any other probe slides along the wall, one
/// level down.
pub proof fn lemma_step_is_climbed(slide: Slide, obstacle: Obstacle)
    requires
        slide.pending is Measure,
        slide.depth < slide.max_bounces,
    ensures
        slide.bounce(obstacle).pending == Action::Finish(Ending::Step) <==> slide.climbs()
            && obstacle.surface == Surface::Wall && obstacle.landing == Sweep::Blocked(
            Surface::Walkable,
        ),
        slide.climbs() && obstacle.surface == Surface::Wall && obstacle.landing != Sweep::Blocked(
            Surface::Walkable,
        ) ==> slide.bounce(obstacle) == slide.turn(Heading::AlongWall),
{
}

} // verus!
