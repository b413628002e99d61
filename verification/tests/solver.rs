use puppeteer::puppet::{
    check_if_grounded, move_puppet, travels, Action, Contact, Ending, Event, Grounding, Heading,
    Pass, Solver, Surface, Sweep, MAX_BOUNCES,
};
use std::cmp::Ordering;

const GO: Event = Event::Measured { still: false };
const WALL: Event = Event::Swept(Sweep::Blocked(Surface::Wall));
const SLOPE: Event = Event::Swept(Sweep::Blocked(Surface::Walkable));

#[test]
fn probe_without_a_hit_is_airborne() {
    assert_eq!(check_if_grounded(None), Grounding { grounded: false, lift: false });
}

#[test]
fn probe_with_a_hit_is_grounded() {
    assert_eq!(
        check_if_grounded(Some(Contact::Apart)),
        Grounding { grounded: true, lift: false }
    );
}

#[test]
fn overlapping_probe_lifts_the_actor() {
    assert_eq!(
        check_if_grounded(Some(Contact::Overlapping)),
        Grounding { grounded: true, lift: true }
    );
}

#[test]
fn contact_overlaps_at_distance_zero_only() {
    assert_eq!(Contact::of(Some(Ordering::Equal)), Contact::Overlapping);
    assert_eq!(Contact::of(Some(Ordering::Greater)), Contact::Apart);
    assert_eq!(Contact::of(Some(Ordering::Less)), Contact::Apart);
    assert_eq!(Contact::of(None), Contact::Apart);
}

#[test]
fn surface_at_the_slope_limit_is_walkable() {
    assert_eq!(Surface::of(Some(Ordering::Equal)), Surface::Walkable);
    assert_eq!(Surface::of(Some(Ordering::Less)), Surface::Walkable);
}

#[test]
fn surface_above_the_slope_limit_is_a_wall() {
    assert_eq!(Surface::of(Some(Ordering::Greater)), Surface::Wall);
    assert_eq!(Surface::of(None), Surface::Wall);
}

#[test]
fn slope_limit_decides_between_slope_and_wall() {
    let limit = 55.0_f32;
    for (angle, surface, next) in [
        (55.0_f32, Surface::Walkable, Action::Measure(Heading::AlongSlope)),
        (56.0_f32, Surface::Wall, Action::ProbeStep),
    ] {
        let found = Surface::of(angle.partial_cmp(&limit));
        assert_eq!(found, surface);
        let mut solver = Solver::new(Pass::Horizontal, true, MAX_BOUNCES);
        assert_eq!(solver.advance(GO), Action::Cast);
        assert_eq!(solver.advance(Event::Swept(Sweep::Blocked(found))), next);
    }
}

#[test]
fn max_bounces_is_five() {
    assert_eq!(MAX_BOUNCES, 5);
}

#[test]
fn new_solver_asks_for_the_requested_vector() {
    let solver = Solver::new(Pass::Gravity, false, 3);
    assert_eq!(solver.pending(), Action::Measure(Heading::Requested));
    assert_eq!(solver.depth(), 0);
}

#[test]
fn move_puppet_runs_the_horizontal_pass_first() {
    let (mut first, mut second) = move_puppet(true);
    assert_eq!(first.pending(), Action::Measure(Heading::Requested));
    assert_eq!(second.pending(), Action::Measure(Heading::Requested));
    assert_eq!(first.advance(GO), Action::Cast);
    assert_eq!(second.advance(GO), Action::Cast);
    assert_eq!(first.advance(WALL), Action::ProbeStep);
    assert_eq!(second.advance(SLOPE), Action::Finish(Ending::Travel));
}

#[test]
fn vector_without_length_adds_nothing() {
    let mut solver = Solver::new(Pass::Horizontal, true, MAX_BOUNCES);
    assert_eq!(
        solver.advance(Event::Measured { still: true }),
        Action::Finish(Ending::Nothing)
    );
    assert_eq!(solver.depth(), 0);
}

#[test]
fn no_bounces_allowed_adds_nothing() {
    let mut solver = Solver::new(Pass::Horizontal, true, 0);
    assert_eq!(solver.advance(GO), Action::Finish(Ending::Nothing));
}

#[test]
fn clear_cast_takes_the_whole_vector() {
    let mut solver = Solver::new(Pass::Horizontal, false, MAX_BOUNCES);
    assert_eq!(solver.advance(GO), Action::Cast);
    assert_eq!(solver.advance(Event::Swept(Sweep::Clear)), Action::Finish(Ending::Whole));
    assert_eq!(solver.depth(), 0);
}

#[test]
fn fall_lands_on_walkable_ground() {
    for grounded in [false, true] {
        let mut solver = Solver::new(Pass::Gravity, grounded, MAX_BOUNCES);
        assert_eq!(solver.advance(GO), Action::Cast);
        assert_eq!(solver.advance(SLOPE), Action::Finish(Ending::Travel));
    }
}

#[test]
fn horizontal_pass_follows_a_slope() {
    for grounded in [false, true] {
        let mut solver = Solver::new(Pass::Horizontal, grounded, MAX_BOUNCES);
        assert_eq!(solver.advance(GO), Action::Cast);
        assert_eq!(solver.advance(SLOPE), Action::Measure(Heading::AlongSlope));
        assert_eq!(solver.depth(), 1);
    }
}

#[test]
fn fall_slides_along_a_wall() {
    for grounded in [false, true] {
        let mut solver = Solver::new(Pass::Gravity, grounded, MAX_BOUNCES);
        assert_eq!(solver.advance(GO), Action::Cast);
        assert_eq!(solver.advance(WALL), Action::Measure(Heading::AlongWall));
        assert_eq!(solver.depth(), 1);
    }
}

#[test]
fn airborne_actor_slides_along_a_wall() {
    let mut solver = Solver::new(Pass::Horizontal, false, MAX_BOUNCES);
    assert_eq!(solver.advance(GO), Action::Cast);
    assert_eq!(solver.advance(WALL), Action::Measure(Heading::AlongWall));
    assert_eq!(solver.depth(), 1);
}

#[test]
fn grounded_actor_climbs_a_step() {
    let mut solver = Solver::new(Pass::Horizontal, true, MAX_BOUNCES);
    assert_eq!(solver.advance(GO), Action::Cast);
    assert_eq!(solver.advance(WALL), Action::ProbeStep);
    assert_eq!(solver.depth(), 0);
    assert_eq!(
        solver.advance(Event::Landed(Sweep::Blocked(Surface::Walkable))),
        Action::Finish(Ending::Step)
    );
    assert_eq!(solver.depth(), 0);
}

#[test]
fn step_onto_a_steep_surface_slides_along_the_wall() {
    let mut solver = Solver::new(Pass::Horizontal, true, MAX_BOUNCES);
    assert_eq!(solver.advance(GO), Action::Cast);
    assert_eq!(solver.advance(WALL), Action::ProbeStep);
    assert_eq!(
        solver.advance(Event::Landed(Sweep::Blocked(Surface::Wall))),
        Action::Measure(Heading::AlongWall)
    );
    assert_eq!(solver.depth(), 1);
}

#[test]
fn step_without_a_landing_slides_along_the_wall() {
    let mut solver = Solver::new(Pass::Horizontal, true, MAX_BOUNCES);
    assert_eq!(solver.advance(GO), Action::Cast);
    assert_eq!(solver.advance(WALL), Action::ProbeStep);
    assert_eq!(
        solver.advance(Event::Landed(Sweep::Clear)),
        Action::Measure(Heading::AlongWall)
    );
    assert_eq!(solver.depth(), 1);
}

#[test]
fn unasked_event_changes_nothing() {
    let mut solver = Solver::new(Pass::Horizontal, true, MAX_BOUNCES);
    assert_eq!(solver.advance(WALL), Action::Measure(Heading::Requested));
    assert_eq!(
        solver.advance(Event::Landed(Sweep::Clear)),
        Action::Measure(Heading::Requested)
    );
    assert_eq!(solver.advance(GO), Action::Cast);
    assert_eq!(solver.advance(GO), Action::Cast);
    assert_eq!(solver.advance(Event::Landed(Sweep::Clear)), Action::Cast);
    assert_eq!(solver.advance(WALL), Action::ProbeStep);
    assert_eq!(solver.advance(WALL), Action::ProbeStep);
    assert_eq!(solver.advance(GO), Action::ProbeStep);
    assert_eq!(solver.depth(), 0);
}

#[test]
fn finished_pass_stays_finished() {
    let mut solver = Solver::new(Pass::Horizontal, true, MAX_BOUNCES);
    assert_eq!(solver.advance(GO), Action::Cast);
    assert_eq!(solver.advance(Event::Swept(Sweep::Clear)), Action::Finish(Ending::Whole));
    for event in [GO, WALL, SLOPE, Event::Landed(Sweep::Clear)] {
        assert_eq!(solver.advance(event), Action::Finish(Ending::Whole));
    }
    assert_eq!(solver.pending(), Action::Finish(Ending::Whole));
}

#[test]
fn walls_at_every_depth_stop_the_pass_after_the_limit() {
    for limit in [1_u32, 2, MAX_BOUNCES, 9] {
        let mut solver = Solver::new(Pass::Horizontal, false, limit);
        let mut casts = 0_u32;
        let mut next = solver.advance(GO);
        while next == Action::Cast {
            casts += 1;
            assert_eq!(solver.advance(WALL), Action::Measure(Heading::AlongWall));
            next = solver.advance(GO);
        }
        assert_eq!(next, Action::Finish(Ending::Nothing));
        assert_eq!(casts, limit);
        assert_eq!(solver.depth(), limit);
    }
}

#[test]
fn failed_steps_at_every_depth_stop_the_pass_after_the_limit() {
    let mut solver = Solver::new(Pass::Horizontal, true, MAX_BOUNCES);
    let mut casts = 0_u32;
    let mut probes = 0_u32;
    let mut next = solver.advance(GO);
    while next == Action::Cast {
        casts += 1;
        assert_eq!(solver.advance(WALL), Action::ProbeStep);
        probes += 1;
        assert_eq!(
            solver.advance(Event::Landed(Sweep::Blocked(Surface::Wall))),
            Action::Measure(Heading::AlongWall)
        );
        next = solver.advance(GO);
    }
    assert_eq!(next, Action::Finish(Ending::Nothing));
    assert_eq!(casts, 5);
    assert_eq!(probes, 5);
}

#[test]
fn slopes_at_every_depth_stop_the_pass_after_the_limit() {
    let mut solver = Solver::new(Pass::Horizontal, true, MAX_BOUNCES);
    for depth in 0..MAX_BOUNCES {
        assert_eq!(solver.depth(), depth);
        assert_eq!(solver.advance(GO), Action::Cast);
        assert_eq!(solver.advance(SLOPE), Action::Measure(Heading::AlongSlope));
    }
    assert_eq!(solver.advance(GO), Action::Finish(Ending::Nothing));
    assert_eq!(solver.depth(), MAX_BOUNCES);
}

#[test]
fn largest_limit_does_not_overflow_the_depth() {
    let mut solver = Solver::new(Pass::Horizontal, false, u32::MAX);
    assert_eq!(solver.advance(GO), Action::Cast);
    assert_eq!(solver.advance(WALL), Action::Measure(Heading::AlongWall));
    assert_eq!(solver.depth(), 1);
}

#[test]
fn vector_is_still_unless_it_has_length() {
    assert_eq!(Event::measured(Some(Ordering::Greater)), Event::Measured { still: false });
    assert_eq!(Event::measured(Some(Ordering::Equal)), Event::Measured { still: true });
    assert_eq!(Event::measured(Some(Ordering::Less)), Event::Measured { still: true });
    assert_eq!(Event::measured(None), Event::Measured { still: true });
}

#[test]
fn vector_that_is_not_a_number_adds_nothing() {
    let mut solver = Solver::new(Pass::Horizontal, true, MAX_BOUNCES);
    let length = f32::NAN;
    assert_eq!(
        solver.advance(Event::measured(length.partial_cmp(&0.0))),
        Action::Finish(Ending::Nothing)
    );
}

#[test]
fn travel_below_the_skin_is_dropped() {
    assert!(travels(Some(Ordering::Greater)));
    assert!(travels(Some(Ordering::Equal)));
    assert!(!travels(Some(Ordering::Less)));
    assert!(!travels(None));
    let skin = 0.025_f32;
    assert!(!travels((0.02_f32 - skin).partial_cmp(&skin)));
    assert!(!travels(0.01_f32.partial_cmp(&skin)));
    assert!(travels(0.025_f32.partial_cmp(&skin)));
    assert!(travels(0.3_f32.partial_cmp(&skin)));
}
