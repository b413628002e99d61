//! A kinematic character controller: the decisions of its grounding
//! detector, its jump state machine and its collide-and-slide solver.

pub mod puppet;
pub mod puppeteer;
pub mod tick;
pub mod timer;
