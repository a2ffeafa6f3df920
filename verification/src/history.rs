//! What holds of a world over time.
//!
//! A history is a sequence of steps, one for each callback the world has
//! handled. The statements here are about every world and every history:
//! what a single step does, what no step ever undoes, and what therefore
//! holds for good once it has come about.

use vstd::prelude::*;
use crate::joint::{Contact, Joint};
use crate::world::{
    lemma_extend_keeps_wf, lemma_fire_keeps_wf, lemma_sticky_contact_keeps_wf,
    lemma_unmarked_has_no_fresh, ExtendEvent, Segment, WorldView,
};

verus! {

/// One callback, with the input the world's next state depends on.
pub enum Step<V> {
    /// The fire command of a frame.
    Fire { held: bool },
    /// The leaving sensor reported the end of an overlap.
    OriginLeft { collider: usize, position: Option<V>, held: bool },
    /// A sticky sensor reported the start of an overlap.
    StickyContact { sensor: usize, other: u64, contact: Contact<V> },
}

impl<V> WorldView<V> {
    /// The world after one step.
    pub open spec fn step(self, step: Step<V>) -> WorldView<V> {
        match step {
            Step::Fire { held } => self.after_fire(held),
            Step::OriginLeft { collider, position, held } => self.after_origin_left(
                collider,
                position,
                held,
            ),
            Step::StickyContact { sensor, other, contact } => self.after_sticky_contact(
                sensor,
                other,
                contact,
            ),
        }
    }

    /// The world after a history, oldest step first.
    pub open spec fn run(self, steps: Seq<Step<V>>) -> WorldView<V>
        decreases steps.len(),
    {
        if steps.len() == 0 {
            self
        } else {
            self.run(steps.drop_last()).step(steps.last())
        }
    }

    /// Whether `later` can have come out of this world: nothing was
    /// removed, no joint was changed, no segment became fresh again and no
    /// sticky sensor came back.
    pub open spec fn precedes(self, later: WorldView<V>) -> bool {
        &&& self.segments.len() <= later.segments.len()
        &&& self.joints.len() <= later.joints.len()
        &&& forall|k: int| 0 <= k < self.joints.len() ==> later.joints[k] == self.joints[k]
        &&& forall|i: int|
            0 <= i < self.segments.len() && !self.fresh(i) ==> !#[trigger] later.fresh(i)
        &&& forall|i: int|
            0 <= i < self.segments.len() && !self.armed(i) ==> !#[trigger] later.armed(i)
    }
}

/// A step keeps a world well formed, as long as segment indices fit the
/// machine word.
pub proof fn lemma_step_keeps_wf<V>(w: WorldView<V>, step: Step<V>)
    requires
        w.wf(),
        w.segments.len() <= usize::MAX,
    ensures
        w.step(step).wf(),
{
    match step {
        Step::Fire { held } => {
            lemma_fire_keeps_wf(w, held);
        },
        Step::OriginLeft { collider, position, held } => {
            if w.departs(collider, position) {
                lemma_unmarked_has_no_fresh(w, collider);
                lemma_extend_keeps_wf(w.unmarked(collider), collider, held);
            }
        },
        Step::StickyContact { sensor, other, contact } => {
            lemma_sticky_contact_keeps_wf(w, sensor, other, contact);
        },
    }
}

/// A step adds at most one segment and at most one joint, and undoes
/// nothing.
pub proof fn lemma_step_only_adds<V>(w: WorldView<V>, step: Step<V>)
    ensures
        w.precedes(w.step(step)),
        w.step(step).segments.len() <= w.segments.len() + 1,
        w.step(step).joints.len() <= w.joints.len() + 1,
{
}

/// A history keeps a world well formed, adds at most one segment and one
/// joint per step, and undoes nothing: joints stay as they were made,
/// extended segments stay extended and spent sticky sensors stay spent.
pub proof fn lemma_run_only_adds<V>(w: WorldView<V>, steps: Seq<Step<V>>)
    requires
        w.wf(),
        w.segments.len() + steps.len() <= usize::MAX,
    ensures
        w.run(steps).wf(),
        w.precedes(w.run(steps)),
        w.run(steps).segments.len() <= w.segments.len() + steps.len(),
        w.run(steps).joints.len() <= w.joints.len() + steps.len(),
    decreases steps.len(),
{
    if steps.len() > 0 {
        let before = w.run(steps.drop_last());
        lemma_run_only_adds(w, steps.drop_last());
        lemma_step_keeps_wf(before, steps.last());
        lemma_step_only_adds(before, steps.last());
    }
}

/// With the fire button held and no segment fresh, the fire command spawns
/// exactly one segment, fresh and with a sticky sensor, and no joint.
pub proof fn lemma_fire_spawns_one<V>(w: WorldView<V>, aim: V)
    requires
        !w.has_fresh(),
    ensures
        w.after_fire(true).segments == w.segments.push(Segment::fired()),
        w.after_fire(true).joints == w.joints,
        w.after_fire(true).fresh(w.segments.len() as int),
        w.after_fire(true).armed(w.segments.len() as int),
        w.fire_launch(true, aim) matches Some(launch) && launch.sticky_sensor
            && launch.velocity == aim,
{
}

/// While a segment is fresh, the fire command spawns nothing, whether or
/// not the button is held.
pub proof fn lemma_fire_waits<V>(w: WorldView<V>, held: bool, aim: V)
    requires
        w.has_fresh(),
    ensures
        w.after_fire(held) == w,
        w.fire_launch(held, aim) is None,
{
}

/// When the fresh segment leaves, it loses its marker and exactly one
/// extend event is sent, aimed at it and carrying its position. No later
/// report for that segment sends another, whatever happened in between.
pub proof fn lemma_departs_once<V>(
    w: WorldView<V>,
    collider: usize,
    position: V,
    held: bool,
    aim: V,
    steps: Seq<Step<V>>,
    later_position: Option<V>,
    later_held: bool,
    later_aim: V,
)
    requires
        w.wf(),
        w.fresh(collider as int),
        w.segments.len() + 1 + steps.len() <= usize::MAX,
    ensures
        w.departure(collider, Some(position), held, aim) matches Some(departure)
            && departure.event == (ExtendEvent { target: collider, origin: position }),
        !w.after_origin_left(collider, Some(position), held).fresh(collider as int),
        ({
            let later = w.after_origin_left(collider, Some(position), held).run(steps);
            &&& later.departure(collider, later_position, later_held, later_aim) is None
            &&& later.after_origin_left(collider, later_position, later_held) == later
        }),
{
    let next = w.after_origin_left(collider, Some(position), held);
    lemma_step_keeps_wf(w, Step::OriginLeft { collider, position: Some(position), held });
    assert(next == w.step(Step::OriginLeft { collider, position: Some(position), held }));
    lemma_run_only_adds(next, steps);
    assert(!next.run(steps).fresh(collider as int));
}

/// When a sticky sensor that exists begins to overlap a body, exactly one
/// joint is created, between the sensor's segment and that body, and the
/// sensor is removed. No later report for that sensor creates another,
/// whatever happened in between.
pub proof fn lemma_caught_once<V>(
    w: WorldView<V>,
    sensor: usize,
    other: u64,
    contact: Contact<V>,
    steps: Seq<Step<V>>,
    later_other: u64,
    later_contact: Contact<V>,
)
    requires
        w.wf(),
        w.armed(sensor as int),
        w.segments.len() + steps.len() <= usize::MAX,
    ensures
        w.caught(sensor, other, contact) == Some(Joint::catch_of(sensor, other, contact)),
        w.after_sticky_contact(sensor, other, contact).joints == w.joints.push(
            Joint::catch_of(sensor, other, contact),
        ),
        w.after_sticky_contact(sensor, other, contact).segments.len() == w.segments.len(),
        !w.after_sticky_contact(sensor, other, contact).armed(sensor as int),
        ({
            let later = w.after_sticky_contact(sensor, other, contact).run(steps);
            &&& later.caught(sensor, later_other, later_contact) is None
            &&& later.after_sticky_contact(sensor, later_other, later_contact) == later
        }),
{
    let next = w.after_sticky_contact(sensor, other, contact);
    lemma_sticky_contact_keeps_wf(w, sensor, other, contact);
    lemma_run_only_adds(next, steps);
    assert(!next.run(steps).armed(sensor as int));
}

} // verus!
