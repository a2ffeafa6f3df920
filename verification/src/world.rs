//! The webbing world: segments, their markers, and the joints between them.
//!
//! The world changes only through three handlers, one for each callback the
//! game receives: the fire command of a frame, the leaving sensor reporting
//! the end of an overlap, and a sticky sensor reporting the start of one.
//! Each handler is a total function of the world and its arguments; it
//! updates the world and returns what the engine has to spawn.

use vstd::prelude::*;
use crate::joint::{Body, Contact, Joint};

verus! {

/// Where a segment stands in its short life at the player.
#[derive(Clone, Copy, Debug, PartialEq, Eq, Structural)]
pub enum Phase {
    /// Just spawned and still inside the leaving sensor.
    Fresh,
    /// Has left the leaving sensor.
    Extended,
}

/// What the world remembers of one webbing segment.
#[derive(Clone, Copy, Debug, PartialEq, Eq, Structural)]
pub struct Segment {
    pub phase: Phase,
    /// Whether the segment still carries its sticky sensor.
    pub armed: bool,
}

/// Where a new segment is placed.
#[derive(Clone, Copy, Debug, PartialEq)]
pub enum Origin<V> {
    /// At the player's current position.
    Player,
    /// At the given point.
    Point(V),
}

/// How a new segment is turned about the axis out of the plane.
#[derive(Clone, Copy, Debug, PartialEq, Eq, Structural)]
pub enum Facing {
    /// By the angle of its velocity.
    Aim,
    /// By the angle of its velocity and half a turn.
    Reversed,
}

/// A segment for the engine to spawn.
#[derive(Clone, Copy, Debug, PartialEq)]
pub struct Launch<V> {
    /// The index the world gave the segment.
    pub segment: usize,
    pub origin: Origin<V>,
    /// Linear velocity, which is the aim at the moment of the launch.
    pub velocity: V,
    pub facing: Facing,
    /// Whether the segment gets a sticky sensor as a child.
    pub sticky_sensor: bool,
}

/// The message that a segment has left the leaving sensor.
#[derive(Clone, Copy, Debug, PartialEq)]
pub struct ExtendEvent<V> {
    /// The segment that left.
    pub target: usize,
    /// Its position at that instant.
    pub origin: V,
}

/// The next segment of a rope and the joint that ties it to the last.
#[derive(Clone, Copy, Debug, PartialEq)]
pub struct Extension<V> {
    pub launch: Launch<V>,
    pub joint: Joint<V>,
}

/// What followed from a segment leaving: the event, and the extension that
/// its handler made of it, if it made one.
#[derive(Clone, Copy, Debug, PartialEq)]
pub struct Departure<V> {
    pub event: ExtendEvent<V>,
    pub extension: Option<Extension<V>>,
}

impl Segment {
    /// A segment as the fire command spawns it.
    pub open spec fn fired() -> Segment {
        Segment { phase: Phase::Fresh, armed: true }
    }

    /// A segment as the extend handler spawns it.
    pub open spec fn linked() -> Segment {
        Segment { phase: Phase::Fresh, armed: false }
    }

    /// This segment once it has left the leaving sensor.
    pub open spec fn extended(self) -> Segment {
        Segment { phase: Phase::Extended, armed: self.armed }
    }

    /// This segment once its sticky sensor is gone.
    pub open spec fn disarmed(self) -> Segment {
        Segment { phase: self.phase, armed: false }
    }
}

/// The mathematical content of a [`World`].
pub struct WorldView<V> {
    /// The segments, each at its index.
    pub segments: Seq<Segment>,
    /// The joints, in the order of their creation.
    pub joints: Seq<Joint<V>>,
}

impl<V> WorldView<V> {
    /// The world without segments or joints.
    pub open spec fn empty() -> WorldView<V> {
        WorldView { segments: Seq::empty(), joints: Seq::empty() }
    }

    /// Whether `i` is a segment that carries the fresh marker.
    pub open spec fn fresh(self, i: int) -> bool {
        0 <= i < self.segments.len() && self.segments[i].phase == Phase::Fresh
    }

    /// Whether `i` is a segment that carries a sticky sensor.
    pub open spec fn armed(self, i: int) -> bool {
        0 <= i < self.segments.len() && self.segments[i].armed
    }

    /// Whether any segment is fresh.
    pub open spec fn has_fresh(self) -> bool {
        exists|i: int| self.fresh(i)
    }

    /// Whether a joint end names something that exists.
    pub open spec fn knows(self, body: Body) -> bool {
        body matches Body::Segment(i) ==> i < self.segments.len()
    }

    /// At most one segment is fresh, and every joint connects two
    /// different bodies that exist.
    pub open spec fn wf(self) -> bool {
        &&& forall|i: int, j: int| self.fresh(i) && self.fresh(j) ==> i == j
        &&& forall|k: int|
            0 <= k < self.joints.len() ==> {
                &&& self.knows(#[trigger] self.joints[k].body1)
                &&& self.knows(self.joints[k].body2)
                &&& self.joints[k].body1 != self.joints[k].body2
            }
    }

    /// Whether the fire command spawns a segment.
    pub open spec fn fires(self, held: bool) -> bool {
        held && !self.has_fresh()
    }

    /// The world after the fire command of a frame.
    pub open spec fn after_fire(self, held: bool) -> WorldView<V> {
        if self.fires(held) {
            WorldView { segments: self.segments.push(Segment::fired()), joints: self.joints }
        } else {
            self
        }
    }

    /// What the fire command hands to the engine.
    pub open spec fn fire_launch(self, held: bool, aim: V) -> Option<Launch<V>> {
        if self.fires(held) {
            Some(
                Launch {
                    segment: self.segments.len() as usize,
                    origin: Origin::Player,
                    velocity: aim,
                    facing: Facing::Reversed,
                    sticky_sensor: true,
                },
            )
        } else {
            None
        }
    }

    /// The world after the handler of an extend event aimed at `target`.
    pub open spec fn after_extend(self, target: usize, held: bool) -> WorldView<V> {
        if held {
            WorldView {
                segments: self.segments.push(Segment::linked()),
                joints: self.joints.push(
                    Joint::link_of(self.segments.len() as usize, target),
                ),
            }
        } else {
            self
        }
    }

    /// What the handler of an extend event hands to the engine.
    pub open spec fn extension(self, event: ExtendEvent<V>, held: bool, aim: V) -> Option<
        Extension<V>,
    > {
        if held {
            Some(
                Extension {
                    launch: Launch {
                        segment: self.segments.len() as usize,
                        origin: Origin::Point(event.origin),
                        velocity: aim,
                        facing: Facing::Aim,
                        sticky_sensor: false,
                    },
                    joint: Joint::link_of(self.segments.len() as usize, event.target),
                },
            )
        } else {
            None
        }
    }

    /// Whether the end of an overlap at the leaving sensor counts as a
    /// segment leaving: the collider is fresh and still has a position.
    pub open spec fn departs(self, collider: usize, position: Option<V>) -> bool {
        self.fresh(collider as int) && position is Some
    }

    /// This world with the fresh marker taken off `segment`.
    pub open spec fn unmarked(self, segment: usize) -> WorldView<V> {
        WorldView {
            segments: self.segments.update(
                segment as int,
                self.segments[segment as int].extended(),
            ),
            joints: self.joints,
        }
    }

    /// The world after the leaving sensor reported the end of an overlap.
    pub open spec fn after_origin_left(
        self,
        collider: usize,
        position: Option<V>,
        held: bool,
    ) -> WorldView<V> {
        if self.departs(collider, position) {
            self.unmarked(collider).after_extend(collider, held)
        } else {
            self
        }
    }

    /// What the end of an overlap at the leaving sensor brings about.
    pub open spec fn departure(
        self,
        collider: usize,
        position: Option<V>,
        held: bool,
        aim: V,
    ) -> Option<Departure<V>> {
        if self.departs(collider, position) {
            let event = ExtendEvent { target: collider, origin: position->0 };
            Some(
                Departure {
                    event,
                    extension: self.unmarked(collider).extension(event, held, aim),
                },
            )
        } else {
            None
        }
    }

    /// The world after a sticky sensor reported the start of an overlap.
    pub open spec fn after_sticky_contact(
        self,
        sensor: usize,
        other: u64,
        contact: Contact<V>,
    ) -> WorldView<V> {
        if self.armed(sensor as int) {
            WorldView {
                segments: self.segments.update(
                    sensor as int,
                    self.segments[sensor as int].disarmed(),
                ),
                joints: self.joints.push(Joint::catch_of(sensor, other, contact)),
            }
        } else {
            self
        }
    }

    /// The joint that the start of an overlap at a sticky sensor creates.
    pub open spec fn caught(self, sensor: usize, other: u64, contact: Contact<V>) -> Option<
        Joint<V>,
    > {
        if self.armed(sensor as int) {
            Some(Joint::catch_of(sensor, other, contact))
        } else {
            None
        }
    }
}

/// The segments and joints of a running game.
///
/// A segment is known by its index, which it keeps for good. The sticky
/// sensor of a segment is known by the index of that segment.
pub struct World<V> {
    segments: Vec<Segment>,
    joints: Vec<Joint<V>>,
}

impl<V> View for World<V> {
    type V = WorldView<V>;

    closed spec fn view(&self) -> WorldView<V> {
        WorldView { segments: self.segments@, joints: self.joints@ }
    }
}

impl<V> World<V> {
    #[verifier::type_invariant]
    spec fn inv(self) -> bool {
        self@.wf()
    }
}

impl<V: Copy> World<V> {
    /// A world without segments or joints.
    pub fn new() -> (world: World<V>)
        ensures
            world@ == WorldView::<V>::empty(),
            world@.wf(),
    {
        World { segments: Vec::new(), joints: Vec::new() }
    }

    /// Takes the world apart, leaving an empty one behind.
    fn dismantle(&mut self) -> (parts: (Vec<Segment>, Vec<Joint<V>>))
        ensures
            parts.0@ == old(self)@.segments,
            parts.1@ == old(self)@.joints,
            old(self)@.wf(),
            final(self)@ == WorldView::<V>::empty(),
    {
        proof {
            use_type_invariant(&*self);
        }
        let mut world = World::new();
        core::mem::swap(self, &mut world);
        let World { segments, joints } = world;
        (segments, joints)
    }

    /// Puts a world together.
    fn assemble(segments: Vec<Segment>, joints: Vec<Joint<V>>) -> (world: World<V>)
        requires
            (WorldView { segments: segments@, joints: joints@ }).wf(),
        ensures
            world@ == (WorldView { segments: segments@, joints: joints@ }),
    {
        World { segments, joints }
    }

    /// The number of segments spawned so far.
    pub fn segment_count(&self) -> (count: usize)
        ensures
            count == self@.segments.len(),
    {
        self.segments.len()
    }

    /// The number of joints created so far.
    pub fn joint_count(&self) -> (count: usize)
        ensures
            count == self@.joints.len(),
    {
        self.joints.len()
    }

    /// The segment at `index`, if there is one.
    pub fn segment(&self, index: usize) -> (segment: Option<Segment>)
        ensures
            segment == if index < self@.segments.len() {
                Some(self@.segments[index as int])
            } else {
                None
            },
    {
        if index < self.segments.len() {
            Some(self.segments[index])
        } else {
            None
        }
    }

    /// The joint created as number `index`, if there is one.
    pub fn joint(&self, index: usize) -> (joint: Option<Joint<V>>)
        ensures
            joint == if index < self@.joints.len() {
                Some(self@.joints[index as int])
            } else {
                None
            },
    {
        if index < self.joints.len() {
            Some(self.joints[index])
        } else {
            None
        }
    }

    /// Whether `index` is a segment that carries the fresh marker.
    pub fn is_fresh(&self, index: usize) -> (yes: bool)
        ensures
            yes == self@.fresh(index as int),
    {
        index < self.segments.len() && self.segments[index].phase == Phase::Fresh
    }

    /// Whether `index` is a segment that carries a sticky sensor.
    pub fn is_armed(&self, index: usize) -> (yes: bool)
        ensures
            yes == self@.armed(index as int),
    {
        index < self.segments.len() && self.segments[index].armed
    }

    /// Looks for the fresh segment.
    pub fn fresh_segment(&self) -> (found: Option<usize>)
        ensures
            self@.wf(),
            found is Some == self@.has_fresh(),
            found matches Some(i) ==> self@.fresh(i as int),
    {
        proof {
            use_type_invariant(self);
        }
        let mut i: usize = 0;
        while i < self.segments.len()
            invariant
                self@.wf(),
                i <= self.segments.len(),
                forall|k: int| 0 <= k < i ==> !self@.fresh(k),
            decreases self.segments.len() - i,
        {
            if self.segments[i].phase == Phase::Fresh {
                assert(self@.fresh(i as int));
                return Some(i);
            }
            i += 1;
        }
        None
    }

    /// The fire command of one frame.
    ///
    /// While the fire button is held and no segment is fresh, spawns a
    /// fresh segment with a sticky sensor, to be launched from the player
    /// at the velocity `aim`. Otherwise nothing happens.
    pub fn fire(&mut self, held: bool, aim: V) -> (launch: Option<Launch<V>>)
        ensures
            final(self)@ == old(self)@.after_fire(held),
            launch == old(self)@.fire_launch(held, aim),
            final(self)@.wf(),
    {
        if held && self.fresh_segment().is_none() {
            let (mut segments, joints) = self.dismantle();
            let segment = segments.len();
            segments.push(Segment { phase: Phase::Fresh, armed: true });
            proof {
                lemma_fire_keeps_wf(old(self)@, held);
            }
            *self = World::assemble(segments, joints);
            Some(
                Launch {
                    segment,
                    origin: Origin::Player,
                    velocity: aim,
                    facing: Facing::Reversed,
                    sticky_sensor: true,
                },
            )
        } else {
            proof {
                use_type_invariant(&*self);
            }
            None
        }
    }

    /// Takes the fresh marker off a segment.
    fn unmark(&mut self, segment: usize)
        requires
            old(self)@.fresh(segment as int),
        ensures
            final(self)@ == old(self)@.unmarked(segment),
            final(self)@.wf(),
            !final(self)@.has_fresh(),
    {
        let (mut segments, joints) = self.dismantle();
        let armed = segments[segment].armed;
        segments.set(segment, Segment { phase: Phase::Extended, armed });
        proof {
            lemma_unmarked_has_no_fresh(old(self)@, segment);
        }
        *self = World::assemble(segments, joints);
    }

    /// The handler of an extend event.
    ///
    /// While the fire button is held, spawns the next segment of the rope
    /// at the place the event recorded, launched along `aim`, and pins it
    /// to the segment the event is aimed at. The new segment is fresh and
    /// has no sticky sensor.
    fn extend(&mut self, event: ExtendEvent<V>, held: bool, aim: V) -> (extension: Option<
        Extension<V>,
    >)
        requires
            !old(self)@.has_fresh(),
            event.target < old(self)@.segments.len(),
        ensures
            final(self)@ == old(self)@.after_extend(event.target, held),
            extension == old(self)@.extension(event, held, aim),
            final(self)@.wf(),
    {
        if held {
            let (mut segments, mut joints) = self.dismantle();
            let segment = segments.len();
            let joint = Joint::link(segment, event.target);
            segments.push(Segment { phase: Phase::Fresh, armed: false });
            joints.push(joint);
            proof {
                lemma_extend_keeps_wf(old(self)@, event.target, held);
            }
            *self = World::assemble(segments, joints);
            Some(
                Extension {
                    launch: Launch {
                        segment,
                        origin: Origin::Point(event.origin),
                        velocity: aim,
                        facing: Facing::Aim,
                        sticky_sensor: false,
                    },
                    joint,
                },
            )
        } else {
            proof {
                use_type_invariant(&*self);
            }
            None
        }
    }

    /// The leaving sensor reported that its overlap with `collider` ended.
    ///
    /// `position` is where `collider` is now, if it still has a place in
    /// the scene. When `collider` is the fresh segment and has a position,
    /// it loses the fresh marker and an extend event aimed at it is sent,
    /// carrying that position; the event's handler runs at once, and while
    /// the fire button is held it spawns the next segment of the rope.
    /// Otherwise nothing happens.
    pub fn origin_left(
        &mut self,
        collider: usize,
        position: Option<V>,
        held: bool,
        aim: V,
    ) -> (departure: Option<Departure<V>>)
        ensures
            final(self)@ == old(self)@.after_origin_left(collider, position, held),
            departure == old(self)@.departure(collider, position, held, aim),
            final(self)@.wf(),
    {
        proof {
            use_type_invariant(&*self);
        }
        if !self.is_fresh(collider) {
            return None;
        }
        match position {
            None => None,
            Some(origin) => {
                self.unmark(collider);
                let event = ExtendEvent { target: collider, origin };
                let extension = self.extend(event, held, aim);
                Some(Departure { event, extension })
            },
        }
    }

    /// The sticky sensor of segment `sensor` reported that it began to
    /// overlap the body `other`, with `contact` as the deepest point.
    ///
    /// While the sensor exists, the segment is pinned to `other` at the
    /// contact point and the sensor is removed, so a segment is caught at
    /// most once. For a sensor that is gone nothing happens.
    pub fn sticky_contact(&mut self, sensor: usize, other: u64, contact: Contact<V>) -> (joint:
        Option<Joint<V>>)
        ensures
            final(self)@ == old(self)@.after_sticky_contact(sensor, other, contact),
            joint == old(self)@.caught(sensor, other, contact),
            final(self)@.wf(),
    {
        if self.is_armed(sensor) {
            let (mut segments, mut joints) = self.dismantle();
            let phase = segments[sensor].phase;
            let joint = Joint::catch(sensor, other, &contact);
            segments.set(sensor, Segment { phase, armed: false });
            joints.push(joint);
            proof {
                lemma_sticky_contact_keeps_wf(old(self)@, sensor, other, contact);
            }
            *self = World::assemble(segments, joints);
            Some(joint)
        } else {
            proof {
                use_type_invariant(&*self);
            }
            None
        }
    }
}

/// The fire command keeps a world well formed.
pub proof fn lemma_fire_keeps_wf<V>(w: WorldView<V>, held: bool)
    requires
        w.wf(),
    ensures
        w.after_fire(held).wf(),
{
    let next = w.after_fire(held);
    if w.fires(held) {
        assert forall|i: int, j: int| next.fresh(i) && next.fresh(j) implies i == j by {
            if i < w.segments.len() {
                assert(w.fresh(i));
            }
            if j < w.segments.len() {
                assert(w.fresh(j));
            }
        }
    }
}

/// Taking the marker off the fresh segment leaves no segment fresh.
pub proof fn lemma_unmarked_has_no_fresh<V>(w: WorldView<V>, segment: usize)
    requires
        w.wf(),
        w.fresh(segment as int),
    ensures
        w.unmarked(segment).wf(),
        !w.unmarked(segment).has_fresh(),
{
    let next = w.unmarked(segment);
    assert forall|i: int| !next.fresh(i) by {
        if next.fresh(i) {
            assert(w.fresh(i));
        }
    }
}

/// The handler of an extend event keeps a world well formed, provided
/// that no segment is fresh when it runs.
pub proof fn lemma_extend_keeps_wf<V>(w: WorldView<V>, target: usize, held: bool)
    requires
        w.wf(),
        !w.has_fresh(),
        target < w.segments.len() <= usize::MAX,
    ensures
        w.after_extend(target, held).wf(),
{
    let next = w.after_extend(target, held);
    if held {
        assert forall|i: int, j: int| next.fresh(i) && next.fresh(j) implies i == j by {
            if i < w.segments.len() {
                assert(w.fresh(i));
            }
            if j < w.segments.len() {
                assert(w.fresh(j));
            }
        }
    }
}

/// The start of an overlap at a sticky sensor keeps a world well formed.
pub proof fn lemma_sticky_contact_keeps_wf<V>(
    w: WorldView<V>,
    sensor: usize,
    other: u64,
    contact: Contact<V>,
)
    requires
        w.wf(),
    ensures
        w.after_sticky_contact(sensor, other, contact).wf(),
{
    let next = w.after_sticky_contact(sensor, other, contact);
    if w.armed(sensor as int) {
        assert forall|i: int, j: int| next.fresh(i) && next.fresh(j) implies i == j by {
            assert(w.fresh(i));
            assert(w.fresh(j));
        }
    }
}

} // verus!
