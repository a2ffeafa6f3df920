//! Pin joints and the anchors they are built from.
//!
//! A joint holds one chosen point of each of two bodies together. Its
//! anchors are given in each body's own frame when the joint is made and
//! never change afterwards.

use vstd::prelude::*;

verus! {

/// Softness of every joint the game creates, in thousandths.
pub const JOINT_COMPLIANCE_THOUSANDTHS: u32 = 5;

/// Distance from a segment's centre, along its long axis, at which two
/// consecutive segments of a rope are pinned together.
pub const LINK_ANCHOR_OFFSET: i32 = 4;

/// One end of a joint.
#[derive(Clone, Copy, Debug, PartialEq, Eq, Structural)]
pub enum Body {
    /// A webbing segment, by its index in the world.
    Segment(usize),
    /// Any other body, by the identifier the physics engine gave it.
    Other(u64),
}

/// A point of a body, in that body's local frame.
#[derive(Clone, Copy, Debug, PartialEq)]
pub enum Anchor<V> {
    /// A fixed offset from the body's centre, in whole units.
    Offset { x: i32, y: i32 },
    /// A point computed by the physics engine.
    Point(V),
}

/// A pin joint between two bodies.
#[derive(Clone, Copy, Debug, PartialEq)]
pub struct Joint<V> {
    pub body1: Body,
    pub body2: Body,
    /// Anchor on `body1`, in its local frame.
    pub anchor1: Anchor<V>,
    /// Anchor on `body2`, in its local frame.
    pub anchor2: Anchor<V>,
    pub compliance_thousandths: u32,
}

/// The deepest contact point of a collision, as the physics engine reports
/// it: the pair's first body, and the point in the local frame of the first
/// and of the second collider.
#[derive(Clone, Copy, Debug, PartialEq)]
pub struct Contact<V> {
    pub body1: u64,
    pub local_point1: V,
    pub local_point2: V,
}

impl<V> Contact<V> {
    /// The anchors of a joint whose second body is `other`, first the one
    /// on the joint's first body.
    pub open spec fn anchors_toward(self, other: u64) -> (V, V) {
        if self.body1 == other {
            (self.local_point2, self.local_point1)
        } else {
            (self.local_point1, self.local_point2)
        }
    }
}

impl<V: Copy> Contact<V> {
    /// Puts the two contact points in the order of a joint that ends at
    /// `other`: when the engine lists `other` first, the points swap.
    pub fn anchors(&self, other: u64) -> (pair: (V, V))
        ensures
            pair == self.anchors_toward(other),
    {
        if self.body1 == other {
            (self.local_point2, self.local_point1)
        } else {
            (self.local_point1, self.local_point2)
        }
    }
}

impl<V> Joint<V> {
    /// The joint that links a new rope segment to the one before it.
    pub open spec fn link_of(new_segment: usize, previous: usize) -> Joint<V> {
        Joint {
            body1: Body::Segment(new_segment),
            body2: Body::Segment(previous),
            anchor1: Anchor::Offset { x: 0, y: (-LINK_ANCHOR_OFFSET) as i32 },
            anchor2: Anchor::Offset { x: 0, y: LINK_ANCHOR_OFFSET },
            compliance_thousandths: JOINT_COMPLIANCE_THOUSANDTHS,
        }
    }

    /// The joint that pins a segment to the body its sticky sensor touched.
    pub open spec fn catch_of(segment: usize, other: u64, contact: Contact<V>) -> Joint<V> {
        Joint {
            body1: Body::Segment(segment),
            body2: Body::Other(other),
            anchor1: Anchor::Point(contact.anchors_toward(other).0),
            anchor2: Anchor::Point(contact.anchors_toward(other).1),
            compliance_thousandths: JOINT_COMPLIANCE_THOUSANDTHS,
        }
    }

}

impl<V: Copy> Joint<V> {
    /// Builds the joint between a new rope segment and the previous one.
    pub fn link(new_segment: usize, previous: usize) -> (joint: Joint<V>)
        ensures
            joint == Joint::<V>::link_of(new_segment, previous),
    {
        Joint {
            body1: Body::Segment(new_segment),
            body2: Body::Segment(previous),
            anchor1: Anchor::Offset { x: 0, y: -LINK_ANCHOR_OFFSET },
            anchor2: Anchor::Offset { x: 0, y: LINK_ANCHOR_OFFSET },
            compliance_thousandths: JOINT_COMPLIANCE_THOUSANDTHS,
        }
    }

    /// Builds the joint between a segment and what its sticky sensor
    /// touched, anchored at the contact point on either side.
    pub fn catch(segment: usize, other: u64, contact: &Contact<V>) -> (joint: Joint<V>)
        ensures
            joint == Joint::catch_of(segment, other, *contact),
    {
        let (anchor1, anchor2) = contact.anchors(other);
        Joint {
            body1: Body::Segment(segment),
            body2: Body::Other(other),
            anchor1: Anchor::Point(anchor1),
            anchor2: Anchor::Point(anchor2),
            compliance_thousandths: JOINT_COMPLIANCE_THOUSANDTHS,
        }
    }
}

} // verus!
