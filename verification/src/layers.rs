//! Collision layering: which kind of collider is allowed to meet which.
//!
//! Every collider belongs to one layer, identified by a single membership
//! bit, and carries a filter mask naming the layers it is willing to meet.
//! Two colliders produce contacts only when each is willing to meet the
//! other.

use vstd::prelude::*;

verus! {

/// Membership bit of ground and walls.
pub const BOUNDARY_MEMBERSHIP: u32 = 0b1000;

/// Ground and walls meet everything.
pub const BOUNDARY_FILTER: u32 = u32::MAX;

/// Membership bit of webbing segments.
pub const WEBBING_MEMBERSHIP: u32 = 0b10;

/// Webbing meets the leaving sensor and the boundary.
pub const WEBBING_FILTER: u32 = WEBBING_SENSOR_MEMBERSHIP | BOUNDARY_MEMBERSHIP;

/// Membership bit of the leaving sensor.
pub const WEBBING_SENSOR_MEMBERSHIP: u32 = 0b100;

/// The leaving sensor meets webbing only.
pub const WEBBING_SENSOR_FILTER: u32 = WEBBING_MEMBERSHIP;

/// Membership bit of sticky sensors.
pub const STICKY_SENSOR_MEMBERSHIP: u32 = 0b10000;

/// A sticky sensor meets everything except the player.
pub const STICKY_SENSOR_FILTER: u32 = u32::MAX & !PLAYER_MEMBERSHIP;

/// Membership bit of the player.
pub const PLAYER_MEMBERSHIP: u32 = 0b100000;

/// The player meets everything.
pub const PLAYER_FILTER: u32 = u32::MAX;

/// The kinds of collider the game distinguishes.
#[derive(Clone, Copy, Debug, PartialEq, Eq, Structural)]
pub enum Layer {
    /// Ground and walls.
    Boundary,
    /// The rigid body of a webbing segment.
    Webbing,
    /// The sensor at the player that notices a segment leaving.
    LeavingSensor,
    /// The catch sensor carried by a fired segment.
    StickySensor,
    /// The player's own body.
    Player,
}

impl Layer {
    /// The membership mask of a layer.
    pub open spec fn membership_mask(self) -> u32 {
        match self {
            Layer::Boundary => BOUNDARY_MEMBERSHIP,
            Layer::Webbing => WEBBING_MEMBERSHIP,
            Layer::LeavingSensor => WEBBING_SENSOR_MEMBERSHIP,
            Layer::StickySensor => STICKY_SENSOR_MEMBERSHIP,
            Layer::Player => PLAYER_MEMBERSHIP,
        }
    }

    /// The filter mask of a layer.
    pub open spec fn filter_mask(self) -> u32 {
        match self {
            Layer::Boundary => BOUNDARY_FILTER,
            Layer::Webbing => WEBBING_FILTER,
            Layer::LeavingSensor => WEBBING_SENSOR_FILTER,
            Layer::StickySensor => STICKY_SENSOR_FILTER,
            Layer::Player => PLAYER_FILTER,
        }
    }

    /// Whether colliders of this layer are willing to meet colliders of
    /// `other`, as a table.
    pub open spec fn accepts(self, other: Layer) -> bool {
        match self {
            Layer::Boundary => true,
            Layer::Webbing => other == Layer::LeavingSensor || other == Layer::Boundary,
            Layer::LeavingSensor => other == Layer::Webbing,
            Layer::StickySensor => other != Layer::Player,
            Layer::Player => true,
        }
    }

    /// Whether two layers meet: each has to accept the other.
    pub open spec fn meets(self, other: Layer) -> bool {
        self.accepts(other) && other.accepts(self)
    }

    /// The bit that marks a collider as belonging to this layer.
    pub fn membership(self) -> (mask: u32)
        ensures
            mask == self.membership_mask(),
    {
        match self {
            Layer::Boundary => BOUNDARY_MEMBERSHIP,
            Layer::Webbing => WEBBING_MEMBERSHIP,
            Layer::LeavingSensor => WEBBING_SENSOR_MEMBERSHIP,
            Layer::StickySensor => STICKY_SENSOR_MEMBERSHIP,
            Layer::Player => PLAYER_MEMBERSHIP,
        }
    }

    /// The memberships this layer is willing to meet.
    pub fn filter(self) -> (mask: u32)
        ensures
            mask == self.filter_mask(),
    {
        match self {
            Layer::Boundary => BOUNDARY_FILTER,
            Layer::Webbing => WEBBING_FILTER,
            Layer::LeavingSensor => WEBBING_SENSOR_FILTER,
            Layer::StickySensor => STICKY_SENSOR_FILTER,
            Layer::Player => PLAYER_FILTER,
        }
    }

    /// Tests this layer's filter against the membership of `other`.
    pub fn admits(self, other: Layer) -> (yes: bool)
        ensures
            yes == (self.filter_mask() & other.membership_mask() != 0),
            yes == self.accepts(other),
    {
        proof {
            lemma_filter_table(self, other);
        }
        self.filter() & other.membership() != 0
    }

    /// Tests whether colliders of the two layers produce contacts.
    pub fn interacts(self, other: Layer) -> (yes: bool)
        ensures
            yes == self.meets(other),
    {
        self.admits(other) && other.admits(self)
    }
}

/// The masks encode the acceptance table: a filter has the membership bit of
/// `other` set exactly when the table lets the layer accept `other`.
pub proof fn lemma_filter_table(layer: Layer, other: Layer)
    ensures
        (layer.filter_mask() & other.membership_mask() != 0) == layer.accepts(other),
{
    let m = other.membership_mask();
    assert(m == 0b1000 || m == 0b10 || m == 0b100 || m == 0b10000 || m == 0b100000);
    assert(m == 0b1000 || m == 0b10 || m == 0b100 || m == 0b10000 || m == 0b100000 ==> {
        &&& u32::MAX & m != 0
        &&& ((0b100u32 | 0b1000u32) & m != 0) == (m == 0b100 || m == 0b1000)
        &&& (0b10u32 & m != 0) == (m == 0b10)
        &&& ((u32::MAX & !0b100000u32) & m != 0) == (m != 0b100000)
    }) by (bit_vector);
}

/// Who meets whom. A sticky sensor touches the boundary and other sticky
/// sensors and never the player; the leaving sensor notices webbing and
/// nothing else; webbing rests on the boundary and passes through the
/// player and through other webbing; the player stands on the boundary.
pub proof fn lemma_meeting_table(other: Layer)
    ensures
        Layer::Boundary.meets(other) <==> other != Layer::LeavingSensor,
        Layer::Webbing.meets(other) <==> other == Layer::LeavingSensor || other
            == Layer::Boundary,
        Layer::LeavingSensor.meets(other) <==> other == Layer::Webbing,
        Layer::StickySensor.meets(other) <==> other == Layer::Boundary || other
            == Layer::StickySensor,
        Layer::Player.meets(other) <==> other == Layer::Boundary || other == Layer::Player,
{
}

/// Meeting is mutual.
pub proof fn lemma_meets_is_symmetric(a: Layer, b: Layer)
    ensures
        a.meets(b) == b.meets(a),
{
}

} // verus!
