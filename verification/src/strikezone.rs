//! The strike zone: two sensor panels hanging over the plate, sized from
//! the batter's height, each recording at most one ball crossing per
//! pitch. Lengths are in position units (tenths of a millimetre).

use vstd::prelude::*;

verus! {

use crate::pitch::Error;
use crate::vec::{Vec2Fx, Vec3Fx};

/// Half the zone's width across the plate.
pub const DEFAULT_LENGTH_HALF: i64 = 2359;
/// Top of the zone as a fraction of the batter's height, per ten
/// thousand.
pub const DEFAULT_HEIGHT_TOP_PERCENTAGE: i64 = 5635;
/// Bottom of the zone as a fraction of the batter's height, per ten
/// thousand.
pub const DEFAULT_HEIGHT_BOTTOM_PERCENTAGE: i64 = 2764;
/// Where the front panel hangs along the approach axis.
pub const DEFAULT_FRONT_PANEL_POS_Z: i64 = 4318;
/// Where the back panel hangs along the approach axis.
pub const DEFAULT_BACK_PANEL_POS_Z: i64 = 2159;
/// How far the back panel sits below the front one.
pub const DEFAULT_BACK_PANEL_Y_DIFF: i64 = 150;

/// One panel of the strike zone: its half dimensions, the recorded
/// collision point, and whether one has been recorded this pitch.
#[derive(Debug, Clone, Copy, PartialEq, Eq, Structural)]
pub enum StrikezonePanel {
    Front { dimensions: Vec2Fx, collision_point: Vec3Fx, updated: bool },
    Back { dimensions: Vec2Fx, collision_point: Vec3Fx, updated: bool },
}

impl StrikezonePanel {
    /// Whether a collision has been recorded since the last clear.
    pub open spec fn spec_updated(self) -> bool {
        match self {
            StrikezonePanel::Front { updated, .. } => updated,
            StrikezonePanel::Back { updated, .. } => updated,
        }
    }

    /// The recorded collision point.
    pub open spec fn spec_collision_point(self) -> Vec3Fx {
        match self {
            StrikezonePanel::Front { collision_point, .. } => collision_point,
            StrikezonePanel::Back { collision_point, .. } => collision_point,
        }
    }

    /// The panel's half dimensions.
    pub open spec fn spec_dimensions(self) -> Vec2Fx {
        match self {
            StrikezonePanel::Front { dimensions, .. } => dimensions,
            StrikezonePanel::Back { dimensions, .. } => dimensions,
        }
    }

    /// Whether this is the front panel.
    pub open spec fn spec_is_front(self) -> bool {
        self is Front
    }

    pub fn is_updated(&self) -> (r: bool)
        ensures
            r == self.spec_updated(),
    {
        match self {
            StrikezonePanel::Front { updated, .. } => *updated,
            StrikezonePanel::Back { updated, .. } => *updated,
        }
    }

    pub fn collision_point(&self) -> (r: Vec3Fx)
        ensures
            r == self.spec_collision_point(),
    {
        match self {
            StrikezonePanel::Front { collision_point, .. } => *collision_point,
            StrikezonePanel::Back { collision_point, .. } => *collision_point,
        }
    }

    pub fn dimensions(&self) -> (r: Vec2Fx)
        ensures
            r == self.spec_dimensions(),
    {
        match self {
            StrikezonePanel::Front { dimensions, .. } => *dimensions,
            StrikezonePanel::Back { dimensions, .. } => *dimensions,
        }
    }

    /// Records the collision point of this pitch. A panel records at most
    /// one: a second attempt is rejected and changes nothing.
    pub fn set_collision_point(&mut self, point: Vec3Fx) -> (r: Result<(), Error>)
        ensures
            r is Ok <==> !old(self).spec_updated(),
            old(self).spec_updated() ==> *final(self) == *old(self),
            old(self).spec_updated() ==> r == Err::<(), Error>(Error::GenericError),
            !old(self).spec_updated() ==> final(self).spec_updated(),
            !old(self).spec_updated() ==> final(self).spec_collision_point() == point,
            final(self).spec_dimensions() == old(self).spec_dimensions(),
            final(self).spec_is_front() == old(self).spec_is_front(),
    {
        if self.is_updated() {
            return Err(Error::GenericError);
        }
        match self {
            StrikezonePanel::Front { collision_point, updated, .. } => {
                *collision_point = point;
                *updated = true;
            },
            StrikezonePanel::Back { collision_point, updated, .. } => {
                *collision_point = point;
                *updated = true;
            },
        }
        Ok(())
    }

    /// Resets the panel for the next pitch: new dimensions, the collision
    /// point back at the origin, nothing recorded.
    pub fn clear(&mut self, new_dimensions: Vec2Fx)
        ensures
            final(self).spec_dimensions() == new_dimensions,
            final(self).spec_collision_point() == (Vec3Fx { x: 0, y: 0, z: 0 }),
            !final(self).spec_updated(),
            final(self).spec_is_front() == old(self).spec_is_front(),
    {
        match self {
            StrikezonePanel::Front { dimensions, collision_point, updated } => {
                *dimensions = new_dimensions;
                *collision_point = Vec3Fx::zero();
                *updated = false;
            },
            StrikezonePanel::Back { dimensions, collision_point, updated } => {
                *dimensions = new_dimensions;
                *collision_point = Vec3Fx::zero();
                *updated = false;
            },
        }
    }

    /// A fresh back panel.
    pub fn new_back(new_dimensions: Vec2Fx) -> (r: StrikezonePanel)
        ensures
            r == (StrikezonePanel::Back {
                dimensions: new_dimensions,
                collision_point: Vec3Fx { x: 0, y: 0, z: 0 },
                updated: false,
            }),
    {
        StrikezonePanel::Back {
            dimensions: new_dimensions,
            collision_point: Vec3Fx::zero(),
            updated: false,
        }
    }

    /// A fresh front panel.
    pub fn new_front(new_dimensions: Vec2Fx) -> (r: StrikezonePanel)
        ensures
            r == (StrikezonePanel::Front {
                dimensions: new_dimensions,
                collision_point: Vec3Fx { x: 0, y: 0, z: 0 },
                updated: false,
            }),
    {
        StrikezonePanel::Front {
            dimensions: new_dimensions,
            collision_point: Vec3Fx::zero(),
            updated: false,
        }
    }
}

/// The panel half height for a batter: half the span between the zone's
/// top and bottom fractions of the height.
pub open spec fn spec_half_height(batter_height: int) -> int {
    (DEFAULT_HEIGHT_TOP_PERCENTAGE - DEFAULT_HEIGHT_BOTTOM_PERCENTAGE) * batter_height / 20_000
}

/// The panel centre height for a batter: the midpoint of the zone's top
/// and bottom fractions of the height.
pub open spec fn spec_pos_y(batter_height: int) -> int {
    (DEFAULT_HEIGHT_TOP_PERCENTAGE + DEFAULT_HEIGHT_BOTTOM_PERCENTAGE) * batter_height / 20_000
}

/// The panel half height and centre height for a batter of the given
/// height (position units).
pub fn panel_layout(batter_height: i64) -> (r: (i64, i64))
    requires
        0 <= batter_height <= 100_000,
    ensures
        r.0 == spec_half_height(batter_height as int),
        r.1 == spec_pos_y(batter_height as int),
{
    proof {
        assert(0 <= 2871 * batter_height <= 287_100_000 && 0 <= 8399 * batter_height
            <= 839_900_000) by (nonlinear_arith)
            requires
                0 <= batter_height <= 100_000,
        ;
    }
    let half_height: i64 = (DEFAULT_HEIGHT_TOP_PERCENTAGE - DEFAULT_HEIGHT_BOTTOM_PERCENTAGE)
        * batter_height / 20_000;
    let pos_y: i64 = (DEFAULT_HEIGHT_TOP_PERCENTAGE + DEFAULT_HEIGHT_BOTTOM_PERCENTAGE)
        * batter_height / 20_000;
    (half_height, pos_y)
}

/// Where a panel hangs and how big its sensor volume is.
#[derive(Debug, Clone, Copy, PartialEq, Eq, Structural)]
pub struct PanelPlacement {
    pub center: Vec3Fx,
    pub collider_half_extents: Vec3Fx,
}

/// The front panel's placement: centred over the plate at the zone
/// height, a thin sheet across the approach axis.
pub fn front_panel_placement(half_height: i64, pos_y: i64) -> (r: PanelPlacement)
    ensures
        r.center == (Vec3Fx { x: 0, y: pos_y, z: DEFAULT_FRONT_PANEL_POS_Z }),
        r.collider_half_extents == (Vec3Fx { x: DEFAULT_LENGTH_HALF, y: half_height, z: 10 }),
{
    PanelPlacement {
        center: Vec3Fx { x: 0, y: pos_y, z: DEFAULT_FRONT_PANEL_POS_Z },
        collider_half_extents: Vec3Fx { x: DEFAULT_LENGTH_HALF, y: half_height, z: 10 },
    }
}

/// The back panel's placement: slightly lower and deeper than the front
/// one.
pub fn back_panel_placement(half_height: i64, pos_y: i64) -> (r: PanelPlacement)
    requires
        -1_000_000_000 <= pos_y <= 1_000_000_000,
    ensures
        r.center.x == 0,
        r.center.y == pos_y - DEFAULT_BACK_PANEL_Y_DIFF,
        r.center.z == DEFAULT_BACK_PANEL_POS_Z,
        r.collider_half_extents == (Vec3Fx { x: DEFAULT_LENGTH_HALF, y: half_height, z: 10 }),
{
    PanelPlacement {
        center: Vec3Fx { x: 0, y: pos_y - DEFAULT_BACK_PANEL_Y_DIFF, z: DEFAULT_BACK_PANEL_POS_Z },
        collider_half_extents: Vec3Fx { x: DEFAULT_LENGTH_HALF, y: half_height, z: 10 },
    }
}

/// Refits a panel to a batter: clears it to the new dimensions and
/// returns where its sensor volume now hangs, by its own variant.
pub fn update_strikezone_panel(panel: &mut StrikezonePanel, batter_height: i64) -> (r:
    PanelPlacement)
    requires
        0 <= batter_height <= 100_000,
    ensures
        final(panel).spec_dimensions().x == DEFAULT_LENGTH_HALF,
        final(panel).spec_dimensions().y == spec_half_height(batter_height as int),
        !final(panel).spec_updated(),
        final(panel).spec_is_front() == old(panel).spec_is_front(),
        final(panel).spec_collision_point() == (Vec3Fx { x: 0, y: 0, z: 0 }),
        r.center.y == if old(panel).spec_is_front() {
            spec_pos_y(batter_height as int)
        } else {
            spec_pos_y(batter_height as int) - DEFAULT_BACK_PANEL_Y_DIFF
        },
        r.center.z == if old(panel).spec_is_front() {
            DEFAULT_FRONT_PANEL_POS_Z as int
        } else {
            DEFAULT_BACK_PANEL_POS_Z as int
        },
        r.center.x == 0,
        r.collider_half_extents.x == DEFAULT_LENGTH_HALF,
        r.collider_half_extents.y == spec_half_height(batter_height as int),
        r.collider_half_extents.z == 10,
{
    let (half_height, pos_y) = panel_layout(batter_height);
    proof {
        vstd::arithmetic::div_mod::lemma_div_pos_is_pos(2871 * batter_height, 20_000int);
        vstd::arithmetic::div_mod::lemma_div_pos_is_pos(8399 * batter_height, 20_000int);
        assert(2871 * batter_height <= 2871 * 100_000) by (nonlinear_arith)
            requires
                batter_height <= 100_000,
        ;
        assert(8399 * batter_height <= 8399 * 100_000) by (nonlinear_arith)
            requires
                batter_height <= 100_000,
        ;
        vstd::arithmetic::div_mod::lemma_div_is_ordered(
            2871 * batter_height,
            2871int * 100_000,
            20_000int,
        );
        vstd::arithmetic::div_mod::lemma_div_is_ordered(
            8399 * batter_height,
            8399int * 100_000,
            20_000int,
        );
    }
    panel.clear(Vec2Fx { x: DEFAULT_LENGTH_HALF, y: half_height });
    let is_front: bool = match panel {
        StrikezonePanel::Front { .. } => true,
        StrikezonePanel::Back { .. } => false,
    };
    if is_front {
        front_panel_placement(half_height, pos_y)
    } else {
        back_panel_placement(half_height, pos_y)
    }
}

/// Which collider of a sensed pair is the ball: the one that is not the
/// panel itself. Neither being the panel means the pair concerns some
/// other volume.
pub fn collision_counterpart(panel_entity: u64, collider1: u64, collider2: u64) -> (r: Option<
    u64,
>)
    ensures
        collider1 == panel_entity ==> r == Some(collider2),
        collider1 != panel_entity && collider2 == panel_entity ==> r == Some(collider1),
        collider1 != panel_entity && collider2 != panel_entity ==> r is None,
{
    if collider1 == panel_entity {
        Some(collider2)
    } else if collider2 == panel_entity {
        Some(collider1)
    } else {
        None
    }
}

} // verus!
