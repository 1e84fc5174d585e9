//! Ship definitions: hull records from the definition store, with their
//! turret mount layouts, and the template record written for editing
//! reference.
use vstd::prelude::*;
use vstd::string::StringExecFns;

use crate::interaction::IFF;
use crate::math::Vec2;
use crate::math::MAX_COORD;
use crate::physics::MAX_SCALE;
use crate::ship::Health;
use crate::ItemSize;

verus! {

/// Names of the ship hulls the game knows.
#[derive(Clone, Copy, Debug, PartialEq, Eq, Structural)]
pub enum ShipName {
    TemplateShip,
    PlayerTempShip,
}

/// One turret mount in a ship definition: its size class, its position on
/// the hull, its rest facing, and its traversal arc.
#[derive(Clone, Copy, Debug, PartialEq, Eq, Structural)]
pub struct TurretMountDefinition {
    pub size: ItemSize,
    pub translation: Vec2,
    pub rotation_degrees: i64,
    pub field_of_view_degrees: i64,
}

/// One hull as loaded from the definition store.
#[derive(Clone, Debug)]
pub struct ShipDefinition {
    pub ship_name: ShipName,
    pub health: Health,
    pub iff: IFF,
    pub texture_path: String,
    pub texture_scale: Vec2,
    pub turret_mounts: Vec<TurretMountDefinition>,
}

impl ShipDefinition {
    /// Mounts sit on the playfield-sized hull grid and the rendered size is
    /// a bounded box.
    pub open spec fn wf(self) -> bool {
        &&& 0 <= self.texture_scale.x <= MAX_SCALE
        &&& 0 <= self.texture_scale.y <= MAX_SCALE
        &&& forall|i: int|
            0 <= i < self.turret_mounts@.len() ==> (#[trigger] self.turret_mounts@[i]).translation.in_box(
                MAX_COORD as int,
            )
    }

    /// Checks `wf` at run time, for callers handing in unchecked records.
    pub fn is_valid(&self) -> (r: bool)
        ensures
            r == self.wf(),
    {
        if !(0 <= self.texture_scale.x && self.texture_scale.x <= MAX_SCALE
            && 0 <= self.texture_scale.y && self.texture_scale.y <= MAX_SCALE) {
            return false;
        }
        let mut i: usize = 0;
        while i < self.turret_mounts.len()
            invariant
                0 <= i <= self.turret_mounts@.len(),
                forall|j: int|
                    0 <= j < i ==> (#[trigger] self.turret_mounts@[j]).translation.in_box(
                        MAX_COORD as int,
                    ),
            decreases self.turret_mounts@.len() - i,
        {
            let t = self.turret_mounts[i].translation;
            if !(-MAX_COORD <= t.x && t.x <= MAX_COORD && -MAX_COORD <= t.y && t.y <= MAX_COORD) {
                return false;
            }
            i = i + 1;
        }
        true
    }
}

/// All ship definitions loaded at startup.
#[derive(Clone, Debug)]
pub struct ShipDefinitionList(pub Vec<ShipDefinition>);

impl ShipDefinitionList {
    /// Every definition in the list is within range.
    pub open spec fn wf(self) -> bool {
        forall|i: int| 0 <= i < self.0@.len() ==> (#[trigger] self.0@[i]).wf()
    }
}

/// Builds the explanatory template record for how a ship definition should
/// be formatted; the definition store serializes it to a template file for
/// editing reference.
pub fn write_ship_definition_template() -> (t: ShipDefinition)
    ensures
        t.ship_name == ShipName::TemplateShip,
        t.health == Health(100),
        t.iff == IFF::Friendly,
        t.texture_path@ == "template_texture.png"@,
        t.texture_scale == (Vec2 { x: 20000, y: 20000 }),
        t.turret_mounts@.len() == 3,
        t.turret_mounts@[0] == (TurretMountDefinition {
            size: ItemSize::Small,
            translation: Vec2 { x: -1230i64, y: 4560 },
            rotation_degrees: -45i64,
            field_of_view_degrees: 270,
        }),
        t.turret_mounts@[1] == (TurretMountDefinition {
            size: ItemSize::Medium,
            translation: Vec2 { x: 7890, y: 1000 },
            rotation_degrees: 45,
            field_of_view_degrees: 180,
        }),
        t.turret_mounts@[2] == (TurretMountDefinition {
            size: ItemSize::Large,
            translation: Vec2 { x: 100, y: 10 },
            rotation_degrees: 0,
            field_of_view_degrees: 90,
        }),
        t.wf(),
{
    let mut mounts: Vec<TurretMountDefinition> = Vec::new();
    mounts.push(
        TurretMountDefinition {
            size: ItemSize::Small,
            translation: Vec2 { x: -1230i64, y: 4560 },
            rotation_degrees: -45i64,
            field_of_view_degrees: 270,
        },
    );
    mounts.push(
        TurretMountDefinition {
            size: ItemSize::Medium,
            translation: Vec2 { x: 7890, y: 1000 },
            rotation_degrees: 45,
            field_of_view_degrees: 180,
        },
    );
    mounts.push(
        TurretMountDefinition {
            size: ItemSize::Large,
            translation: Vec2 { x: 100, y: 10 },
            rotation_degrees: 0,
            field_of_view_degrees: 90,
        },
    );
    ShipDefinition {
        ship_name: ShipName::TemplateShip,
        health: Health(100),
        iff: IFF::Friendly,
        texture_path: String::from_str("template_texture.png"),
        texture_scale: Vec2 { x: 20000, y: 20000 },
        turret_mounts: mounts,
    }
}

} // verus!
