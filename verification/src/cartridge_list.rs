//! Cartridge definitions: ammunition records from the definition store, and
//! the template record written for editing reference.
use vstd::prelude::*;
use vstd::string::StringExecFns;

use crate::math::Vec2;
use crate::projectile::ProjectileGuidance;

verus! {

/// Names of the projectiles the game knows.
#[derive(Clone, Copy, Debug, PartialEq, Eq, Structural)]
pub enum ProjectileName {
    TemplateProjectile,
    SmallMachinegunBullet,
}

impl Default for ProjectileName {
    fn default() -> (r: Self)
        ensures
            r == ProjectileName::TemplateProjectile,
    {
        ProjectileName::TemplateProjectile
    }
}

/// One cartridge as loaded from the definition store: what a gun chambers.
/// Speeds are in hundredths of a metre per second, the deviation is a
/// percentage, and the spread is in whole degrees.
#[derive(Clone, Debug)]
pub struct CartridgeDefinition {
    pub num_projectiles: i32,
    pub projectile_name: ProjectileName,
    pub guidance: ProjectileGuidance,
    pub projectile_damage: i64,
    pub projectile_velocity_mps: i64,
    pub velocity_deviation_percent: i64,
    pub bullet_spread_degrees: i64,
    pub texture_path: String,
    pub texture_render_size: Vec2,
}

impl Default for CartridgeDefinition {
    fn default() -> (r: Self)
        ensures
            r.num_projectiles == 0,
            r.projectile_name == ProjectileName::TemplateProjectile,
            r.guidance == ProjectileGuidance::Unguided,
            r.projectile_damage == 0,
            r.projectile_velocity_mps == 0,
            r.velocity_deviation_percent == 0,
            r.bullet_spread_degrees == 0,
            r.texture_path@ == ""@,
            r.texture_render_size == (Vec2 { x: 0, y: 0 }),
    {
        CartridgeDefinition {
            num_projectiles: 0,
            projectile_name: ProjectileName::TemplateProjectile,
            guidance: ProjectileGuidance::Unguided,
            projectile_damage: 0,
            projectile_velocity_mps: 0,
            velocity_deviation_percent: 0,
            bullet_spread_degrees: 0,
            texture_path: String::from_str(""),
            texture_render_size: Vec2 { x: 0, y: 0 },
        }
    }
}

/// All cartridge definitions loaded at startup.
#[derive(Clone, Debug)]
pub struct CartridgeDefinitionList(pub Vec<CartridgeDefinition>);

/// Builds the explanatory template record for how a cartridge definition
/// should be formatted; the definition store serializes it to a template
/// file for editing reference.
pub fn write_cartridge_definition_template() -> (t: CartridgeDefinition)
    ensures
        t.num_projectiles == 1,
        t.projectile_name == ProjectileName::TemplateProjectile,
        t.guidance == ProjectileGuidance::Unguided,
        t.projectile_damage == 10,
        t.projectile_velocity_mps == 10000,
        t.velocity_deviation_percent == 1,
        t.bullet_spread_degrees == 4,
        t.texture_path@ == "template_proj_texture.png"@,
        t.texture_render_size == (Vec2 { x: 100, y: 100 }),
{
    CartridgeDefinition {
        num_projectiles: 1,
        projectile_name: ProjectileName::TemplateProjectile,
        guidance: ProjectileGuidance::Unguided,
        projectile_damage: 10,
        projectile_velocity_mps: 10000,
        velocity_deviation_percent: 1,
        bullet_spread_degrees: 4,
        texture_path: String::from_str("template_proj_texture.png"),
        texture_render_size: Vec2 { x: 100, y: 100 },
    }
}

} // verus!
