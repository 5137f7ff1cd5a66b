//! Shared simulation vocabulary: directions, weapon and enemy variants,
//! sound cues, the score counter, and the asset-path lookups.

use vstd::prelude::*;

use vstd::string::StringExecFns;

verus! {

/// A horizontal direction, for movement and dashing.
#[derive(Clone, Copy, PartialEq, Eq, Structural, Debug)]
pub enum Directions {
    Left,
    Right,
}

/// The closed set of weapon variants.
#[derive(Clone, Copy, PartialEq, Eq, Structural, Debug)]
pub enum Weapons {
    Base,
    Rocket,
    Sniper,
    Shotgun,
    Rock,
    Airplane,
}

/// The closed set of enemy behavior variants.
#[derive(Clone, Copy, PartialEq, Eq, Structural, Debug)]
pub enum Behavior {
    Walker,
    Jumper,
    Shooter,
    BurstShooter,
}

/// Sound cues handed to the audio collaborator.
#[derive(Clone, Copy, PartialEq, Eq, Structural, Debug)]
pub enum Sounds {
    PlayerJump,
    EnemyJump,
    GunShot,
    SniperShot,
    ShotgunShot,
    Rocket,
    Rock,
    Airplane,
    EnemyShot,
}

/// The weapon component: which variant a pickup or held item is.
#[derive(Clone, Copy, PartialEq, Eq, Structural, Debug)]
pub struct Weapon {
    pub asset: Weapons,
}

/// The process-wide score counter, incremented on weapon pickup.
#[derive(Clone, Copy, PartialEq, Eq, Structural, Debug)]
pub struct Score {
    pub score: i64,
}

impl Default for Score {
    /// The score starts at zero.
    fn default() -> (s: Score)
        ensures
            s.score == 0,
    {
        Score { score: 0 }
    }
}

/// The sprite path of each weapon variant.
pub open spec fn spec_weapon_asset(weapon: Weapons) -> Seq<char> {
    match weapon {
        Weapons::Base => "images/BaseGun.png"@,
        Weapons::Sniper => "images/Sniper.png"@,
        Weapons::Rock => "images/Rock.png"@,
        Weapons::Airplane => "images/Airplane.png"@,
        Weapons::Shotgun => "images/Shotgun.png"@,
        Weapons::Rocket => "images/Rocket.png"@,
    }
}

/// The sprite path of a weapon variant, for the rendering collaborator.
pub fn weapon_enum_to_string(weapon: Weapons) -> (r: String)
    ensures
        r@ == spec_weapon_asset(weapon),
{
    match weapon {
        Weapons::Base => String::from_str("images/BaseGun.png"),
        Weapons::Sniper => String::from_str("images/Sniper.png"),
        Weapons::Rock => String::from_str("images/Rock.png"),
        Weapons::Airplane => String::from_str("images/Airplane.png"),
        Weapons::Shotgun => String::from_str("images/Shotgun.png"),
        Weapons::Rocket => String::from_str("images/Rocket.png"),
    }
}

/// The sprite-sheet path of each enemy variant.
pub open spec fn spec_behavior_asset(behav: Behavior) -> Seq<char> {
    match behav {
        Behavior::Walker => "images/BaseEnemy.png"@,
        Behavior::Jumper => "images/Jumper.png"@,
        Behavior::Shooter => "images/Shooter.png"@,
        Behavior::BurstShooter => "images/BurstShooter.png"@,
    }
}

/// The sprite-sheet path of an enemy variant, for the rendering collaborator.
pub fn behavior_to_asset(behav: Behavior) -> (r: String)
    ensures
        r@ == spec_behavior_asset(behav),
{
    match behav {
        Behavior::Walker => String::from_str("images/BaseEnemy.png"),
        Behavior::Jumper => String::from_str("images/Jumper.png"),
        Behavior::Shooter => String::from_str("images/Shooter.png"),
        Behavior::BurstShooter => String::from_str("images/BurstShooter.png"),
    }
}

} // verus!
