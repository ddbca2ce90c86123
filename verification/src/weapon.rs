use vstd::prelude::*;

verus! {

/// The closed set of weapons a combatant can equip. Every weapon the game
/// knows is a variant here, so an equipped weapon is always a catalog entry
/// and no "unknown weapon" default case can arise.
#[derive(Clone, Copy, PartialEq, Eq, Structural, Debug)]
pub enum Weapon {
    Pistol,
    Rifle,
    Shotgun,
}

/// Smallest damage value the weapon can roll (inclusive).
pub open spec fn spec_damage_min(w: Weapon) -> u32 {
    match w {
        Weapon::Pistol => 10,
        Weapon::Rifle => 20,
        Weapon::Shotgun => 5,
    }
}

/// Largest damage value the weapon can roll (inclusive).
pub open spec fn spec_damage_max(w: Weapon) -> u32 {
    match w {
        Weapon::Pistol => 20,
        Weapon::Rifle => 30,
        Weapon::Shotgun => 15,
    }
}

/// Purchase cost of the weapon in credits.
pub open spec fn spec_cost(w: Weapon) -> u32 {
    match w {
        Weapon::Pistol => 50,
        Weapon::Rifle => 100,
        Weapon::Shotgun => 50,
    }
}

/// The weapon a 1-based purchase-menu selection resolves to; `None` marks an
/// out-of-range selection.
pub open spec fn spec_weapon_from_choice(choice: usize) -> Option<Weapon> {
    if choice == 1 {
        Some(Weapon::Pistol)
    } else if choice == 2 {
        Some(Weapon::Rifle)
    } else if choice == 3 {
        Some(Weapon::Shotgun)
    } else {
        None
    }
}

impl Weapon {
    /// Lower inclusive bound of this weapon's damage range.
    pub fn damage_min(&self) -> (r: u32)
        ensures
            r == spec_damage_min(*self),
    {
        match self {
            Weapon::Pistol => 10,
            Weapon::Rifle => 20,
            Weapon::Shotgun => 5,
        }
    }

    /// Upper inclusive bound of this weapon's damage range.
    pub fn damage_max(&self) -> (r: u32)
        ensures
            r == spec_damage_max(*self),
    {
        match self {
            Weapon::Pistol => 20,
            Weapon::Rifle => 30,
            Weapon::Shotgun => 15,
        }
    }

    /// Purchase cost of this weapon.
    pub fn cost(&self) -> (r: u32)
        ensures
            r == spec_cost(*self),
    {
        match self {
            Weapon::Pistol => 50,
            Weapon::Rifle => 100,
            Weapon::Shotgun => 50,
        }
    }

    /// Display name of this weapon.
    pub fn label(&self) -> (r: &'static str)
        ensures
            *self == Weapon::Pistol ==> r@ == "Pistol"@,
            *self == Weapon::Rifle ==> r@ == "Rifle"@,
            *self == Weapon::Shotgun ==> r@ == "Shotgun"@,
    {
        match self {
            Weapon::Pistol => "Pistol",
            Weapon::Rifle => "Rifle",
            Weapon::Shotgun => "Shotgun",
        }
    }
}

/// Resolves a 1-based purchase-menu selection to a weapon.
pub fn weapon_from_choice(choice: usize) -> (r: Option<Weapon>)
    ensures
        r == spec_weapon_from_choice(choice),
{
    if choice == 1 {
        Some(Weapon::Pistol)
    } else if choice == 2 {
        Some(Weapon::Rifle)
    } else if choice == 3 {
        Some(Weapon::Shotgun)
    } else {
        None
    }
}

/// Every catalog entry has a non-empty damage range.
pub proof fn lemma_damage_range_wellformed(w: Weapon)
    ensures
        spec_damage_min(w) <= spec_damage_max(w),
{
}

} // verus!
