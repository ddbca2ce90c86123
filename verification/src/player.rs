use vstd::prelude::*;
use crate::rng::roll_inclusive;
use crate::weapon::{
    Weapon, lemma_damage_range_wellformed, spec_cost, spec_damage_max, spec_damage_min,
    spec_weapon_from_choice, weapon_from_choice,
};

verus! {

/// One side's full mutable combat state.
pub struct Player {
    /// Display name, immutable after creation.
    pub name: String,
    /// Cosmetic agent identifier; no effect on combat.
    pub agent: String,
    /// Currency for weapon purchases; never negative.
    pub credits: u32,
    /// Hit points; the combatant is defeated at exactly 0.
    pub health: u32,
    /// Flat damage mitigation applied to every incoming attack.
    pub armor: u32,
    /// Board position; tracked for display only.
    pub position: (i32, i32),
    /// Currently equipped weapon; always a catalog entry.
    pub weapon: Weapon,
}

/// Raw damage after flat armor subtraction, floored at zero.
pub open spec fn spec_mitigated(raw: int, armor: int) -> int {
    if raw > armor {
        raw - armor
    } else {
        0
    }
}

/// Health after an amount of already-mitigated damage, floored at zero.
pub open spec fn spec_health_after(health: int, mitigated: int) -> int {
    if health > mitigated {
        health - mitigated
    } else {
        0
    }
}

/// Two combatant states that agree on every field.
pub open spec fn same_player(a: Player, b: Player) -> bool {
    &&& a.name == b.name
    &&& a.agent == b.agent
    &&& a.credits == b.credits
    &&& a.health == b.health
    &&& a.armor == b.armor
    &&& a.position.0 == b.position.0
    &&& a.position.1 == b.position.1
    &&& a.weapon == b.weapon
}

/// Two combatant states that agree on everything but health, the one field an
/// incoming attack may change.
pub open spec fn same_but_health(a: Player, b: Player) -> bool {
    &&& a.name == b.name
    &&& a.agent == b.agent
    &&& a.credits == b.credits
    &&& a.armor == b.armor
    &&& a.position.0 == b.position.0
    &&& a.position.1 == b.position.1
    &&& a.weapon == b.weapon
}

/// `b` is `a` after taking `raw` raw damage through its armor.
pub open spec fn spec_damaged(a: Player, b: Player, raw: u32) -> bool {
    &&& same_but_health(a, b)
    &&& b.health as int == spec_health_after(a.health as int, spec_mitigated(raw as int, a.armor as int))
}

/// `b` is `a` displaced by `(dx, dy)`, every other field untouched.
pub open spec fn spec_moved(a: Player, b: Player, dx: int, dy: int) -> bool {
    &&& b.position.0 == a.position.0 + dx
    &&& b.position.1 == a.position.1 + dy
    &&& a.name == b.name
    &&& a.agent == b.agent
    &&& a.credits == b.credits
    &&& a.health == b.health
    &&& a.armor == b.armor
    &&& a.weapon == b.weapon
}

/// One of the four axis-aligned unit directions.
pub open spec fn spec_unit_step(dx: int, dy: int) -> bool {
    ||| (dx == 0 && dy == -1)
    ||| (dx == 0 && dy == 1)
    ||| (dx == -1 && dy == 0)
    ||| (dx == 1 && dy == 0)
}

/// What one resolved attack reports back: the raw roll from the weapon's
/// damage range and the damage actually dealt after armor mitigation.
#[derive(Clone, Copy, PartialEq, Eq, Structural, Debug)]
pub struct AttackReport {
    /// The raw damage drawn from the attacker's weapon range.
    pub raw: u32,
    /// Raw damage less the target's armor, floored at zero: what the target
    /// actually lost, up to the health floor.
    pub mitigated: u32,
}

/// Outcome of a purchase attempt.
#[derive(Clone, Copy, PartialEq, Eq, Structural, Debug)]
pub enum PurchaseOutcome {
    /// The selection was valid and affordable; the weapon is now equipped.
    Purchased(Weapon),
    /// The selection was valid but the buyer lacks the credits; no change.
    InsufficientCredits(Weapon),
    /// The selection was out of range; no change.
    InvalidChoice,
}

/// `b` is `a` after a purchase attempt with 1-based menu selection `choice`
/// that reported `outcome`: a valid, affordable selection equips the weapon
/// and deducts its cost; anything else leaves the state unchanged.
pub open spec fn spec_purchase_applied(
    a: Player,
    b: Player,
    choice: usize,
    outcome: PurchaseOutcome,
) -> bool {
    match spec_weapon_from_choice(choice) {
        Option::None => outcome == PurchaseOutcome::InvalidChoice && same_player(a, b),
        Option::Some(w) => {
            if a.credits >= spec_cost(w) {
                &&& outcome == PurchaseOutcome::Purchased(w)
                &&& b.weapon == w
                &&& b.credits as int == a.credits - spec_cost(w)
                &&& b.name == a.name
                &&& b.agent == a.agent
                &&& b.health == a.health
                &&& b.armor == a.armor
                &&& b.position.0 == a.position.0
                &&& b.position.1 == a.position.1
            } else {
                outcome == PurchaseOutcome::InsufficientCredits(w) && same_player(a, b)
            }
        },
    }
}

impl Player {
    /// A fresh combatant: full health, no armor, at the origin, baseline
    /// Pistol equipped.
    pub fn new(name: String, agent: String, credits: u32) -> (r: Player)
        ensures
            r.name == name,
            r.agent == agent,
            r.credits == credits,
            r.health == 100,
            r.armor == 0,
            r.position.0 == 0,
            r.position.1 == 0,
            r.weapon == Weapon::Pistol,
    {
        Player {
            name,
            agent,
            credits,
            health: 100,
            armor: 0,
            position: (0, 0),
            weapon: Weapon::Pistol,
        }
    }

    /// Applies raw incoming damage: flat armor subtraction first, then the
    /// health decrement, both floored at zero.
    pub fn take_damage(&mut self, damage: u32)
        ensures
            spec_damaged(*old(self), *final(self), damage),
    {
        let total_damage = damage.saturating_sub(self.armor);
        if total_damage > 0 {
            self.health = self.health.saturating_sub(total_damage);
        }
    }

    /// Displaces the combatant by `(dx, dy)`: purely additive, no clamping.
    pub fn move_player(&mut self, dx: i32, dy: i32)
        requires
            i32::MIN <= old(self).position.0 + dx <= i32::MAX,
            i32::MIN <= old(self).position.1 + dy <= i32::MAX,
        ensures
            spec_moved(*old(self), *final(self), dx as int, dy as int),
    {
        self.position = (self.position.0 + dx, self.position.1 + dy);
    }

    /// Rolls this combatant's weapon damage and applies it to the target;
    /// reports the raw roll and the mitigated damage dealt. Every call is an
    /// independent draw from the weapon's inclusive damage range.
    pub fn shoot(&self, target: &mut Player) -> (r: AttackReport)
        ensures
            spec_damage_min(self.weapon) <= r.raw <= spec_damage_max(self.weapon),
            r.mitigated as int == spec_mitigated(r.raw as int, old(target).armor as int),
            spec_damaged(*old(target), *final(target), r.raw),
    {
        let lo = self.weapon.damage_min();
        let hi = self.weapon.damage_max();
        proof {
            lemma_damage_range_wellformed(self.weapon);
        }
        let raw = roll_inclusive(lo, hi);
        let mitigated = raw.saturating_sub(target.armor);
        target.take_damage(raw);
        AttackReport { raw, mitigated }
    }

    /// Shoot as a turn action; the attacker's own state is untouched.
    pub fn shoot_attack(&mut self, target: &mut Player) -> (r: AttackReport)
        ensures
            same_player(*old(self), *final(self)),
            spec_damage_min(old(self).weapon) <= r.raw <= spec_damage_max(old(self).weapon),
            r.mitigated as int == spec_mitigated(r.raw as int, old(target).armor as int),
            spec_damaged(*old(target), *final(target), r.raw),
    {
        self.shoot(target)
    }

    /// Attempts to buy the weapon behind a 1-based menu selection: a valid,
    /// affordable selection equips it and deducts its cost; an out-of-range
    /// selection or insufficient credits leaves the state unchanged.
    pub fn purchase_weapon(&mut self, choice: usize) -> (r: PurchaseOutcome)
        ensures
            spec_purchase_applied(*old(self), *final(self), choice, r),
    {
        match weapon_from_choice(choice) {
            Option::None => PurchaseOutcome::InvalidChoice,
            Option::Some(w) => {
                let cost = w.cost();
                if self.credits >= cost {
                    self.credits = self.credits - cost;
                    self.weapon = w;
                    PurchaseOutcome::Purchased(w)
                } else {
                    PurchaseOutcome::InsufficientCredits(w)
                }
            },
        }
    }

    /// Purchase as a turn action; the targeted combatant is untouched.
    pub fn purchase_weapon_attack(&mut self, _target: &mut Player, choice: usize) -> (r:
        PurchaseOutcome)
        ensures
            spec_purchase_applied(*old(self), *final(self), choice, r),
            same_player(*old(_target), *final(_target)),
    {
        self.purchase_weapon(choice)
    }

    /// Move as the randomized turn action: one of the four unit directions is
    /// drawn and applied; returns the step taken for reporting.
    pub fn move_attack(&mut self) -> (step: (i32, i32))
        requires
            i32::MIN < old(self).position.0 < i32::MAX,
            i32::MIN < old(self).position.1 < i32::MAX,
        ensures
            spec_unit_step(step.0 as int, step.1 as int),
            spec_moved(*old(self), *final(self), step.0 as int, step.1 as int),
    {
        let c = roll_inclusive(0, 3);
        let step: (i32, i32) = if c == 0 {
            (0, -1)
        } else if c == 1 {
            (0, 1)
        } else if c == 2 {
            (-1, 0)
        } else {
            (1, 0)
        };
        self.move_player(step.0, step.1);
        step
    }
}

/// Mitigation law: mitigated damage is raw damage less armor, floored at
/// zero, so it is never negative and never exceeds the raw damage.
pub proof fn lemma_mitigation_bounds(raw: int, armor: int)
    requires
        raw >= 0,
        armor >= 0,
    ensures
        0 <= spec_mitigated(raw, armor),
        spec_mitigated(raw, armor) <= raw,
{
}

/// Health after a sequence of raw attack rolls, each mitigated by the same
/// armor value and floored at zero.
pub open spec fn spec_health_after_attacks(health: int, armor: int, raws: Seq<int>) -> int
    decreases raws.len(),
{
    if raws.len() == 0 {
        health
    } else {
        spec_health_after_attacks(
            spec_health_after(health, spec_mitigated(raws[0], armor)),
            armor,
            raws.drop_first(),
        )
    }
}

/// Health floor law: whatever sequence of attacks lands, health never drops
/// below zero, and never rises.
pub proof fn lemma_health_floor(health: int, armor: int, raws: Seq<int>)
    requires
        health >= 0,
    ensures
        0 <= spec_health_after_attacks(health, armor, raws),
        spec_health_after_attacks(health, armor, raws) <= health,
    decreases raws.len(),
{
    if raws.len() > 0 {
        lemma_health_floor(
            spec_health_after(health, spec_mitigated(raws[0], armor)),
            armor,
            raws.drop_first(),
        );
    }
}

/// Move round-trip law: a displacement followed by its inverse restores the
/// combatant exactly.
pub proof fn lemma_move_round_trip(a: Player, b: Player, c: Player, dx: int, dy: int)
    requires
        spec_moved(a, b, dx, dy),
        spec_moved(b, c, -dx, -dy),
    ensures
        same_player(a, c),
{
}

} // verus!
