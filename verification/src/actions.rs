use vstd::prelude::*;
use crate::player::{
    AttackReport, Player, PurchaseOutcome, same_player, spec_damaged, spec_mitigated, spec_moved,
    spec_purchase_applied, spec_unit_step,
};
use crate::rng::roll_inclusive;
use crate::weapon::{spec_damage_max, spec_damage_min};

verus! {

/// The three kinds of turn action a combatant can take.
#[derive(Clone, Copy, PartialEq, Eq, Structural, Debug)]
pub enum ActionKind {
    Move,
    Shoot,
    Purchase,
}

/// A fully resolved turn action, carrying the data its execution needs.
#[derive(Clone, Copy, PartialEq, Eq, Structural, Debug)]
pub enum ActionChoice {
    /// Displace the actor by the given step.
    Move(i32, i32),
    /// Attack the other side with the equipped weapon.
    Shoot,
    /// Buy the weapon behind the given 1-based menu selection.
    Purchase(usize),
    /// An unrecognized menu selection: the turn is consumed with no effect.
    Invalid,
}

/// What an executed action reports back for display.
#[derive(Clone, Copy, PartialEq, Eq, Structural, Debug)]
pub enum ActionOutcome {
    /// The actor moved.
    Moved,
    /// The actor shot the target; carries the attack report.
    Shot(AttackReport),
    /// The actor attempted a purchase; carries its outcome.
    PurchaseResolved(PurchaseOutcome),
    /// An invalid selection consumed the turn without effect.
    NothingDone,
}

/// Relates the actor's and target's states across one executed action and
/// its reported outcome.
pub open spec fn spec_action_applied(
    a_old: Player,
    a_new: Player,
    t_old: Player,
    t_new: Player,
    action: ActionChoice,
    outcome: ActionOutcome,
) -> bool {
    match action {
        ActionChoice::Move(dx, dy) => {
            &&& outcome == ActionOutcome::Moved
            &&& spec_moved(a_old, a_new, dx as int, dy as int)
            &&& same_player(t_old, t_new)
        },
        ActionChoice::Shoot => match outcome {
            ActionOutcome::Shot(rep) => {
                &&& spec_damage_min(a_old.weapon) <= rep.raw <= spec_damage_max(a_old.weapon)
                &&& rep.mitigated as int == spec_mitigated(rep.raw as int, t_old.armor as int)
                &&& spec_damaged(t_old, t_new, rep.raw)
                &&& same_player(a_old, a_new)
            },
            _ => false,
        },
        ActionChoice::Purchase(choice) => match outcome {
            ActionOutcome::PurchaseResolved(p) => {
                &&& spec_purchase_applied(a_old, a_new, choice, p)
                &&& same_player(t_old, t_new)
            },
            _ => false,
        },
        ActionChoice::Invalid => {
            &&& outcome == ActionOutcome::NothingDone
            &&& same_player(a_old, a_new)
            &&& same_player(t_old, t_new)
        },
    }
}

/// The action kind a drawn index resolves to: 0 is Move, 1 is Shoot, every
/// other value is Purchase.
pub open spec fn spec_action_from_roll(v: u32) -> ActionKind {
    if v == 0 {
        ActionKind::Move
    } else if v == 1 {
        ActionKind::Shoot
    } else {
        ActionKind::Purchase
    }
}

/// Maps a drawn index to its action kind.
pub fn action_from_roll(v: u32) -> (r: ActionKind)
    ensures
        r == spec_action_from_roll(v),
{
    if v == 0 {
        ActionKind::Move
    } else if v == 1 {
        ActionKind::Shoot
    } else {
        ActionKind::Purchase
    }
}

/// The action kind a 1-based turn-menu selection resolves to; `None` is an
/// invalid selection, which still consumes the turn.
pub open spec fn spec_action_from_choice(choice: usize) -> Option<ActionKind> {
    if choice == 1 {
        Some(ActionKind::Move)
    } else if choice == 2 {
        Some(ActionKind::Shoot)
    } else if choice == 3 {
        Some(ActionKind::Purchase)
    } else {
        None
    }
}

/// Resolves a 1-based turn-menu selection to an action kind.
pub fn action_from_choice(choice: usize) -> (r: Option<ActionKind>)
    ensures
        r == spec_action_from_choice(choice),
{
    if choice == 1 {
        Some(ActionKind::Move)
    } else if choice == 2 {
        Some(ActionKind::Shoot)
    } else if choice == 3 {
        Some(ActionKind::Purchase)
    } else {
        None
    }
}

/// The opponent policy: one of the three action kinds, drawn independently
/// of all game state. Which kind comes back is random; every outcome is the
/// image of a drawn index at most 2 under the fixed mapping.
pub fn choose_opponent_action() -> (r: ActionKind)
    ensures
        exists|v: u32| v <= 2 && r == spec_action_from_roll(v),
{
    let v = roll_inclusive(0, 2);
    let r = action_from_roll(v);
    proof {
        assert(v <= 2 && r == spec_action_from_roll(v));
    }
    r
}

/// A unit step drawn from the four axis-aligned directions, for a randomized
/// Move action.
pub fn random_unit_step() -> (step: (i32, i32))
    ensures
        spec_unit_step(step.0 as int, step.1 as int),
{
    let c = roll_inclusive(0, 3);
    if c == 0 {
        (0, -1)
    } else if c == 1 {
        (0, 1)
    } else if c == 2 {
        (-1, 0)
    } else {
        (1, 0)
    }
}

/// Executes one resolved action by `actor` against `target` and reports what
/// happened: the single dispatch point shared by the human and the opponent
/// turn.
pub fn execute_action(actor: &mut Player, target: &mut Player, action: ActionChoice) -> (r:
    ActionOutcome)
    requires
        action matches ActionChoice::Move(dx, dy) ==> i32::MIN <= old(actor).position.0 + dx
            <= i32::MAX && i32::MIN <= old(actor).position.1 + dy <= i32::MAX,
    ensures
        spec_action_applied(*old(actor), *final(actor), *old(target), *final(target), action, r),
{
    match action {
        ActionChoice::Move(dx, dy) => {
            actor.move_player(dx, dy);
            ActionOutcome::Moved
        },
        ActionChoice::Shoot => {
            let rep = actor.shoot_attack(target);
            ActionOutcome::Shot(rep)
        },
        ActionChoice::Purchase(choice) => {
            let p = actor.purchase_weapon_attack(target, choice);
            ActionOutcome::PurchaseResolved(p)
        },
        ActionChoice::Invalid => ActionOutcome::NothingDone,
    }
}

} // verus!
