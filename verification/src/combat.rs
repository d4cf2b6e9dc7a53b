//! Attack and heal resolution: range gating, alliance gating, level-scaled
//! damage, and health clamping.

use vstd::prelude::*;

use crate::entity::{
    AttackTargetType, Character, CharacterView, Prop, PropView, TargetView, MAX_HEALTH,
};
use crate::faction::spec_allied;

verus! {

/// The damage actually applied once the attacker/defender level gap is taken
/// into account: +50% at a gap of 5 or more, -50% at a gap of -5 or less,
/// unchanged in between. Halving truncates.
pub open spec fn spec_scaled_damage(level_diff: int, damage: int) -> int {
    if level_diff >= 5 {
        damage + damage / 2
    } else if level_diff <= -5 {
        damage - damage / 2
    } else {
        damage
    }
}

/// The health left after taking `applied` damage: plain subtraction, clamped
/// at zero so excess damage is simply lethal.
pub open spec fn spec_damaged_health(health: int, applied: int) -> int {
    if applied >= health {
        0
    } else {
        health - applied
    }
}

/// The character left after an attack lands on it: unchanged when attacker
/// and target are allied, otherwise its health drops by the level-scaled
/// damage (clamped at zero) and everything else carries over.
pub open spec fn spec_attack_character(
    attacker: CharacterView,
    target: CharacterView,
    damage: int,
) -> CharacterView {
    if spec_allied(attacker, target) {
        target
    } else {
        let applied = spec_scaled_damage(attacker.level - target.level, damage);
        let new_health = spec_damaged_health(target.health, applied);
        CharacterView {
            health: new_health,
            level: target.level,
            alive: new_health > 0,
            class: target.class,
            attack_range: target.attack_range,
            factions: target.factions,
        }
    }
}

/// The prop left after an attack lands on it: flat damage, clamped at zero;
/// props have no factions and no levels, so nothing gates or scales the hit.
pub open spec fn spec_attack_prop(target: PropView, damage: int) -> PropView {
    let new_health = spec_damaged_health(target.health, damage);
    PropView { health: new_health, destroyed: new_health == 0 }
}

/// The target left after an attack: unchanged when the attack is out of
/// range, otherwise resolved per kind of target.
pub open spec fn spec_attack(
    attacker: CharacterView,
    target: TargetView,
    damage: int,
    range: int,
) -> TargetView {
    if range > attacker.attack_range {
        target
    } else {
        match target {
            TargetView::Character(c) => TargetView::Character(
                spec_attack_character(attacker, c, damage),
            ),
            TargetView::Prop(p) => TargetView::Prop(spec_attack_prop(p, damage)),
        }
    }
}

/// The character left after a heal: a dead target stays at zero health, a
/// living one gains `amount` up to the `MAX_HEALTH` cap; everything else
/// carries over.
pub open spec fn spec_heal(target: CharacterView, amount: int) -> CharacterView {
    if target.health > 0 {
        let new_health = if target.health + amount > MAX_HEALTH {
            MAX_HEALTH as int
        } else {
            target.health + amount
        };
        CharacterView {
            health: new_health,
            level: target.level,
            alive: true,
            class: target.class,
            attack_range: target.attack_range,
            factions: target.factions,
        }
    } else {
        CharacterView {
            health: 0,
            level: target.level,
            alive: false,
            class: target.class,
            attack_range: target.attack_range,
            factions: target.factions,
        }
    }
}

/// The target left after a heal aimed at another character: healed when the
/// two are allied, unchanged otherwise.
pub open spec fn spec_heal_others(
    healer: CharacterView,
    target: CharacterView,
    amount: int,
) -> CharacterView {
    if spec_allied(healer, target) {
        spec_heal(target, amount)
    } else {
        target
    }
}

impl Character {
    /// Resolves this character's attack on a prop: flat damage, clamped at
    /// zero.
    fn attack_prop(&self, target: Prop, damage: u32) -> (r: Prop)
        ensures
            r@ == spec_attack_prop(target@, damage as int),
            r@.wf(),
    {
        let new_health: u32 = if damage >= target.health {
            0
        } else {
            target.health - damage
        };
        Prop::new(new_health)
    }

    /// Resolves this character's attack on another character: no effect on
    /// an ally, otherwise level-scaled damage clamped at zero; the target's
    /// level, class and faction memberships survive the hit.
    fn attack_character(&self, target: Character, damage: u32) -> (r: Character)
        requires
            target@.wf(),
        ensures
            r@ == spec_attack_character(self@, target@, damage as int),
            r@.wf(),
    {
        if self.is_allied_with(&target) {
            return target;
        }
        let level_diff: i64 = self.level as i64 - target.level as i64;
        let applied: u64 = if level_diff >= 5 {
            damage as u64 + (damage / 2) as u64
        } else if level_diff <= -5 {
            (damage - damage / 2) as u64
        } else {
            damage as u64
        };
        let new_health: u32 = if applied >= target.health as u64 {
            0
        } else {
            target.health - applied as u32
        };
        Character {
            health: new_health,
            level: target.level,
            alive: new_health > 0,
            class: target.class,
            attack_range: target.attack_range,
            factions: target.factions,
        }
    }

    /// Resolves an attack on any target. Out-of-range attacks fail silently
    /// and leave the target unchanged, whatever the damage; in-range attacks
    /// are resolved per kind of target.
    pub fn attack(&self, target: AttackTargetType, damage: u32, range: u32) -> (r:
        AttackTargetType)
        requires
            target@.wf(),
        ensures
            r@ == spec_attack(self@, target@, damage as int, range as int),
            range > self@.attack_range ==> r@ == target@,
            r@.wf(),
    {
        if range > self.attack_range {
            return target;
        }
        match target {
            AttackTargetType::Character(target) => AttackTargetType::Character(
                self.attack_character(target, damage),
            ),
            AttackTargetType::Prop(target) => AttackTargetType::Prop(
                self.attack_prop(target, damage),
            ),
        }
    }

    /// Resolves a heal on the given target: a dead target stays at zero
    /// health, a living one gains `amount` capped at `MAX_HEALTH`.
    fn heal(&self, target: &Character, amount: u32) -> (r: Character)
        requires
            target@.wf(),
        ensures
            r@ == spec_heal(target@, amount as int),
            r@.wf(),
    {
        let factions = match &target.factions {
            Some(v) => Some(crate::faction::copy_factions(v)),
            None => None,
        };
        if target.alive {
            let new_health: u32 = if amount > MAX_HEALTH - target.health {
                MAX_HEALTH
            } else {
                target.health + amount
            };
            Character {
                health: new_health,
                level: target.level,
                alive: true,
                class: target.class,
                attack_range: target.attack_range,
                factions,
            }
        } else {
            Character {
                health: 0,
                level: target.level,
                alive: false,
                class: target.class,
                attack_range: target.attack_range,
                factions,
            }
        }
    }

    /// Heals this character itself; no alliance gate applies.
    pub fn heal_self(&self, health: u32) -> (r: Character)
        requires
            self@.wf(),
        ensures
            r@ == spec_heal(self@, health as int),
            r@.wf(),
    {
        self.heal(self, health)
    }

    /// Heals another character: only allies are healed, anyone else is
    /// returned unchanged.
    pub fn heal_others(&self, target: Character, health: u32) -> (r: Character)
        requires
            target@.wf(),
        ensures
            r@ == spec_heal_others(self@, target@, health as int),
            r@.wf(),
    {
        if self.is_allied_with(&target) {
            return self.heal(&target, health);
        }
        target
    }
}

/// A dead character stays dead: its `alive` flag is false, and both healing
/// and any further attack leave its health at zero.
pub proof fn lemma_dead_state_idempotent(
    attacker: CharacterView,
    target: CharacterView,
    damage: int,
    amount: int,
)
    requires
        target.wf(),
        target.health == 0,
        damage >= 0,
        amount >= 0,
    ensures
        !target.alive,
        spec_heal(target, amount).health == 0,
        spec_heal_others(attacker, target, amount).health == 0,
        spec_attack_character(attacker, target, damage).health == 0,
{
}

/// Every well-formed snapshot keeps its health between zero and the cap.
pub proof fn lemma_health_bounds(c: CharacterView)
    requires
        c.wf(),
    ensures
        0 <= c.health <= MAX_HEALTH,
{
}

/// An out-of-range attack never changes the target, whatever the damage.
pub proof fn lemma_out_of_range_attack_harmless(
    attacker: CharacterView,
    target: TargetView,
    damage: int,
    range: int,
)
    requires
        range > attacker.attack_range,
    ensures
        spec_attack(attacker, target, damage, range) == target,
{
}

/// The level-scaling thresholds are exact: a gap of 5 or more multiplies
/// damage by exactly 1.5 (truncating), a gap of -5 or less subtracts the
/// truncated half, and anything in between leaves the damage unchanged.
/// For even damage the low-gap case is exactly half.
pub proof fn lemma_level_scaling_thresholds(level_diff: int, damage: int)
    requires
        damage >= 0,
    ensures
        level_diff >= 5 ==> spec_scaled_damage(level_diff, damage) == damage + damage / 2,
        level_diff >= 5 ==> spec_scaled_damage(level_diff, damage) == 3 * damage / 2,
        level_diff <= -5 ==> spec_scaled_damage(level_diff, damage) == damage - damage / 2,
        level_diff <= -5 && damage % 2 == 0 ==> spec_scaled_damage(level_diff, damage) == damage
            / 2,
        -5 < level_diff < 5 ==> spec_scaled_damage(level_diff, damage) == damage,
{
    assert(damage + damage / 2 == 3 * damage / 2) by (nonlinear_arith)
        requires
            damage >= 0,
    ;
}

} // verus!
