//! A small combat-resolution engine for a game entity system.
//!
//! Characters and destructible props exchange damage and healing subject to
//! attack range, faction-based alliance rules, and level-scaled damage.
//! Every entity is an immutable value snapshot: each action returns a new
//! snapshot rather than mutating in place.

pub mod combat;
pub mod entity;
pub mod faction;

pub use combat::{
    spec_attack, spec_attack_character, spec_attack_prop, spec_damaged_health, spec_heal,
    spec_heal_others, spec_scaled_damage,
};
pub use entity::{
    class_range, names_of, AttackTargetType, Character, CharacterClass, CharacterView, Prop,
    PropView, TargetView, MAX_HEALTH,
};
pub use faction::{faction_names, names_without, spec_allied};
