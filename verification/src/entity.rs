//! The entity model: characters, props, and the uniform attackable handle.

use vstd::prelude::*;

verus! {

/// The largest health value any character can hold or be healed up to.
pub const MAX_HEALTH: u32 = 1000;

/// A character's combat class, fixed at construction; it alone determines
/// the character's attack range.
#[derive(Clone, Copy, PartialEq, Eq, Structural)]
pub enum CharacterClass {
    Melee,
    Ranged,
}

/// The attack range a class grants: melee fighters reach 2, ranged ones 20.
pub open spec fn class_range(class: CharacterClass) -> int {
    match class {
        CharacterClass::Melee => 2,
        CharacterClass::Ranged => 20,
    }
}

/// A character snapshot: health, level, class-derived attack range, and the
/// factions it belongs to. `None` factions means the character belongs to no
/// faction at all; an empty collection is never stored.
pub struct Character {
    pub health: u32,
    pub level: u32,
    pub alive: bool,
    pub class: CharacterClass,
    pub attack_range: u32,
    pub factions: Option<Vec<&'static str>>,
}

/// The mathematical abstraction of a `Character`: plain integers and the
/// faction identifiers as sequences of characters, in insertion order.
pub ghost struct CharacterView {
    pub health: int,
    pub level: int,
    pub alive: bool,
    pub class: CharacterClass,
    pub attack_range: int,
    pub factions: Option<Seq<Seq<char>>>,
}

/// The faction identifiers a sequence of string slices denotes, in order.
pub open spec fn names_of(v: Seq<&'static str>) -> Seq<Seq<char>> {
    Seq::new(v.len(), |i: int| v[i]@)
}

impl View for Character {
    type V = CharacterView;

    open spec fn view(&self) -> CharacterView {
        CharacterView {
            health: self.health as int,
            level: self.level as int,
            alive: self.alive,
            class: self.class,
            attack_range: self.attack_range as int,
            factions: match self.factions {
                Some(v) => Some(names_of(v@)),
                None => None,
            },
        }
    }
}

impl CharacterView {
    /// Well-formedness of a character snapshot: `alive` is derived from
    /// health, health never exceeds the cap, levels start at 1, the attack
    /// range is the pure function of the class, and a faction collection is
    /// never stored empty.
    pub open spec fn wf(self) -> bool {
        &&& self.alive == (self.health > 0)
        &&& 0 <= self.health <= MAX_HEALTH
        &&& self.level >= 1
        &&& self.attack_range == class_range(self.class)
        &&& match self.factions {
            Some(fs) => fs.len() > 0,
            None => true,
        }
    }
}

impl Character {
    /// Builds a character with the given health, level and class; `alive`
    /// and `attack_range` are derived, and the character starts with no
    /// faction memberships.
    pub fn new(health: u32, level: u32, class: CharacterClass) -> (r: Self)
        requires
            health <= MAX_HEALTH,
            level >= 1,
        ensures
            r@.wf(),
            r@.health == health,
            r@.level == level,
            r@.alive == (health > 0),
            r@.class == class,
            r@.attack_range == class_range(class),
            r@.factions is None,
    {
        let alive = health > 0;
        let attack_range: u32 = match class {
            CharacterClass::Melee => 2,
            CharacterClass::Ranged => 20,
        };
        Self { health, level, alive, class, attack_range, factions: None }
    }
}

impl Default for Character {
    /// The default character: full health, level 1, melee, no factions.
    fn default() -> (r: Self)
        ensures
            r@.wf(),
            r@.health == MAX_HEALTH,
            r@.level == 1,
            r@.alive,
            r@.class == CharacterClass::Melee,
            r@.factions is None,
    {
        Character::new(MAX_HEALTH, 1, CharacterClass::Melee)
    }
}

/// An inert destructible prop: it has health and is destroyed exactly when
/// that health reaches zero.
pub struct Prop {
    pub health: u32,
    pub destroyed: bool,
}

/// The mathematical abstraction of a `Prop`.
pub ghost struct PropView {
    pub health: int,
    pub destroyed: bool,
}

impl View for Prop {
    type V = PropView;

    open spec fn view(&self) -> PropView {
        PropView { health: self.health as int, destroyed: self.destroyed }
    }
}

impl PropView {
    /// Well-formedness of a prop snapshot: `destroyed` is derived from health.
    pub open spec fn wf(self) -> bool {
        &&& self.destroyed == (self.health == 0)
        &&& self.health >= 0
    }
}

impl Prop {
    /// Builds a prop with the given health; `destroyed` is derived.
    pub fn new(health: u32) -> (r: Self)
        ensures
            r@.wf(),
            r@.health == health,
            r@.destroyed == (health == 0),
    {
        Self { health, destroyed: health == 0 }
    }
}

/// A uniform handle over everything that can be attacked: a character or a
/// prop.
pub enum AttackTargetType {
    Character(Character),
    Prop(Prop),
}

/// The mathematical abstraction of an `AttackTargetType`.
pub ghost enum TargetView {
    Character(CharacterView),
    Prop(PropView),
}

impl View for AttackTargetType {
    type V = TargetView;

    open spec fn view(&self) -> TargetView {
        match self {
            AttackTargetType::Character(c) => TargetView::Character(c@),
            AttackTargetType::Prop(p) => TargetView::Prop(p@),
        }
    }
}

impl TargetView {
    /// Well-formedness of a target: the underlying entity is well-formed.
    pub open spec fn wf(self) -> bool {
        match self {
            TargetView::Character(c) => c.wf(),
            TargetView::Prop(p) => p.wf(),
        }
    }

    /// The health of the underlying entity.
    pub open spec fn spec_health(self) -> int {
        match self {
            TargetView::Character(c) => c.health,
            TargetView::Prop(p) => p.health,
        }
    }

    /// Whether the underlying entity is still standing: a character is alive,
    /// a prop is not destroyed.
    pub open spec fn spec_alive(self) -> bool {
        match self {
            TargetView::Character(c) => c.alive,
            TargetView::Prop(p) => !p.destroyed,
        }
    }
}

impl AttackTargetType {
    /// The current health of the target, whichever kind it is.
    pub fn health(&self) -> (h: u32)
        ensures
            h == self@.spec_health(),
    {
        match self {
            AttackTargetType::Character(character) => character.health,
            AttackTargetType::Prop(prop) => prop.health,
        }
    }

    /// Whether the target is still standing: alive for a character, not
    /// destroyed for a prop.
    pub fn alive(&self) -> (a: bool)
        ensures
            a == self@.spec_alive(),
    {
        match self {
            AttackTargetType::Character(character) => character.alive,
            AttackTargetType::Prop(prop) => !prop.destroyed,
        }
    }

    /// Whether the target is down; the inverse of `alive`.
    pub fn destroyed(&self) -> (d: bool)
        ensures
            d == !self@.spec_alive(),
    {
        match self {
            AttackTargetType::Character(character) => !character.alive,
            AttackTargetType::Prop(prop) => prop.destroyed,
        }
    }
}

impl From<Character> for AttackTargetType {
    fn from(character: Character) -> (r: Self) {
        AttackTargetType::Character(character)
    }
}

impl vstd::std_specs::convert::FromSpecImpl<Character> for AttackTargetType {
    open spec fn obeys_from_spec() -> bool {
        true
    }

    open spec fn from_spec(character: Character) -> Self {
        AttackTargetType::Character(character)
    }
}

impl From<Prop> for AttackTargetType {
    fn from(prop: Prop) -> (r: Self) {
        AttackTargetType::Prop(prop)
    }
}

impl vstd::std_specs::convert::FromSpecImpl<Prop> for AttackTargetType {
    open spec fn obeys_from_spec() -> bool {
        true
    }

    open spec fn from_spec(prop: Prop) -> Self {
        AttackTargetType::Prop(prop)
    }
}

} // verus!
