use combat_core::{Character, CharacterClass, Prop};

#[test]
fn test_create_character() {
    let character = Character::default();
    assert_eq!(character.health, 1000);
    assert_eq!(character.level, 1);
    assert!(character.alive);
    assert_eq!(character.factions, None);
}

#[test]
fn test_character_attack() {
    let attacker = Character::default();
    let defender = Character::default();
    let defender = attacker.attack(defender.into(), 1000, 1);
    assert_eq!(defender.health(), 0);
    assert!(!defender.alive());

    let attacker = Character::new(1000, 10, CharacterClass::Melee);
    let stronger_defender = Character::new(1000, 20, CharacterClass::Melee);
    let stronger_defender = attacker.attack(stronger_defender.into(), 200, 1);
    assert_eq!(stronger_defender.health(), 900);

    let weaker_defender = Character::new(1000, 1, CharacterClass::Melee);
    let weaker_defender = attacker.attack(weaker_defender.into(), 200, 1);
    assert_eq!(weaker_defender.health(), 700);
}

#[test]
fn test_character_heal() {
    let healer = Character::new(100, 1, CharacterClass::Melee);
    let healer = healer.heal_self(100);
    assert_eq!(healer.health, 200);

    let healer = healer.heal_self(1000);
    assert_eq!(healer.health, 1000);

    let healer = Character::new(0, 1, CharacterClass::Melee);
    let healer = healer.heal_self(100);
    assert_eq!(healer.health, 0);
    assert!(!healer.alive);
}

#[test]
fn test_attack_range() {
    let melee_fighter = Character::new(1000, 1, CharacterClass::Melee);
    let out_of_range_target = Character::default();
    let in_range_target = Character::default();
    let out_of_range_target = melee_fighter.attack(out_of_range_target.into(), 1000, 5);
    let in_range_target = melee_fighter.attack(in_range_target.into(), 1000, 1);
    assert_eq!(out_of_range_target.health(), 1000);
    assert_eq!(in_range_target.health(), 0);

    let ranged_fighter = Character::new(1000, 1, CharacterClass::Ranged);
    let out_of_range_target = Character::default();
    let in_range_target = Character::default();
    let out_of_range_target = ranged_fighter.attack(out_of_range_target.into(), 1000, 25);
    let in_range_target = ranged_fighter.attack(in_range_target.into(), 1000, 20);
    assert_eq!(out_of_range_target.health(), 1000);
    assert_eq!(in_range_target.health(), 0);
}

#[test]
fn test_join_and_leave_one_or_more_factions() {
    let factions = vec!["Faction-A"];
    let character = Character::default().join_faction("Faction-A");
    assert_eq!(character.factions, Some(factions));

    let factions = vec!["Faction-A", "Faction-B"];
    let character = character.join_faction("Faction-B");
    assert_eq!(character.factions, Some(factions));

    let factions = vec!["Faction-A"];
    let character = character.leave_faction("Faction-B");
    assert_eq!(character.factions, Some(factions));

    let character = character.leave_faction("Faction-A");
    assert_eq!(character.factions, None);
}

#[test]
fn test_same_faction_allies() {
    let faction_name = "Faction-A";
    let char_a = Character::default().join_faction(faction_name);
    let char_b = Character::default().join_faction(faction_name);
    let char_c = Character::default();
    assert!(char_a.is_allied_with(&char_b));
    assert!(!char_a.is_allied_with(&char_c));
}

#[test]
fn test_can_not_damage_allies() {
    let faction_name = "Faction-A";
    let char_a = Character::default().join_faction(faction_name);
    let char_b = Character::default().join_faction(faction_name);
    let char_c = Character::default();
    let char_b = char_a.attack(char_b.into(), 1000, 1);
    let char_c = char_a.attack(char_c.into(), 1000, 1);
    assert_eq!(char_b.health(), 1000);
    assert_eq!(char_c.health(), 0);
}

#[test]
fn test_can_heal_allies() {
    let faction_name = "Faction-A";
    let char_a = Character::default().join_faction(faction_name);
    let char_b = Character::new(500, 1, CharacterClass::Melee).join_faction(faction_name);
    let char_c = Character::new(500, 1, CharacterClass::Melee);
    let char_b = char_a.heal_others(char_b, 200);
    let char_c = char_a.heal_others(char_c, 200);
    assert_eq!(char_b.health, 700);
    assert_eq!(char_c.health, 500);
}

#[test]
fn test_create_prop() {
    let prop = Prop::new(1000);
    assert_eq!(prop.health, 1000);
    assert!(!prop.destroyed);

    let prop = Prop::new(0);
    assert_eq!(prop.health, 0);
    assert!(prop.destroyed);
}

#[test]
fn test_can_attack_prop() {
    let attacker = Character::default();
    let prop = Prop::new(1000);
    let prop = attacker.attack(prop.into(), 1000, 1);
    assert_eq!(prop.health(), 0);
    assert!(prop.destroyed());
}
