use dungeon_core::data::Data;
use dungeon_core::effect::{Effect, EffectType, PlayerEffects};
use dungeon_core::game_mode::GameMode;
use dungeon_core::hero_class::HeroClass;
use dungeon_core::profile::{Gender, HeroSelectSceneButton, Profile};
use dungeon_core::run::{initiate_classic_mode, record_monster_kill, unlock_current_room};
use dungeon_core::skill::{PlayerSkill, Skill, SkillType};
use dungeon_core::stats::{BaseStats, Player};
use dungeon_core::weapon::{AttackType, Weapon, WeaponType};

fn base_stats() -> BaseStats {
    BaseStats {
        health: 50_000,
        damage: 4_000,
        speed: 8_000,
        strength: 2_000,
        intelligence: 6_000,
        critical_chance: 50,
        dodge_chance: 75,
        restore_chance: 25,
    }
}

#[test]
fn hero_class_iterator_lists_all_classes_once() {
    let classes = HeroClass::iterator();
    assert_eq!(
        classes,
        vec![HeroClass::Elf, HeroClass::Knight, HeroClass::Wizard, HeroClass::Lizard]
    );
}

#[test]
fn new_profile_defaults() {
    let profile = Profile::new();
    assert_eq!(profile.name, "");
    assert_eq!(profile.game_mode, GameMode::ClassicMode);
    assert_eq!(profile.hero_class, HeroClass::Elf);
    assert_eq!(profile.gender, Gender::Male);
    assert_eq!(profile.total_killed_monsters, 0);
    assert_eq!(profile.total_cleared_rooms, 0);
    assert_eq!(profile.total_cleared_waves, 0);
    assert_eq!(profile.start_time, profile.end_time);
    assert!(!profile.is_run_completed);
    assert!(!profile.is_run_finished);
}

#[test]
fn set_hero_picks_class_and_gender() {
    let mut profile = Profile::new();
    profile.set_hero(HeroSelectSceneButton::FemaleWizard);
    assert_eq!(profile.hero_class, HeroClass::Wizard);
    assert_eq!(profile.gender, Gender::Female);
    profile.set_hero(HeroSelectSceneButton::MaleKnight);
    assert_eq!(profile.hero_class, HeroClass::Knight);
    assert_eq!(profile.gender, Gender::Male);
    profile.set_hero(HeroSelectSceneButton::FemaleLizard);
    assert_eq!(profile.hero_class, HeroClass::Lizard);
    assert_eq!(profile.gender, Gender::Female);
    profile.set_hero(HeroSelectSceneButton::MaleElf);
    assert_eq!(profile.hero_class, HeroClass::Elf);
    assert_eq!(profile.gender, Gender::Male);
}

#[test]
fn set_name_and_mode() {
    let mut profile = Profile::new();
    profile.set_name(String::from("Rose"));
    profile.set_game_mode(GameMode::SurvivalMode);
    assert_eq!(profile.name, "Rose");
    assert_eq!(profile.game_mode, GameMode::SurvivalMode);
}

#[test]
fn stored_profile_playtime_is_the_timestamp_difference() {
    let mut profile = Profile::new();
    profile.set_name(String::from("Rose"));
    profile.start_time = String::from("2024-03-01T10:00:00+00:00");
    profile.end_time = String::from("2024-03-01T10:01:40+00:00");
    profile.total_killed_monsters = 12;
    let stored = profile.convert_to_stored_profile().expect("both timestamps parse");
    assert_eq!(stored.playtime, 100);
    assert_eq!(stored.date, "2024-03-01T10:00:00+00:00");
    assert_eq!(stored.name, "Rose");
    assert_eq!(stored.total_killed_monsters, 12);
}

#[test]
fn stored_profile_honours_offsets() {
    let mut profile = Profile::new();
    profile.start_time = String::from("2024-03-01T10:00:00+02:00");
    profile.end_time = String::from("2024-03-01T10:00:00+00:00");
    let stored = profile.convert_to_stored_profile().expect("both timestamps parse");
    // The same wall-clock reading two hours of offset apart.
    assert_eq!(stored.playtime, 7_200);
}

#[test]
fn stored_profile_requires_parseable_timestamps() {
    let mut profile = Profile::new();
    profile.start_time = String::from("yesterday");
    assert!(profile.convert_to_stored_profile().is_none());
}

#[test]
fn fresh_profile_converts_with_zero_playtime() {
    let profile = Profile::new();
    let stored = profile.convert_to_stored_profile().expect("fresh timestamps parse");
    assert_eq!(stored.playtime, 0);
}

#[test]
fn player_starts_at_full_health_and_damage_floors_at_zero() {
    let mut player = Player::new(HeroClass::Lizard, base_stats());
    assert_eq!(player.current_health_points, 50_000);
    assert_eq!(player.max_health_points, 50_000);
    assert_eq!(player.strength, 2_000);
    assert_eq!(player.intelligence, 6_000);
    player.take_damage(49_000);
    assert_eq!(player.current_health_points, 1_000);
    player.take_damage(5_000);
    assert_eq!(player.current_health_points, 0);
    assert_eq!(player.max_health_points, 50_000);
}

#[test]
fn initiate_classic_mode_resources() {
    let (dungeon, stats, controller) = initiate_classic_mode();
    assert_eq!(dungeon.current_floor_index, 0);
    assert_eq!(stats.current_room_position, dungeon.current_floor.current_position);
    assert!(stats.is_room_cleared);
    assert_eq!(stats.current_floor_index, 0);
    assert_eq!(controller.game_mode, GameMode::ClassicMode);
    assert_eq!(controller.max_available_monsters, 6);
    assert_eq!(controller.required_monsters, 0);
    assert_eq!(controller.alive_monsters, 0);
}

#[test]
fn unlock_current_room_marks_and_flags() {
    let (mut dungeon, mut stats, _) = initiate_classic_mode();
    stats.is_room_cleared = false;
    unlock_current_room(&mut dungeon, &mut stats);
    assert!(stats.is_room_cleared);
    assert!(dungeon.current_floor.cleared[0]);
}

#[test]
fn record_monster_kill_updates_every_counter() {
    let (_, _, mut controller) = initiate_classic_mode();
    controller.start_room(0);
    assert!(controller.try_spawn());
    let mut profile = Profile::new();
    let mut player_skill = PlayerSkill::new(Skill {
        name: SkillType::Armor,
        duration: None,
        cooldown: Some(5),
        require_monsters: Some(3),
        speed_percent_bonus: None,
        critical_chance_bonus: None,
        restore_chance_bonus: None,
        dodge_chance_bonus: None,
    });
    record_monster_kill(&mut controller, &mut profile, &mut player_skill);
    assert_eq!(controller.alive_monsters, 0);
    assert_eq!(profile.total_killed_monsters, 1);
    assert_eq!(player_skill.monster_counter, 1);
}

#[test]
fn reference_tables_answer_by_class() {
    let weapon = |class: HeroClass, name: WeaponType, level: u8| Weapon {
        name,
        hero_class: class,
        level,
        attack_type: AttackType::Shoot,
        strength: 1_000,
        intelligence: 0,
        swing_speed: None,
        cooldown: Some(1),
        width: 10_000,
        height: 10_000,
        scale: 3_500,
        effect: Some(EffectType::Slow),
        bullet: None,
    };
    let data = Data {
        elf_base_stats: base_stats(),
        knight_base_stats: BaseStats { health: 99_000, ..base_stats() },
        wizard_base_stats: base_stats(),
        lizard_base_stats: base_stats(),
        weapons: vec![
            weapon(HeroClass::Elf, WeaponType::BowAndArrow, 1),
            weapon(HeroClass::Knight, WeaponType::ShortSword, 1),
            weapon(HeroClass::Elf, WeaponType::BowAndArrow, 2),
        ],
        effects: vec![Effect { name: EffectType::Stun, duration: 2, bonus: 0 }],
        skills: Vec::new(),
    };
    assert_eq!(data.get_base_stats(HeroClass::Knight).health, 99_000);
    assert_eq!(data.get_base_stats(HeroClass::Elf).health, 50_000);
    let elf_weapons = data.get_weapons(HeroClass::Elf);
    assert_eq!(elf_weapons.len(), 2);
    assert_eq!(elf_weapons[0].level, 1);
    assert_eq!(elf_weapons[1].level, 2);
    assert!(data.get_weapons(HeroClass::Wizard).is_empty());
}

#[test]
fn player_effects_table_mirrors_the_reference_rows() {
    let effects = vec![
        Effect { name: EffectType::SpeedUp, duration: 3, bonus: 100 },
        Effect { name: EffectType::ReduceDamage, duration: 5, bonus: 0 },
    ];
    let player_effects = PlayerEffects::new(&effects);
    assert_eq!(player_effects.information.len(), 2);
    assert_eq!(player_effects.information[0].name, EffectType::SpeedUp);
    assert_eq!(player_effects.information[0].duration, 3);
    assert_eq!(player_effects.information[0].bonus, 100);
    assert_eq!(player_effects.information[1].name, EffectType::ReduceDamage);
}
