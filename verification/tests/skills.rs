use carrion_eris::damage::{Damage, DamageType};
use carrion_eris::skills::Skill;

#[test]
fn slash_sharpens_the_critical_hit() {
    let mut d = Damage::new(DamageType::Physical);
    Skill::Slash.funky_scaling(&mut d);
    assert_eq!(d.damage, 10);
    assert_eq!(d.critical_multiplier, 2000);
    assert_eq!(d.crit_chance, 150);
    assert_eq!(d.number_of_hits, 1);
}

#[test]
fn skills_set_or_raise_their_base_damage() {
    let mut water = Damage::new(DamageType::Water);
    water.damage = 40;
    Skill::WaterBall.funky_scaling(&mut water);
    assert_eq!(water.damage, 12);

    let mut blow = Damage::new(DamageType::Physical);
    blow.damage = 7;
    Skill::MightyBlow.funky_scaling(&mut blow);
    assert_eq!(blow.damage, 57);

    let mut tornado = Damage::new(DamageType::Air);
    Skill::Tornado.funky_scaling(&mut tornado);
    assert_eq!(tornado.damage, 5);
    assert_eq!(tornado.critical_multiplier, 1300);
}

#[test]
fn several_hits_and_stacked_criticals() {
    let mut missile = Damage::new(DamageType::Arcane);
    Skill::MagicMissile.funky_scaling(&mut missile);
    assert_eq!(missile.number_of_hits, 5);
    assert_eq!(missile.damage, 0);

    let mut radiant = Damage::new(DamageType::Hope);
    Skill::RadiantIntellect.funky_scaling(&mut radiant);
    assert_eq!(radiant.number_of_hits, 3);
    assert_eq!(radiant.crit_chance, 300);
    assert_eq!(radiant.critical_multiplier, 3300);

    let mut brute = Damage::new(DamageType::Physical);
    Skill::BruteForce.funky_scaling(&mut brute);
    assert_eq!(brute.damage, 25);
    assert_eq!(brute.critical_multiplier, 3300);

    let mut fire = Damage::new(DamageType::Fire);
    Skill::FireBall.funky_scaling(&mut fire);
    assert_eq!(fire.critical_multiplier, 2500);
    assert_eq!(fire.crit_chance, 150);
}
