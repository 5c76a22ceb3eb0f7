use pumpkin::effect::{
    beacon_effects, decode_effect, encode_effect, filter_effect, required_levels,
    validate_effects, EffectRegistry, StatusEffect, HASTE, JUMP_BOOST, REGENERATION, RESISTANCE,
    SPEED, STRENGTH,
};

const POISON: u16 = 18;

fn effect(id: u16, name: &str) -> StatusEffect {
    StatusEffect { id, minecraft_name: name.to_string() }
}

fn registry() -> EffectRegistry {
    EffectRegistry::new(vec![
        effect(SPEED, "minecraft:speed"),
        effect(HASTE, "minecraft:haste"),
        effect(STRENGTH, "minecraft:strength"),
        effect(JUMP_BOOST, "minecraft:jump_boost"),
        effect(REGENERATION, "minecraft:regeneration"),
        effect(RESISTANCE, "minecraft:resistance"),
        effect(POISON, "minecraft:poison"),
    ])
    .unwrap()
}

#[test]
fn validate_effects_matches_vanilla() {
    let registry = registry();
    let speed = registry.from_id(SPEED);
    let strength = registry.from_id(STRENGTH);
    let regen = registry.from_id(REGENERATION);
    let poison = registry.from_id(POISON);
    assert!(speed.is_some() && strength.is_some() && regen.is_some() && poison.is_some());

    assert!(validate_effects(None, None, 0));
    assert!(validate_effects(speed, None, 1));
    assert!(!validate_effects(strength, None, 2));
    assert!(validate_effects(strength, None, 3));
    // Secondary needs a full pyramid.
    assert!(!validate_effects(speed, regen, 3));
    assert!(validate_effects(speed, regen, 4));
    // Secondary may only be regeneration or the primary itself.
    assert!(validate_effects(speed, speed, 4));
    assert!(!validate_effects(speed, strength, 4));
    // Regeneration is never a primary; non-beacon effects are rejected.
    assert!(!validate_effects(regen, None, 4));
    assert!(!validate_effects(poison, None, 4));
}

#[test]
fn effect_encoding_round_trips() {
    let registry = registry();
    assert_eq!(encode_effect(None), 0);
    assert!(decode_effect(&registry, 0).is_none());
    for tier in beacon_effects() {
        for id in tier {
            let effect = registry.from_id(id);
            assert_eq!(effect.map(|e| e.id), Some(id));
            assert_eq!(
                decode_effect(&registry, encode_effect(effect)).map(|e| e.id),
                Some(id)
            );
        }
    }
    assert!(filter_effect(registry.from_id(POISON)).is_none());
    assert!(filter_effect(registry.from_id(SPEED)).is_some());
}

#[test]
fn beacon_effects_by_tier() {
    assert_eq!(
        beacon_effects(),
        vec![
            vec![SPEED, HASTE],
            vec![RESISTANCE, JUMP_BOOST],
            vec![STRENGTH],
            vec![REGENERATION],
        ]
    );
}

#[test]
fn required_levels_by_tier() {
    let registry = registry();
    assert_eq!(required_levels(None), 0);
    assert_eq!(required_levels(registry.from_id(SPEED)), 1);
    assert_eq!(required_levels(registry.from_id(HASTE)), 1);
    assert_eq!(required_levels(registry.from_id(RESISTANCE)), 2);
    assert_eq!(required_levels(registry.from_id(JUMP_BOOST)), 2);
    assert_eq!(required_levels(registry.from_id(STRENGTH)), 3);
    assert_eq!(required_levels(registry.from_id(REGENERATION)), 4);
    assert_eq!(required_levels(registry.from_id(POISON)), i32::MAX);
}

#[test]
fn encoding_is_id_plus_one() {
    let registry = registry();
    assert_eq!(encode_effect(registry.from_id(SPEED)), 1);
    assert_eq!(encode_effect(registry.from_id(RESISTANCE)), 11);
    assert_eq!(decode_effect(&registry, 11).map(|e| e.id), Some(RESISTANCE));
}

#[test]
fn numbers_of_no_effect_decode_to_none() {
    let registry = registry();
    assert!(decode_effect(&registry, -1).is_none());
    assert!(decode_effect(&registry, i32::MIN).is_none());
    assert!(decode_effect(&registry, 2).is_none());
    assert!(decode_effect(&registry, 65_537).is_none());
    assert!(decode_effect(&registry, i32::MAX).is_none());
}

#[test]
fn largest_id_round_trips() {
    let registry = EffectRegistry::new(vec![effect(u16::MAX, "minecraft:last")]).unwrap();
    let last = registry.from_id(u16::MAX);
    assert_eq!(encode_effect(last), 65_536);
    assert_eq!(decode_effect(&registry, 65_536).map(|e| e.id), Some(u16::MAX));
}

#[test]
fn effects_are_found_by_name() {
    let registry = registry();
    let haste = registry.from_minecraft_name(&"minecraft:haste".to_string());
    assert_eq!(haste.map(|e| e.id), Some(HASTE));
    assert!(registry.from_minecraft_name(&"haste".to_string()).is_none());
}

#[test]
fn registry_refuses_duplicates() {
    assert!(EffectRegistry::new(vec![effect(1, "a"), effect(1, "b")]).is_none());
    assert!(EffectRegistry::new(vec![effect(1, "a"), effect(2, "a")]).is_none());
    assert!(EffectRegistry::new(vec![effect(1, "a"), effect(2, "b")]).is_some());
    assert!(EffectRegistry::new(Vec::new()).is_some());
}

#[test]
fn negative_levels_allow_nothing() {
    assert!(!validate_effects(None, None, -1));
}

#[test]
fn taller_pyramids_allow_more() {
    let registry = registry();
    let resistance = registry.from_id(RESISTANCE);
    assert!(!validate_effects(resistance, None, 1));
    for levels in 2..10 {
        assert!(validate_effects(resistance, None, levels));
    }
}

#[test]
fn secondary_that_no_beacon_grants() {
    let registry = registry();
    let poison = registry.from_id(POISON);
    for levels in [4, 5, i32::MAX - 1, i32::MAX] {
        assert!(!validate_effects(registry.from_id(SPEED), poison, levels));
        assert!(!validate_effects(None, poison, levels));
        assert!(!validate_effects(poison, poison, levels));
        assert!(!validate_effects(poison, None, levels));
        assert!(validate_effects(registry.from_id(SPEED), registry.from_id(SPEED), levels));
    }
}

#[test]
fn secondary_without_primary() {
    let registry = registry();
    assert!(validate_effects(None, registry.from_id(REGENERATION), 4));
    assert!(!validate_effects(None, registry.from_id(SPEED), 4));
    assert!(!validate_effects(None, registry.from_id(POISON), 4));
}
