use pumpkin::beacon::{
    Advancement, BeaconBlockEntity, ConstructTrigger, Sound, TickAction, CRITERION, PULSE_TICKS,
};
use pumpkin::beam::{scan_column, ColumnScan};
use pumpkin::effect::{EffectRegistry, StatusEffect, HASTE, REGENERATION, SPEED};
use pumpkin::nbt::{NbtCompound, NbtTag};
use pumpkin::property::{PropertyDelegate, DATA_LEVELS, DATA_PRIMARY, DATA_SECONDARY};
use pumpkin::pyramid::{fits, update_base};
use pumpkin::world::{is_beam_block, Block, BlockKind, BlockPos, BoundingBox, WorldInfo};

const POISON: u16 = 18;

const POS: BlockPos = BlockPos { x: 100, y: 64, z: -20 };

fn effect(id: u16, name: &str) -> StatusEffect {
    StatusEffect { id, minecraft_name: name.to_string() }
}

fn registry() -> EffectRegistry {
    EffectRegistry::new(vec![
        effect(SPEED, "minecraft:speed"),
        effect(HASTE, "minecraft:haste"),
        effect(REGENERATION, "minecraft:regeneration"),
        effect(POISON, "minecraft:poison"),
    ])
    .unwrap()
}

fn block(kind: BlockKind, name: &str, opacity: u8) -> Block {
    Block { kind, name: name.to_string(), opacity }
}

fn beacon_under_air(pos: BlockPos) -> Block {
    if pos == POS {
        block(BlockKind::Beacon, "beacon", 1)
    } else {
        block(BlockKind::Other, "air", 0)
    }
}

fn world(age: i64, surface_y: i32) -> WorldInfo {
    WorldInfo { min_y: -64, height: 384, age, surface_y }
}

fn built(_: BlockPos) -> bool {
    true
}

fn not_built(_: BlockPos) -> bool {
    false
}

fn sounds(actions: &[TickAction]) -> Vec<Sound> {
    actions
        .iter()
        .filter_map(|action| match action {
            TickAction::PlaySound(sound) => Some(*sound),
            _ => None,
        })
        .collect()
}

/// A beacon whose beam is on.
fn lit(registry: &EffectRegistry) -> BeaconBlockEntity<'_> {
    let mut beacon = BeaconBlockEntity::new(registry, POS);
    let actions = beacon.tick(&world(1, POS.y), &beacon_under_air, &not_built);
    assert!(actions.is_empty());
    beacon
}

#[test]
fn beam_blocks() {
    assert!(is_beam_block(&block(BlockKind::Beacon, "beacon", 1)));
    assert!(is_beam_block(&block(BlockKind::Other, "red_stained_glass", 0)));
    assert!(is_beam_block(&block(BlockKind::Other, "lime_stained_glass_pane", 0)));
    assert!(!is_beam_block(&block(BlockKind::Other, "glass", 0)));
    assert!(!is_beam_block(&block(BlockKind::Other, "stained_glass", 0)));
    assert!(!is_beam_block(&block(BlockKind::Other, "red_stained_glass_", 0)));
    assert!(!is_beam_block(&block(BlockKind::Bedrock, "bedrock", 15)));
    assert!(!is_beam_block(&block(BlockKind::Other, "", 0)));
}

#[test]
fn scan_checks_ten_blocks() {
    let scan = scan_column(&beacon_under_air, POS, POS.y - 1, 100);
    assert_eq!(scan, ColumnScan { last_check_y: 73, cut: false });
    let scan = scan_column(&beacon_under_air, POS, 73, 100);
    assert_eq!(scan, ColumnScan { last_check_y: 83, cut: false });
}

#[test]
fn scan_ends_at_surface() {
    let scan = scan_column(&beacon_under_air, POS, POS.y - 1, 66);
    assert_eq!(scan, ColumnScan { last_check_y: 66, cut: false });
    let scan = scan_column(&beacon_under_air, POS, 70, 66);
    assert_eq!(scan, ColumnScan { last_check_y: 70, cut: false });
}

#[test]
fn scan_needs_the_beacon_first() {
    let air = |_: BlockPos| block(BlockKind::Other, "air", 0);
    let scan = scan_column(&air, POS, POS.y - 1, 100);
    assert_eq!(scan, ColumnScan { last_check_y: 100, cut: true });
}

#[test]
fn opaque_blocks_cut_the_beam() {
    let stone = |p: BlockPos| {
        if p.y == 70 {
            block(BlockKind::Other, "stone", 15)
        } else {
            beacon_under_air(p)
        }
    };
    let scan = scan_column(&stone, POS, POS.y - 1, 100);
    assert_eq!(scan, ColumnScan { last_check_y: 100, cut: true });
    let leaves = |p: BlockPos| {
        if p.y == 70 {
            block(BlockKind::Other, "oak_leaves", 14)
        } else {
            beacon_under_air(p)
        }
    };
    let scan = scan_column(&leaves, POS, POS.y - 1, 100);
    assert_eq!(scan, ColumnScan { last_check_y: 73, cut: false });
}

#[test]
fn bedrock_lets_the_beam_through() {
    let bedrock = |p: BlockPos| {
        if p.y == 70 {
            block(BlockKind::Bedrock, "bedrock", 15)
        } else {
            beacon_under_air(p)
        }
    };
    let scan = scan_column(&bedrock, POS, POS.y - 1, 100);
    assert_eq!(scan, ColumnScan { last_check_y: 73, cut: false });
}

#[test]
fn scan_looks_at_its_own_column() {
    let seen = std::cell::RefCell::new(Vec::new());
    let watch = |p: BlockPos| {
        seen.borrow_mut().push(p);
        beacon_under_air(p)
    };
    scan_column(&watch, POS, POS.y - 1, POS.y + 2);
    let expected: Vec<BlockPos> = (0..3).map(|i| BlockPos { y: POS.y + i, ..POS }).collect();
    assert_eq!(*seen.borrow(), expected);
}

#[test]
fn pyramid_layers() {
    assert_eq!(update_base(&built, POS, -64), 4);
    assert_eq!(update_base(&not_built, POS, -64), 0);
    // The world ends below the second layer.
    assert_eq!(update_base(&built, POS, POS.y - 2), 2);
    // One block is missing at a corner of the third layer.
    let gap = |p: BlockPos| p != BlockPos { x: POS.x + 3, y: POS.y - 3, z: POS.z - 3 };
    assert_eq!(update_base(&gap, POS, -64), 2);
    // A hole in the first layer hides complete layers below.
    let hole = |p: BlockPos| p.y != POS.y - 1 || p.x != POS.x;
    assert_eq!(update_base(&hole, POS, -64), 0);
}

#[test]
fn pyramid_layers_are_squares() {
    let count = std::cell::Cell::new(0);
    let watch = |p: BlockPos| {
        let step = POS.y - p.y;
        assert!((p.x - POS.x).abs() <= step && (p.z - POS.z).abs() <= step);
        count.set(count.get() + 1);
        true
    };
    assert_eq!(update_base(&watch, POS, -64), 4);
    assert_eq!(count.get(), 9 + 25 + 49 + 81);
}

#[test]
fn new_beacon_is_dark() {
    let registry = registry();
    let beacon = BeaconBlockEntity::new(&registry, POS);
    assert_eq!(beacon.levels(), 0);
    assert!(beacon.primary_effect().is_none());
    assert!(beacon.secondary_effect().is_none());
    assert!(!beacon.is_dirty());
    assert_eq!(beacon.get_position(), POS);
    assert_eq!(beacon.resource_location(), "minecraft:beacon");
    assert_eq!(BeaconBlockEntity::ID, "minecraft:beacon");
    assert_eq!(beacon.get_properties_size(), 3);
}

#[test]
fn properties_round_trip() {
    let registry = registry();
    let mut beacon = BeaconBlockEntity::new(&registry, POS);
    beacon.set_property(DATA_LEVELS, 4);
    assert!(beacon.is_dirty());
    beacon.set_property(DATA_PRIMARY, i32::from(HASTE) + 1);
    beacon.set_property(DATA_SECONDARY, i32::from(REGENERATION) + 1);
    assert_eq!(beacon.get_property(DATA_LEVELS), 4);
    assert_eq!(beacon.get_property(DATA_PRIMARY), 3);
    assert_eq!(beacon.get_property(DATA_SECONDARY), 10);
    assert_eq!(beacon.primary_effect().map(|e| e.id), Some(HASTE));
    assert_eq!(beacon.secondary_effect().map(|e| e.id), Some(REGENERATION));
    assert_eq!(beacon.get_property(3), 0);
    assert_eq!(beacon.get_property(-1), 0);
}

#[test]
fn properties_drop_what_a_beacon_cannot_grant() {
    let registry = registry();
    let mut beacon = BeaconBlockEntity::new(&registry, POS);
    beacon.set_property(DATA_PRIMARY, i32::from(POISON) + 1);
    beacon.set_property(DATA_SECONDARY, -7);
    assert_eq!(beacon.get_property(DATA_PRIMARY), 0);
    assert_eq!(beacon.get_property(DATA_SECONDARY), 0);
    assert!(beacon.is_dirty());
}

#[test]
fn unknown_properties_change_nothing() {
    let registry = registry();
    let mut beacon = BeaconBlockEntity::new(&registry, POS);
    beacon.set_property(3, 1);
    assert!(!beacon.is_dirty());
    beacon.set_property(DATA_LEVELS, 2);
    beacon.clear_dirty();
    assert!(!beacon.is_dirty());
}

#[test]
fn saving_round_trips() {
    let registry = registry();
    let mut nbt = NbtCompound::new();
    nbt.put_string("primary_effect", "minecraft:speed".to_string());
    nbt.put_string("secondary_effect", "minecraft:regeneration".to_string());
    nbt.put_int("Levels", 4);
    nbt.put_string("CustomName", "Lighthouse".to_string());
    nbt.put_string("Lock", "key".to_string());
    let beacon = BeaconBlockEntity::from_nbt(&registry, &nbt, POS);
    assert_eq!(beacon.levels(), 4);
    assert_eq!(beacon.primary_effect().map(|e| e.id), Some(SPEED));
    assert_eq!(beacon.secondary_effect().map(|e| e.id), Some(REGENERATION));
    assert!(!beacon.is_dirty());

    let saved = beacon.chunk_data_nbt().unwrap();
    assert_eq!(saved.get_string("primary_effect").unwrap(), "minecraft:speed");
    assert_eq!(saved.get_string("secondary_effect").unwrap(), "minecraft:regeneration");
    assert_eq!(saved.get_int("Levels"), Some(4));
    assert_eq!(saved.get_string("CustomName").unwrap(), "Lighthouse");
    assert_eq!(saved.get_string("Lock").unwrap(), "key");
}

#[test]
fn empty_compound_is_a_new_beacon() {
    let registry = registry();
    let beacon = BeaconBlockEntity::from_nbt(&registry, &NbtCompound::new(), POS);
    assert_eq!(beacon.levels(), 0);
    let saved = beacon.chunk_data_nbt().unwrap();
    assert_eq!(saved.get_int("Levels"), Some(0));
    assert!(saved.get("primary_effect").is_none());
    assert!(saved.get("secondary_effect").is_none());
    assert!(saved.get("CustomName").is_none());
    assert!(saved.get("Lock").is_none());
}

#[test]
fn loading_drops_unknown_effects() {
    let registry = registry();
    let mut nbt = NbtCompound::new();
    nbt.put_string("primary_effect", "minecraft:poison".to_string());
    nbt.put_string("secondary_effect", "minecraft:nonsense".to_string());
    nbt.put("Levels", NbtTag::Other(7));
    nbt.put_int("CustomName", 3);
    let beacon = BeaconBlockEntity::from_nbt(&registry, &nbt, POS);
    assert!(beacon.primary_effect().is_none());
    assert!(beacon.secondary_effect().is_none());
    assert_eq!(beacon.levels(), 0);
    assert!(beacon.chunk_data_nbt().unwrap().get("CustomName").is_none());
}

#[test]
fn writing_keeps_other_tags() {
    let registry = registry();
    let beacon = BeaconBlockEntity::new(&registry, POS);
    let mut nbt = NbtCompound::new();
    nbt.put_string("id", BeaconBlockEntity::ID.to_string());
    nbt.put_int("x", POS.x);
    nbt.put("components", NbtTag::Other(7));
    beacon.write_nbt(&mut nbt);
    assert!(matches!(nbt.get("components"), Some(NbtTag::Other(7))));
    assert_eq!(nbt.get_string("id").unwrap(), "minecraft:beacon");
    assert_eq!(nbt.get_int("x"), Some(100));
    assert_eq!(nbt.get_int("Levels"), Some(0));
}

#[test]
fn beam_takes_a_tick_for_each_ten_blocks() {
    let registry = registry();
    let mut beacon = BeaconBlockEntity::new(&registry, POS);
    // 25 blocks from the beacon to the surface.
    for tick in 1..=3 {
        // The primary effect makes itself heard only while the beam is on.
        beacon.set_property(DATA_PRIMARY, 1);
        let actions = beacon.tick(&world(tick, POS.y + 24), &beacon_under_air, &not_built);
        assert!(actions.is_empty());
    }
    beacon.set_property(DATA_PRIMARY, 1);
    let actions = beacon.tick(&world(4, POS.y + 24), &beacon_under_air, &not_built);
    assert_eq!(sounds(&actions), vec![Sound::BlockBeaconPowerSelect]);
    let actions = beacon.tick(&world(5, POS.y + 24), &beacon_under_air, &not_built);
    assert!(actions.is_empty());
}

#[test]
fn blocked_beam_goes_dark_again() {
    let registry = registry();
    let mut beacon = lit(&registry);
    let roofed = |p: BlockPos| {
        if p.y == POS.y + 1 {
            block(BlockKind::Other, "stone", 15)
        } else {
            beacon_under_air(p)
        }
    };
    beacon.tick(&world(2, POS.y + 1), &roofed, &built);
    // At a pulse a dark beacon neither measures its pyramid nor grants effects.
    let actions = beacon.tick(&world(80, POS.y + 1), &roofed, &built);
    assert!(actions.is_empty());
    assert_eq!(beacon.levels(), 0);
}

#[test]
fn beacon_activates_at_a_pulse() {
    let registry = registry();
    let mut beacon = lit(&registry);
    let actions = beacon.tick(&world(79, POS.y), &beacon_under_air, &built);
    assert!(actions.is_empty());
    assert_eq!(beacon.levels(), 0);
    let actions = beacon.tick(&world(80, POS.y), &beacon_under_air, &built);
    assert_eq!(beacon.levels(), 4);
    assert!(beacon.is_dirty());
    assert_eq!(
        sounds(&actions),
        vec![Sound::BlockBeaconAmbient, Sound::BlockBeaconActivate]
    );
    match &actions[2] {
        TickAction::ConstructBeacon(trigger) => assert_eq!(
            *trigger,
            ConstructTrigger {
                bounds: BoundingBox {
                    min_x: 90,
                    min_y: 55,
                    min_z: -30,
                    max_x: 110,
                    max_y: 69,
                    max_z: -10,
                },
                advancement: Advancement::NetherCreateBeacon,
                full: Some(Advancement::NetherCreateFullBeacon),
            }
        ),
        other => panic!("{:?}", other),
    }
    assert_eq!(actions.len(), 3);
    assert_eq!(CRITERION, "beacon");
}

#[test]
fn lower_pyramid_is_no_full_beacon() {
    let registry = registry();
    let mut beacon = lit(&registry);
    let one_layer = |p: BlockPos| p.y == POS.y - 1;
    let actions = beacon.tick(&world(80, POS.y), &beacon_under_air, &one_layer);
    match &actions[2] {
        TickAction::ConstructBeacon(trigger) => assert_eq!(trigger.full, None),
        other => panic!("{:?}", other),
    }
    assert_eq!(beacon.levels(), 1);
}

#[test]
fn beacon_deactivates_without_pyramid() {
    let registry = registry();
    let mut beacon = lit(&registry);
    beacon.tick(&world(80, POS.y), &beacon_under_air, &built);
    let actions = beacon.tick(&world(160, POS.y), &beacon_under_air, &not_built);
    assert_eq!(beacon.levels(), 0);
    assert_eq!(sounds(&actions), vec![Sound::BlockBeaconDeactivate]);
}

#[test]
fn pulse_grants_the_primary_effect() {
    let registry = registry();
    let mut beacon = lit(&registry);
    beacon.set_property(DATA_PRIMARY, i32::from(SPEED) + 1);
    let two_layers = |p: BlockPos| p.y >= POS.y - 2;
    let actions = beacon.tick(&world(80, POS.y), &beacon_under_air, &two_layers);
    match &actions[0] {
        TickAction::ApplyEffects(given) => {
            assert_eq!(
                given.bounds,
                BoundingBox {
                    min_x: 70,
                    min_y: 34,
                    min_z: -50,
                    max_x: 131,
                    max_y: 95 + 384,
                    max_z: 11,
                }
            );
            assert_eq!(given.primary.effect_type.id, SPEED);
            assert_eq!(given.primary.duration, 260);
            assert_eq!(given.primary.amplifier, 0);
            assert!(given.primary.ambient);
            assert!(given.primary.show_particles);
            assert!(given.primary.show_icon);
            assert!(!given.primary.blend);
            assert!(given.secondary.is_none());
        }
        other => panic!("{:?}", other),
    }
    assert_eq!(
        sounds(&actions),
        vec![
            Sound::BlockBeaconAmbient,
            Sound::BlockBeaconActivate,
            Sound::BlockBeaconPowerSelect
        ]
    );
}

#[test]
fn same_secondary_amplifies() {
    let registry = registry();
    let mut beacon = BeaconBlockEntity::new(&registry, POS);
    beacon.set_property(DATA_PRIMARY, 1);
    beacon.set_property(DATA_SECONDARY, 1);
    let given = beacon.apply_effects(384, 4).unwrap();
    assert_eq!(given.primary.amplifier, 1);
    assert_eq!(given.primary.duration, 340);
    assert!(given.secondary.is_none());
    let given = beacon.apply_effects(384, 3).unwrap();
    assert_eq!(given.primary.amplifier, 0);
    assert!(given.secondary.is_none());
}

#[test]
fn other_secondary_comes_with_a_full_pyramid() {
    let registry = registry();
    let mut beacon = BeaconBlockEntity::new(&registry, POS);
    beacon.set_property(DATA_PRIMARY, 1);
    beacon.set_property(DATA_SECONDARY, i32::from(REGENERATION) + 1);
    let given = beacon.apply_effects(384, 4).unwrap();
    assert_eq!(given.primary.amplifier, 0);
    let second = given.secondary.unwrap();
    assert_eq!(second.effect_type.id, REGENERATION);
    assert_eq!(second.amplifier, 0);
    assert_eq!(second.duration, 340);
    assert!(beacon.apply_effects(384, 3).unwrap().secondary.is_none());
}

#[test]
fn no_primary_grants_nothing() {
    let registry = registry();
    let mut beacon = BeaconBlockEntity::new(&registry, POS);
    beacon.set_property(DATA_SECONDARY, i32::from(REGENERATION) + 1);
    assert!(beacon.apply_effects(384, 4).is_none());
}

#[test]
fn removed_beacon_is_heard() {
    let registry = registry();
    let beacon = BeaconBlockEntity::new(&registry, POS);
    assert_eq!(beacon.on_block_replaced(), Sound::BlockBeaconDeactivate);
}

#[test]
fn ticks_keep_settings() {
    let registry = registry();
    let mut nbt = NbtCompound::new();
    nbt.put_string("primary_effect", "minecraft:haste".to_string());
    nbt.put_string("secondary_effect", "minecraft:regeneration".to_string());
    nbt.put_string("CustomName", "Lighthouse".to_string());
    let mut beacon = BeaconBlockEntity::from_nbt(&registry, &nbt, POS);
    for age in 1..=200 {
        beacon.tick(&world(age, POS.y + 30), &beacon_under_air, &built);
    }
    assert_eq!(beacon.get_position(), POS);
    assert_eq!(beacon.primary_effect().map(|e| e.id), Some(HASTE));
    assert_eq!(beacon.secondary_effect().map(|e| e.id), Some(REGENERATION));
    assert_eq!(beacon.levels(), 4);
    let saved = beacon.chunk_data_nbt().unwrap();
    assert_eq!(saved.get_string("CustomName").unwrap(), "Lighthouse");
}

#[test]
fn effects_come_every_eighty_ticks() {
    let registry = registry();
    let mut beacon = lit(&registry);
    beacon.set_property(DATA_PRIMARY, 1);
    let mut granted_at = Vec::new();
    for age in 2..=240 {
        for action in beacon.tick(&world(age, POS.y), &beacon_under_air, &built) {
            if let TickAction::ApplyEffects(given) = action {
                assert!(i64::from(given.primary.duration) > PULSE_TICKS);
                granted_at.push(age);
            }
        }
    }
    assert_eq!(granted_at, vec![80, 160, 240]);
}

#[test]
fn levels_stay_between_pulses() {
    let registry = registry();
    let mut beacon = lit(&registry);
    beacon.set_property(DATA_LEVELS, 3);
    beacon.clear_dirty();
    beacon.tick(&world(81, POS.y), &beacon_under_air, &not_built);
    assert_eq!(beacon.levels(), 3);
    assert!(!beacon.is_dirty());
    beacon.tick(&world(-160, POS.y), &beacon_under_air, &not_built);
    assert_eq!(beacon.levels(), 0);
    assert!(beacon.is_dirty());
}

#[test]
fn reach_grows_with_the_pyramid() {
    let registry = registry();
    let mut beacon = BeaconBlockEntity::new(&registry, POS);
    beacon.set_property(DATA_PRIMARY, 1);
    for levels in 1..=4 {
        let bounds = beacon.apply_effects(384, levels).unwrap().bounds;
        let range = i64::from(levels) * 10 + 10;
        assert_eq!(bounds.min_x, 100 - range);
        assert_eq!(bounds.max_z, -20 + 1 + range);
        assert_eq!(bounds.max_y, 64 + 1 + range + 384);
    }
}

#[test]
fn scan_above_the_surface_is_complete() {
    let registry = registry();
    let mut beacon = BeaconBlockEntity::new(&registry, POS);
    let seen = |_: BlockPos| -> Block { panic!("looked at a block") };
    beacon.tick(&world(1, POS.y - 5), &seen, &not_built);
    beacon.set_property(DATA_PRIMARY, 1);
    let actions = beacon.tick(&world(2, POS.y - 5), &seen, &not_built);
    assert_eq!(sounds(&actions), vec![Sound::BlockBeaconPowerSelect]);
}

#[test]
fn pyramids_need_room() {
    assert!(fits(POS));
    assert!(fits(BlockPos { x: i32::MAX - 4, y: i32::MIN + 1, z: i32::MIN + 4 }));
    assert!(fits(BlockPos { y: i32::MAX, ..POS }));
    assert!(!fits(BlockPos { x: i32::MAX - 3, ..POS }));
    assert!(!fits(BlockPos { z: i32::MIN + 3, ..POS }));
}

#[test]
fn only_lit_beacons_measure_at_a_pulse() {
    let registry = registry();
    let dark = BeaconBlockEntity::new(&registry, POS);
    assert!(!dark.measures(&world(80, POS.y)));
    let beacon = lit(&registry);
    assert!(beacon.measures(&world(80, POS.y)));
    assert!(!beacon.measures(&world(81, POS.y)));
}

#[test]
fn a_tick_looks_at_the_next_ten_blocks() {
    let registry = registry();
    let mut beacon = BeaconBlockEntity::new(&registry, POS);
    let seen = std::cell::RefCell::new(Vec::new());
    let look = |p: BlockPos| {
        seen.borrow_mut().push(p.y);
        beacon_under_air(p)
    };
    let surface = POS.y + 14;
    beacon.tick(&world(1, surface), &look, &not_built);
    assert_eq!(seen.take(), (POS.y..POS.y + 10).collect::<Vec<i32>>());
    beacon.tick(&world(2, surface), &look, &not_built);
    assert_eq!(seen.take(), (POS.y + 10..=surface).collect::<Vec<i32>>());
    assert!(beacon.measures(&world(80, surface)));
    // The scan starts again at the beacon.
    beacon.tick(&world(3, surface), &look, &not_built);
    assert_eq!(seen.take(), (POS.y..POS.y + 10).collect::<Vec<i32>>());
}

#[test]
fn measuring_stops_at_the_first_gap() {
    let lowest = std::cell::Cell::new(i32::MAX);
    let first_two = |p: BlockPos| {
        lowest.set(lowest.get().min(p.y));
        p.y > POS.y - 3
    };
    assert_eq!(update_base(&first_two, POS, -64), 2);
    assert_eq!(lowest.get(), POS.y - 3);
}

#[test]
fn pyramids_near_the_lowest_height() {
    let low = BlockPos { y: i32::MIN + 3, ..POS };
    assert_eq!(update_base(&built, low, i32::MIN + 1), 2);
    assert_eq!(update_base(&built, low, i32::MIN), 3);
}

#[test]
fn saved_beacons_hold_each_tag_once() {
    let registry = registry();
    let mut beacon = BeaconBlockEntity::new(&registry, POS);
    beacon.set_property(DATA_PRIMARY, 1);
    let mut nbt = beacon.chunk_data_nbt().unwrap();
    let names: Vec<String> = nbt.child_tags.iter().map(|tag| tag.0.clone()).collect();
    beacon.write_nbt(&mut nbt);
    let again: Vec<String> = nbt.child_tags.iter().map(|tag| tag.0.clone()).collect();
    assert_eq!(again, names);
    assert_eq!(names, ["primary_effect", "Levels"]);
}
