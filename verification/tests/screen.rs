use pumpkin::beacon::BeaconBlockEntity;
use pumpkin::effect::{EffectRegistry, StatusEffect, REGENERATION, SPEED, STRENGTH};
use pumpkin::property::{PropertyDelegate, DATA_LEVELS};
use pumpkin::screen::{
    create_beacon_handler, BeaconScreenHandler, InsertRange, Inserted, Item, ItemStack,
    PaymentSlot, QuickMove, SlotRole, SourceSlot, WindowType,
};
use pumpkin::set_beacon::{CurrentScreen, JavaClient, SSetBeacon, SetBeaconOutcome, KICK_MESSAGE};
use pumpkin::world::BlockPos;

const POS: BlockPos = BlockPos { x: 0, y: 64, z: 0 };

const EMERALD: Item = Item { id: 805, beacon_payment: true, components: 0 };

const DIRT: Item = Item { id: 28, beacon_payment: false, components: 0 };

fn registry() -> EffectRegistry {
    EffectRegistry::new(
        [
            (SPEED, "minecraft:speed"),
            (STRENGTH, "minecraft:strength"),
            (REGENERATION, "minecraft:regeneration"),
        ]
        .iter()
        .map(|(id, name)| StatusEffect { id: *id, minecraft_name: name.to_string() })
        .collect(),
    )
    .unwrap()
}

fn emeralds(item_count: u8) -> ItemStack {
    ItemStack { item: EMERALD, item_count }
}

fn dirt(item_count: u8) -> ItemStack {
    ItemStack { item: DIRT, item_count }
}

fn menu(
    registry: &EffectRegistry,
    levels: i32,
    payment: ItemStack,
) -> BeaconScreenHandler<BeaconBlockEntity<'_>> {
    let mut beacon = BeaconBlockEntity::new(registry, POS);
    beacon.set_property(DATA_LEVELS, levels);
    let mut menu = create_beacon_handler(7, beacon);
    menu.payment = payment;
    menu
}

#[test]
fn menu_opens_empty() {
    let registry = registry();
    let menu = create_beacon_handler(7, BeaconBlockEntity::new(&registry, POS));
    assert_eq!(menu.sync_id, 7);
    assert_eq!(menu.window_type, WindowType::Beacon);
    assert!(!menu.has_payment());
    assert_eq!(menu.get_levels(), 0);
    assert_eq!(menu.slots.len(), 37);
    assert_eq!(menu.slots[0], SlotRole::Payment);
    assert!(menu.slots[1..28].iter().all(|role| *role == SlotRole::Inventory));
    assert!(menu.slots[28..37].iter().all(|role| *role == SlotRole::Hotbar));
    assert_eq!(menu.properties, vec![0, 1, 2]);
}

#[test]
fn empty_stacks() {
    assert!(ItemStack::empty().is_empty());
    assert!(emeralds(0).is_empty());
    assert!(ItemStack { item: Item { id: 0, beacon_payment: false, components: 0 }, item_count: 3 }.is_empty());
    assert!(!emeralds(1).is_empty());
}

#[test]
fn payment_slot_takes_one_payment_item() {
    let mut slot = PaymentSlot { id: 0 };
    assert_eq!(slot.get_index(), 0);
    assert_eq!(slot.get_max_item_count(), 1);
    assert!(slot.can_insert(&emeralds(1)));
    assert!(!slot.can_insert(&dirt(1)));
    slot.set_id(260);
    assert_eq!(slot.id, 4);
}

#[test]
fn request_without_payment_is_refused() {
    let registry = registry();
    let mut menu = menu(&registry, 4, ItemStack::empty());
    assert!(!menu.update_effects(registry.from_id(SPEED), None));
    assert!(menu.beacon_data.primary_effect().is_none());
}

#[test]
fn invalid_request_is_refused() {
    let registry = registry();
    let mut menu = menu(&registry, 1, emeralds(1));
    assert!(!menu.update_effects(registry.from_id(STRENGTH), None));
    assert!(menu.has_payment());
    assert!(menu.beacon_data.primary_effect().is_none());
}

#[test]
fn granted_request_is_stored_and_paid() {
    let registry = registry();
    let mut menu = menu(&registry, 4, emeralds(1));
    assert_eq!(menu.get_levels(), 4);
    assert!(menu.update_effects(registry.from_id(SPEED), registry.from_id(REGENERATION)));
    assert_eq!(menu.beacon_data.primary_effect().map(|e| e.id), Some(SPEED));
    assert_eq!(menu.beacon_data.secondary_effect().map(|e| e.id), Some(REGENERATION));
    assert!(!menu.has_payment());
    assert!(!menu.update_effects(registry.from_id(SPEED), None));
}

#[test]
fn larger_payment_is_consumed_one_by_one() {
    let registry = registry();
    let mut menu = menu(&registry, 4, emeralds(3));
    assert!(menu.update_effects(registry.from_id(SPEED), None));
    assert_eq!(menu.payment, emeralds(2));
    assert!(menu.has_payment());
}

#[test]
fn payment_returns_on_close() {
    let registry = registry();
    let mut paid = menu(&registry, 4, emeralds(1));
    assert_eq!(paid.on_closed(), Some(emeralds(1)));
    assert_eq!(paid.payment, ItemStack::empty());
    assert_eq!(paid.on_closed(), None);
    let mut unpaid = menu(&registry, 4, emeralds(0));
    assert_eq!(unpaid.on_closed(), None);
    assert_eq!(unpaid.payment, ItemStack::empty());
}

#[test]
fn quick_move_targets() {
    let registry = registry();
    let free = menu(&registry, 0, ItemStack::empty());
    let paid = menu(&registry, 0, emeralds(1));
    let to_player = InsertRange { start: 1, end: 37, from_last: true };
    let to_payment = InsertRange { start: 0, end: 1, from_last: false };
    let to_hotbar = InsertRange { start: 28, end: 37, from_last: false };
    let to_inventory = InsertRange { start: 1, end: 28, from_last: false };
    let anywhere = InsertRange { start: 1, end: 37, from_last: false };
    assert_eq!(paid.quick_move_range(0, &emeralds(1)), to_player);
    assert_eq!(free.quick_move_range(5, &emeralds(1)), to_payment);
    assert_eq!(free.quick_move_range(30, &emeralds(1)), to_payment);
    assert_eq!(free.quick_move_range(5, &emeralds(2)), to_hotbar);
    assert_eq!(free.quick_move_range(5, &dirt(1)), to_hotbar);
    assert_eq!(paid.quick_move_range(1, &emeralds(1)), to_hotbar);
    assert_eq!(paid.quick_move_range(27, &emeralds(1)), to_hotbar);
    assert_eq!(paid.quick_move_range(28, &emeralds(1)), to_inventory);
    assert_eq!(paid.quick_move_range(36, &emeralds(1)), to_inventory);
    assert_eq!(paid.quick_move_range(37, &emeralds(1)), anywhere);
}

#[test]
fn quick_move_of_a_whole_stack() {
    let registry = registry();
    let mut menu = menu(&registry, 0, ItemStack::empty());
    let mut seen = None;
    let outcome = menu.quick_move(5, dirt(9), |stack, range| {
        seen = Some((stack, range));
        Inserted { moved: true, remaining: dirt(0) }
    });
    assert_eq!(
        outcome,
        QuickMove {
            source: SourceSlot::Emptied,
            left: ItemStack::empty(),
            taken: Some(dirt(0)),
            result: dirt(9),
        }
    );
    let to_hotbar = InsertRange { start: 28, end: 37, from_last: false };
    assert_eq!(seen, Some((dirt(9), to_hotbar)));
}

#[test]
fn quick_move_of_a_part() {
    let registry = registry();
    let mut menu = menu(&registry, 0, ItemStack::empty());
    let outcome =
        menu.quick_move(30, dirt(9), |_, _| Inserted { moved: true, remaining: dirt(4) });
    assert_eq!(
        outcome,
        QuickMove {
            source: SourceSlot::MarkedDirty,
            left: dirt(4),
            taken: Some(dirt(4)),
            result: dirt(9),
        }
    );
}

#[test]
fn quick_move_of_nothing() {
    let registry = registry();
    let mut menu = menu(&registry, 0, ItemStack::empty());
    let nothing = |left| QuickMove {
        source: SourceSlot::Untouched,
        left,
        taken: None,
        result: ItemStack::empty(),
    };
    // The slot is empty: nothing is inserted anywhere.
    let outcome = menu.quick_move(5, ItemStack::empty(), |_, _| panic!("inserted"));
    assert_eq!(outcome, nothing(ItemStack::empty()));
    // The stack fits nowhere.
    let outcome =
        menu.quick_move(5, dirt(9), |stack, _| Inserted { moved: false, remaining: stack });
    assert_eq!(outcome, nothing(dirt(9)));
    // It is said to have moved, but is as large as before.
    let outcome =
        menu.quick_move(5, dirt(9), |stack, _| Inserted { moved: true, remaining: stack });
    assert_eq!(
        outcome,
        QuickMove {
            source: SourceSlot::MarkedDirty,
            left: dirt(9),
            taken: None,
            result: ItemStack::empty(),
        }
    );
}

fn packet(primary_effect: Option<i32>, secondary_effect: Option<i32>) -> SSetBeacon {
    SSetBeacon { primary_effect, secondary_effect }
}

#[test]
fn request_of_a_client_is_granted() {
    let registry = registry();
    let client = JavaClient { registry: &registry };
    let mut screen = CurrentScreen::Beacon(menu(&registry, 4, emeralds(1)));
    let outcome = client.handle_set_beacon(&mut screen, &packet(Some(0), Some(9)));
    assert_eq!(outcome, SetBeaconOutcome::Updated);
    match screen {
        CurrentScreen::Beacon(menu) => {
            assert_eq!(menu.beacon_data.primary_effect().map(|e| e.id), Some(SPEED));
            assert_eq!(menu.beacon_data.secondary_effect().map(|e| e.id), Some(REGENERATION));
            assert!(!menu.has_payment());
        }
        CurrentScreen::Other => panic!("menu is gone"),
    }
}

#[test]
fn client_may_ask_for_no_effect() {
    let registry = registry();
    let client = JavaClient { registry: &registry };
    let mut screen = CurrentScreen::Beacon(menu(&registry, 1, emeralds(1)));
    let outcome = client.handle_set_beacon(&mut screen, &packet(None, None));
    assert_eq!(outcome, SetBeaconOutcome::Updated);
}

#[test]
fn invalid_request_of_a_client_disconnects_it() {
    let registry = registry();
    let client = JavaClient { registry: &registry };
    for request in [
        // Not effects.
        packet(Some(-1), None),
        packet(Some(1), None),
        packet(Some(65_536), None),
        packet(Some(0), Some(-1)),
        // Not allowed.
        packet(Some(9), None),
        packet(Some(0), Some(4)),
    ] {
        let mut screen = CurrentScreen::Beacon(menu(&registry, 4, emeralds(1)));
        let outcome = client.handle_set_beacon(&mut screen, &request);
        assert_eq!(outcome, SetBeaconOutcome::Kick);
        match screen {
            CurrentScreen::Beacon(menu) => {
                assert!(menu.has_payment());
                assert!(menu.beacon_data.primary_effect().is_none());
            }
            CurrentScreen::Other => panic!("menu is gone"),
        }
    }
    let mut unpaid = CurrentScreen::Beacon(menu(&registry, 4, ItemStack::empty()));
    let outcome = client.handle_set_beacon(&mut unpaid, &packet(Some(0), None));
    assert_eq!(outcome, SetBeaconOutcome::Kick);
    assert_eq!(KICK_MESSAGE, "multiplayer.disconnect.generic");
}

#[test]
fn request_to_another_menu_is_dropped() {
    let registry = registry();
    let client = JavaClient { registry: &registry };
    let mut screen: CurrentScreen<BeaconBlockEntity> = CurrentScreen::Other;
    let outcome = client.handle_set_beacon(&mut screen, &packet(Some(0), None));
    assert_eq!(outcome, SetBeaconOutcome::InvalidMenu);
    // A malformed one is not.
    let outcome = client.handle_set_beacon(&mut screen, &packet(Some(1), None));
    assert_eq!(outcome, SetBeaconOutcome::Kick);
}

#[test]
fn quick_moves_change_the_slot() {
    let registry = registry();
    for payment in [ItemStack::empty(), emeralds(1)] {
        let menu = menu(&registry, 0, payment);
        for slot in 0..37 {
            for stack in [emeralds(1), emeralds(2), dirt(1)] {
                let range = menu.quick_move_range(slot, &stack);
                assert!(0 <= range.start && range.start < range.end && range.end <= 37);
                assert!(slot < range.start || slot >= range.end);
                if range.start == 0 {
                    assert_eq!((payment, stack), (ItemStack::empty(), emeralds(1)));
                }
            }
        }
    }
}

#[test]
fn quick_move_of_the_payment() {
    let registry = registry();
    let mut paid = menu(&registry, 0, emeralds(1));
    let outcome =
        paid.quick_move(0, emeralds(1), |stack, _| Inserted { moved: false, remaining: stack });
    assert_eq!(outcome.source, SourceSlot::Untouched);
    assert!(paid.has_payment());
    let outcome = paid.quick_move(0, emeralds(1), |_, range| {
        assert_eq!(range, InsertRange { start: 1, end: 37, from_last: true });
        Inserted { moved: true, remaining: emeralds(0) }
    });
    assert_eq!(outcome.source, SourceSlot::Emptied);
    assert_eq!(outcome.result, emeralds(1));
    assert_eq!(paid.payment, ItemStack::empty());
}

#[test]
fn quick_move_pays() {
    let registry = registry();
    for slot in [1, 5, 27, 28, 36] {
        let mut menu = menu(&registry, 4, ItemStack::empty());
        // The payment slot is the menu's own: nothing goes into slots of the player.
        let outcome = menu.quick_move(slot, emeralds(1), |_, _| panic!("inserted"));
        assert_eq!(
            outcome,
            QuickMove {
                source: SourceSlot::Emptied,
                left: ItemStack::empty(),
                taken: Some(emeralds(0)),
                result: emeralds(1),
            }
        );
        assert!(menu.has_payment());
        assert_eq!(menu.payment, emeralds(1));
        assert!(menu.update_effects(registry.from_id(SPEED), None));
        assert!(!menu.has_payment());
    }
}

#[test]
fn quick_move_leaves_the_payment_slot_alone() {
    let registry = registry();
    for (payment, stack) in [
        (emeralds(1), emeralds(1)),
        (ItemStack::empty(), emeralds(2)),
        (ItemStack::empty(), dirt(1)),
    ] {
        let mut menu = menu(&registry, 0, payment);
        let outcome = menu.quick_move(5, stack, |stack, range| {
            assert_eq!(range, InsertRange { start: 28, end: 37, from_last: false });
            Inserted { moved: true, remaining: ItemStack { item_count: 0, ..stack } }
        });
        assert_eq!(outcome.result, stack);
        assert_eq!(outcome.left, ItemStack::empty());
        assert_eq!(menu.payment, payment);
    }
}

#[test]
fn quick_move_of_a_part_of_the_payment() {
    let registry = registry();
    let mut menu = menu(&registry, 0, emeralds(2));
    let outcome =
        menu.quick_move(0, emeralds(2), |_, _| Inserted { moved: true, remaining: emeralds(1) });
    assert_eq!(outcome.source, SourceSlot::MarkedDirty);
    assert_eq!(outcome.left, emeralds(1));
    assert_eq!(outcome.result, emeralds(2));
    assert_eq!(menu.payment, emeralds(1));
}

#[test]
fn quick_moves_keep_items() {
    let registry = registry();
    for slot in [0, 5, 30] {
        for moved in 0..=9 {
            let payment = if slot == 0 { dirt(9) } else { emeralds(3) };
            let mut menu = menu(&registry, 0, payment);
            let outcome = menu.quick_move(slot, dirt(9), |_, _| Inserted {
                moved: moved > 0,
                remaining: dirt(9 - moved),
            });
            assert_eq!(outcome.left.item_count + moved, 9);
            let expected = if slot == 0 { outcome.left } else { payment };
            assert_eq!(menu.payment, expected);
        }
    }
}

#[test]
fn stacks_keep_their_components() {
    let registry = registry();
    let named = ItemStack {
        item: Item { components: 42, ..EMERALD },
        item_count: 1,
    };
    let mut menu = menu(&registry, 0, ItemStack::empty());
    menu.quick_move(5, named, |_, _| panic!("inserted"));
    assert_eq!(menu.on_closed(), Some(named));
}
