//! What the operations of a beacon menu do, told by slots, stacks and registry ids.
use vstd::prelude::*;

use crate::beacon::{BeaconBlockEntity, BeaconView, CRITERION};
use crate::effect::StatusEffect;
use crate::laws::effects::lemma_first_by_id;
use crate::property::PropertyDelegate;
use crate::screen::{
    create_beacon_handler, BeaconScreenHandler, InsertRange, Inserted, ItemStack, PaymentSlot,
    QuickMove, SlotRole, SourceSlot, WindowType,
};
use crate::servux::CHANNEL;
use crate::set_beacon::{
    CurrentScreen, JavaClient, SSetBeacon, SetBeaconOutcome, KICK_MESSAGE,
};

verus! {

/// A stack is empty if it has no items, or its items are air. The stack of an empty slot is so.
pub proof fn law_empty_stacks(stack: &ItemStack, empty: bool, fresh: ItemStack)
    requires
        call_ensures(ItemStack::is_empty, (stack,), empty),
        call_ensures(ItemStack::empty, (), fresh),
    ensures
        empty <==> stack.item_count == 0 || stack.item.id == 0,
        fresh.item_count == 0 && fresh.item.id == 0 && !fresh.item.beacon_payment
            && fresh.item.components == 0,
{
}

/// The payment slot takes one item, of the kind that a beacon takes; it is the first slot of its
/// inventory, and of its number the low eight bits are kept.
pub proof fn law_payment_slot(
    slot: &PaymentSlot,
    numbered: &mut PaymentSlot,
    stack: &ItemStack,
    id: usize,
    index: usize,
    accepted: bool,
    count: u8,
)
    requires
        call_ensures(PaymentSlot::get_index, (slot,), index),
        call_ensures(PaymentSlot::can_insert, (slot, stack), accepted),
        call_ensures(PaymentSlot::get_max_item_count, (slot,), count),
        call_ensures(PaymentSlot::set_id, (numbered, id), ()),
    ensures
        index == 0,
        accepted <==> stack.item.beacon_payment,
        count == 1,
        final(numbered).id == id % 256,
{
}

/// A menu opens with an empty payment slot, then 27 slots of the main inventory and nine of the
/// hotbar, and with the three properties of the beacon.
pub proof fn law_opened_menus<D: PropertyDelegate>(
    sync_id: u8,
    beacon_data: D,
    menu: BeaconScreenHandler<D>,
    i: int,
)
    requires
        call_ensures(create_beacon_handler::<D>, (sync_id, beacon_data), menu),
    ensures
        menu.beacon_data == beacon_data,
        menu.sync_id == sync_id,
        menu.window_type == WindowType::Beacon,
        menu.payment.item_count == 0 && menu.payment.item.id == 0,
        menu.payment_slot.id == 0,
        menu.slots@.len() == 37,
        menu.slots@[0] == SlotRole::Payment,
        1 <= i < 28 ==> menu.slots@[i] == SlotRole::Inventory,
        28 <= i < 37 ==> menu.slots@[i] == SlotRole::Hotbar,
        menu.properties@ == seq![0u8, 1u8, 2u8],
{
    assert(menu.properties@ =~= seq![0u8, 1u8, 2u8]);
}

/// The level of a menu is property 0 of its beacon. There is a payment if its slot is not empty.
pub proof fn law_menus_tell_level_and_payment<D: PropertyDelegate>(
    menu: &BeaconScreenHandler<D>,
    levels: i32,
    paid: bool,
)
    requires
        call_ensures(BeaconScreenHandler::get_levels, (menu,), levels),
        call_ensures(BeaconScreenHandler::has_payment, (menu,), paid),
    ensures
        levels == D::property_of(menu.beacon_data.state(), 0),
        paid <==> menu.payment.item_count != 0 && menu.payment.item.id != 0,
{
}

/// A request is granted if and only if there is a payment and the effects are valid for the present
/// level: the primary effect is none or one of the first three tiers that the level allows; the
/// secondary effect is none or, at level four, regeneration or the primary effect again. Nothing
/// else decides, such as the effects that the beacon has. A request that is granted stores both
/// effects, the primary one first, and takes one item; one that is not changes nothing.
pub proof fn law_payment_and_validity_decide<D: PropertyDelegate>(
    menu: &mut BeaconScreenHandler<D>,
    primary: Option<&StatusEffect>,
    secondary: Option<&StatusEffect>,
    updated: bool,
)
    requires
        call_ensures(BeaconScreenHandler::update_effects, (menu, primary, secondary), updated),
    ensures
        ({
            let levels = D::property_of(old(menu).beacon_data.state(), 0);
            updated <==> {
                &&& old(menu).payment.item_count != 0 && old(menu).payment.item.id != 0
                &&& levels >= 0
                &&& match primary {
                    None => true,
                    Some(e) => {
                        ||| (e.id == 0 || e.id == 2) && levels >= 1
                        ||| (e.id == 10 || e.id == 7) && levels >= 2
                        ||| e.id == 4 && levels >= 3
                    },
                }
                &&& match secondary {
                    None => true,
                    Some(second) => levels >= 4 && (second.id == 9 || match primary {
                        None => false,
                        Some(first) => first.id == second.id,
                    }),
                }
            }
        }),
        !updated ==> *final(menu) == *old(menu),
        updated ==> {
            let first: int = match primary {
                None => 0,
                Some(e) => e.id + 1,
            };
            let second: int = match secondary {
                None => 0,
                Some(e) => e.id + 1,
            };
            &&& final(menu).beacon_data.state() == D::with_property(
                D::with_property(old(menu).beacon_data.state(), 1, first as i32),
                2,
                second as i32,
            )
            &&& final(menu).payment.item == old(menu).payment.item
            &&& final(menu).payment.item_count == old(menu).payment.item_count - 1
            &&& final(menu).sync_id == old(menu).sync_id
            &&& final(menu).window_type == old(menu).window_type
            &&& final(menu).payment_slot == old(menu).payment_slot
            &&& final(menu).slots == old(menu).slots
            &&& final(menu).properties == old(menu).properties
        },
{
}

/// Two menus at the same level, both with a payment or both without, decide alike on a request,
/// whatever effects their beacons have.
pub proof fn law_present_effects_do_not_decide<D: PropertyDelegate>(
    menu: &mut BeaconScreenHandler<D>,
    other: &mut BeaconScreenHandler<D>,
    primary: Option<&StatusEffect>,
    secondary: Option<&StatusEffect>,
    updated: bool,
    other_updated: bool,
)
    requires
        call_ensures(BeaconScreenHandler::update_effects, (menu, primary, secondary), updated),
        call_ensures(
            BeaconScreenHandler::update_effects,
            (other, primary, secondary),
            other_updated,
        ),
        D::property_of(old(menu).beacon_data.state(), 0) == D::property_of(
            old(other).beacon_data.state(),
            0,
        ),
        (old(menu).payment.item_count != 0 && old(menu).payment.item.id != 0) == (old(
            other,
        ).payment.item_count != 0 && old(other).payment.item.id != 0),
    ensures
        updated == other_updated,
{
}

/// A request that is granted replaces the effects of the beacon by the ones asked for, whatever
/// they were; nothing else about the beacon changes, but that it has to be saved and, if it is lit,
/// heard.
pub proof fn law_granted_effects_replace_the_present<'a>(
    menu: &mut BeaconScreenHandler<BeaconBlockEntity<'a>>,
    primary: Option<&StatusEffect>,
    secondary: Option<&StatusEffect>,
    updated: bool,
)
    requires
        call_ensures(
            BeaconScreenHandler::<BeaconBlockEntity<'a>>::update_effects,
            (menu, primary, secondary),
            updated,
        ),
        updated,
        primary matches Some(e) ==> old(menu).beacon_data@.registry.contains(*e),
        secondary matches Some(e) ==> old(menu).beacon_data@.registry.contains(*e),
    ensures
        ({
            let before = old(menu).beacon_data@;
            let after = final(menu).beacon_data@;
            &&& after.primary_effect == match primary {
                None => 0,
                Some(e) => e.id + 1,
            }
            &&& after.secondary_effect == match secondary {
                None => 0,
                Some(e) => e.id + 1,
            }
            &&& after == (BeaconView {
                primary_effect: after.primary_effect,
                secondary_effect: after.secondary_effect,
                dirty: true,
                play_select_sound: before.play_select_sound || before.beam_active,
                ..before
            })
        }),
{
    let registry = old(menu).beacon_data@.registry;
    lemma_first_by_id(registry, -1);
    if let Some(e) = primary {
        lemma_first_by_id(registry, e.id as int);
    }
    if let Some(e) = secondary {
        lemma_first_by_id(registry, e.id as int);
    }
}

/// Closing a menu gives the payment back, if there is any, and leaves the slot empty; nothing else
/// changes.
pub proof fn law_closing_gives_the_payment_back<D: PropertyDelegate>(
    menu: &mut BeaconScreenHandler<D>,
    dropped: Option<ItemStack>,
)
    requires
        call_ensures(BeaconScreenHandler::on_closed, (menu,), dropped),
    ensures
        old(menu).payment.item_count != 0 && old(menu).payment.item.id != 0 ==> dropped == Some(
            old(menu).payment,
        ),
        old(menu).payment.item_count == 0 || old(menu).payment.item.id == 0 ==> dropped is None,
        final(menu).payment.item_count == 0 && final(menu).payment.item.id == 0,
        !final(menu).payment.item.beacon_payment && final(menu).payment.item.components == 0,
        *final(menu) == (BeaconScreenHandler { payment: final(menu).payment, ..*old(menu) }),
{
}

/// Where a clicked stack goes, by its slot. The payment goes to any slot of the player, from the
/// last on. A single item that a beacon takes goes to the payment slot if that is empty. Any other
/// stack, whatever the item and its number, goes from the main inventory to the hotbar, and from
/// the hotbar to the main inventory, in forward order.
pub proof fn law_quick_moves_by_slot<D: PropertyDelegate>(
    menu: &BeaconScreenHandler<D>,
    slot_index: i32,
    stack: &ItemStack,
    range: InsertRange,
)
    requires
        call_ensures(BeaconScreenHandler::quick_move_range, (menu, slot_index, stack), range),
    ensures
        ({
            let free = menu.payment.item_count == 0 || menu.payment.item.id == 0;
            let pays = free && stack.item.beacon_payment && stack.item_count == 1;
            &&& slot_index == 0 ==> range.start == 1 && range.end == 37 && range.from_last
            &&& slot_index != 0 && pays ==> range.start == 0 && range.end == 1 && !range.from_last
            &&& 1 <= slot_index < 28 && !pays ==> range.start == 28 && range.end == 37
                && !range.from_last
            &&& 28 <= slot_index < 37 && !pays ==> range.start == 1 && range.end == 28
                && !range.from_last
            &&& (slot_index < 0 || slot_index >= 37) && !pays ==> range.start == 1 && range.end
                == 37 && !range.from_last
        }),
{
}

/// Two stacks of the player that are no payment go the same way from slots of the same kind.
pub proof fn law_items_do_not_decide_the_way<D: PropertyDelegate>(
    menu: &BeaconScreenHandler<D>,
    other: &BeaconScreenHandler<D>,
    slot_index: i32,
    other_index: i32,
    stack: &ItemStack,
    other_stack: &ItemStack,
    range: InsertRange,
    other_range: InsertRange,
)
    requires
        call_ensures(BeaconScreenHandler::quick_move_range, (menu, slot_index, stack), range),
        call_ensures(
            BeaconScreenHandler::quick_move_range,
            (other, other_index, other_stack),
            other_range,
        ),
        1 <= slot_index < 37 && 1 <= other_index < 37,
        slot_index < 28 <==> other_index < 28,
        !stack.item.beacon_payment || stack.item_count != 1,
        !other_stack.item.beacon_payment || other_stack.item_count != 1,
    ensures
        range == other_range,
{
}

/// What comes of a quick move, `inserted` being what inserting the clicked stack came to. If
/// nothing moved, the slot is left alone. If all moved, the slot is emptied; if a part did, it keeps
/// the rest. The stack as it was clicked is the result if its number changed; if not, the result is
/// empty and no player took anything.
pub proof fn law_outcomes_of_quick_moves<D: PropertyDelegate>(
    clicked: &ItemStack,
    inserted: &Inserted,
    outcome: QuickMove,
)
    requires
        call_ensures(
            BeaconScreenHandler::<D>::quick_move_outcome,
            (clicked, inserted),
            outcome,
        ),
    ensures
        ({
            let rest = inserted.remaining;
            let gone = rest.item_count == 0 || rest.item.id == 0;
            let changed = rest.item_count != clicked.item_count;
            &&& !inserted.moved ==> outcome.source == SourceSlot::Untouched && outcome.left
                == *clicked
            &&& inserted.moved && gone ==> outcome.source == SourceSlot::Emptied
                && outcome.left.item_count == 0 && outcome.left.item.id == 0
                && !outcome.left.item.beacon_payment && outcome.left.item.components == 0
            &&& inserted.moved && !gone ==> outcome.source == SourceSlot::MarkedDirty
                && outcome.left == (if changed {
                rest
            } else {
                *clicked
            })
            &&& inserted.moved && changed ==> outcome.taken == Some(rest) && outcome.result
                == *clicked
            &&& !(inserted.moved && changed) ==> outcome.taken is None && outcome.result.item_count
                == 0 && outcome.result.item.id == 0 && !outcome.result.item.beacon_payment
                && outcome.result.item.components == 0
        }),
{
}

/// What a quick move does to the payment slot and asks of the slots of the player. An empty slot is
/// left alone. A single item that a beacon takes becomes the payment if there is none, and its slot
/// is emptied. Any other stack is inserted into the slots where it goes: the payment into all
/// slots of the player from the last on, a stack of the main inventory into the hotbar, and one of
/// the hotbar into the main inventory. The payment changes only where it is the stack that was
/// clicked, and is then what was left of it.
pub proof fn law_quick_moves_go_where_they_belong<
    D: PropertyDelegate,
    F: FnOnce(ItemStack, InsertRange) -> Inserted,
>(
    menu: &mut BeaconScreenHandler<D>,
    slot_index: i32,
    stack: ItemStack,
    insert: F,
    outcome: QuickMove,
)
    requires
        call_ensures(
            BeaconScreenHandler::<D>::quick_move::<F>,
            (menu, slot_index, stack, insert),
            outcome,
        ),
        0 <= slot_index < 37,
        slot_index == 0 ==> stack == old(menu).payment,
    ensures
        ({
            let payment = old(menu).payment;
            let free = payment.item_count == 0 || payment.item.id == 0;
            let nothing = stack.item_count == 0 || stack.item.id == 0;
            let pays = slot_index != 0 && free && stack.item.beacon_payment && stack.item_count
                == 1;
            &&& nothing ==> {
                &&& outcome.source == SourceSlot::Untouched
                &&& outcome.left == stack
                &&& outcome.taken is None
                &&& outcome.result.item_count == 0 && outcome.result.item.id == 0
                &&& final(menu).payment == payment
            }
            &&& !nothing && pays ==> {
                &&& outcome.source == SourceSlot::Emptied
                &&& outcome.left.item_count == 0 && outcome.left.item.id == 0
                &&& outcome.taken matches Some(rest) && rest.item == stack.item && rest.item_count
                    == 0
                &&& outcome.result == stack
                &&& final(menu).payment == stack
            }
            &&& !nothing && !pays ==> {
                &&& exists|inserted: Inserted, range: InsertRange|
                    {
                        let gone = inserted.remaining.item_count == 0 || inserted.remaining.item.id
                            == 0;
                        let changed = inserted.remaining.item_count != stack.item_count;
                        &&& #[trigger] call_ensures(insert, (stack, range), inserted)
                        &&& slot_index == 0 ==> range.start == 1 && range.end == 37
                            && range.from_last
                        &&& 1 <= slot_index < 28 ==> range.start == 28 && range.end == 37
                            && !range.from_last
                        &&& 28 <= slot_index < 37 ==> range.start == 1 && range.end == 28
                            && !range.from_last
                        &&& !inserted.moved ==> outcome.source == SourceSlot::Untouched
                            && outcome.left == stack
                        &&& inserted.moved && gone ==> outcome.source == SourceSlot::Emptied
                            && outcome.left.item_count == 0 && outcome.left.item.id == 0
                        &&& inserted.moved && !gone ==> outcome.source == SourceSlot::MarkedDirty
                            && outcome.left == (if changed {
                            inserted.remaining
                        } else {
                            stack
                        })
                        &&& inserted.moved && changed ==> outcome.taken == Some(inserted.remaining)
                            && outcome.result == stack
                        &&& !(inserted.moved && changed) ==> outcome.taken is None
                            && outcome.result.item_count == 0 && outcome.result.item.id == 0
                    }
                &&& slot_index == 0 ==> final(menu).payment == outcome.left
                &&& slot_index != 0 ==> final(menu).payment == payment
            }
            &&& *final(menu) == (BeaconScreenHandler {
                payment: final(menu).payment,
                ..*old(menu)
            })
        }),
{
}

/// A quick move can be made of any slot that the menu has, with whatever inserts the clicked stack
/// into the slots where it goes.
pub proof fn law_quick_moves_ask_for_one_insertion<
    D: PropertyDelegate,
    F: FnOnce(ItemStack, InsertRange) -> Inserted,
>(menu: &mut BeaconScreenHandler<D>, slot_index: i32, stack: ItemStack, insert: F)
    requires
        0 <= slot_index < 37,
        old(menu).slots@.len() == 37,
        slot_index == 0 ==> stack == old(menu).payment,
        slot_index == 0 ==> call_requires(
            insert,
            (stack, InsertRange { start: 1, end: 37, from_last: true }),
        ),
        1 <= slot_index < 28 ==> call_requires(
            insert,
            (stack, InsertRange { start: 28, end: 37, from_last: false }),
        ),
        28 <= slot_index < 37 ==> call_requires(
            insert,
            (stack, InsertRange { start: 1, end: 28, from_last: false }),
        ),
    ensures
        call_requires(
            BeaconScreenHandler::<D>::quick_move::<F>,
            (menu, slot_index, stack, insert),
        ),
{
}

/// The words that are sent: the name of the channel, the criterion of the advancements, and the
/// message with which a client is disconnected.
pub proof fn law_words_on_the_wire()
    ensures
        CHANNEL@ == "servux:hud_metadata"@,
        CRITERION@ == "beacon"@,
        KICK_MESSAGE@ == "multiplayer.disconnect.generic"@,
{
}

/// What comes of a client's request. If an id that it names is registered for no effect, the client
/// is disconnected. Otherwise, if the client has no beacon menu open, nothing happens; if it has,
/// the request is granted if and only if there is a payment and the ids are valid for the level of
/// the beacon, and the client is disconnected if not. Nothing changes unless the request is
/// granted.
pub proof fn law_requests_are_granted_by_id<'a, D: PropertyDelegate>(
    client: &JavaClient<'a>,
    screen: &mut CurrentScreen<D>,
    packet: &SSetBeacon,
    outcome: SetBeaconOutcome,
)
    requires
        call_ensures(
            JavaClient::handle_set_beacon::<D>,
            (client, screen, packet),
            outcome,
        ),
    ensures
        ({
            let registry = client.registry@;
            let known = match packet.primary_effect {
                None => true,
                Some(id) => exists|i: int|
                    0 <= i < registry.len() && (#[trigger] registry[i]).id == id,
            } && match packet.secondary_effect {
                None => true,
                Some(id) => exists|i: int|
                    0 <= i < registry.len() && (#[trigger] registry[i]).id == id,
            };
            &&& outcome != SetBeaconOutcome::Updated ==> *final(screen) == *old(screen)
            &&& !known ==> outcome == SetBeaconOutcome::Kick
            &&& known ==> match *old(screen) {
                CurrentScreen::Other => outcome == SetBeaconOutcome::InvalidMenu,
                CurrentScreen::Beacon(menu) => {
                    let levels = D::property_of(menu.beacon_data.state(), 0);
                    let granted = {
                        &&& menu.payment.item_count != 0 && menu.payment.item.id != 0
                        &&& levels >= 0
                        &&& match packet.primary_effect {
                            None => true,
                            Some(id) => {
                                ||| (id == 0 || id == 2) && levels >= 1
                                ||| (id == 10 || id == 7) && levels >= 2
                                ||| id == 4 && levels >= 3
                            },
                        }
                        &&& match packet.secondary_effect {
                            None => true,
                            Some(id) => levels >= 4 && (id == 9 || packet.primary_effect == Some(
                                id,
                            )),
                        }
                    };
                    &&& granted ==> outcome == SetBeaconOutcome::Updated
                    &&& !granted ==> outcome == SetBeaconOutcome::Kick
                    &&& granted ==> {
                        let first: int = match packet.primary_effect {
                            None => 0,
                            Some(id) => id + 1,
                        };
                        let second: int = match packet.secondary_effect {
                            None => 0,
                            Some(id) => id + 1,
                        };
                        &&& *final(screen) matches CurrentScreen::Beacon(after)
                        &&& after.beacon_data.state() == D::with_property(
                            D::with_property(menu.beacon_data.state(), 1, first as i32),
                            2,
                            second as i32,
                        )
                        &&& after.payment.item == menu.payment.item
                        &&& after.payment.item_count == menu.payment.item_count - 1
                        &&& after == (BeaconScreenHandler {
                            payment: after.payment,
                            beacon_data: after.beacon_data,
                            ..menu
                        })
                    }
                },
            }
        }),
{
    if let Some(id) = packet.primary_effect {
        lemma_first_by_id(client.registry@, id as int);
    }
    if let Some(id) = packet.secondary_effect {
        lemma_first_by_id(client.registry@, id as int);
    }
}

} // verus!
