//! The beacon menu.
//!
//! Slot 0 is the payment slot (owned by the menu, returned to the player on close), slots 1..28
//! are the player's main inventory, 28..37 the hotbar. Three properties are tracked: power level,
//! primary effect, secondary effect.
use vstd::prelude::*;

use crate::effect::{effects_valid, encode_effect, encoded, validate_effects, StatusEffect};
use crate::property::{
    PropertyDelegate, DATA_LEVELS, DATA_PRIMARY, DATA_SECONDARY, NUM_DATA_VALUES,
};

verus! {

pub const PAYMENT_SLOT: i32 = 0;

pub const INV_SLOT_START: i32 = 1;

pub const INV_SLOT_END: i32 = 28;

pub const USE_ROW_SLOT_START: i32 = 28;

pub const USE_ROW_SLOT_END: i32 = 37;

/// Registry id of the item that stands for no item.
pub const AIR: u16 = 0;

/// An item: its registry id, whether a beacon takes it as payment, and a number that stands for
/// what else the server knows of it (its components; `0` for none).
#[derive(Debug, Clone, Copy, PartialEq, Eq, Structural)]
pub struct Item {
    pub id: u16,
    pub beacon_payment: bool,
    pub components: u64,
}

/// A number of equal items.
#[derive(Debug, Clone, Copy, PartialEq, Eq, Structural)]
pub struct ItemStack {
    pub item: Item,
    pub item_count: u8,
}

/// The stack of an empty slot.
pub open spec fn empty_stack() -> ItemStack {
    ItemStack { item: Item { id: AIR, beacon_payment: false, components: 0 }, item_count: 0 }
}

impl ItemStack {
    /// There is nothing in the stack.
    pub open spec fn nothing(self) -> bool {
        self.item_count == 0 || self.item.id == AIR
    }

    /// The number of items in the stack.
    pub open spec fn held(self) -> int {
        if self.nothing() {
            0
        } else {
            self.item_count as int
        }
    }

    /// The stack of an empty slot.
    pub fn empty() -> (stack: Self)
        ensures
            stack == empty_stack(),
            stack.nothing(),
    {
        ItemStack { item: Item { id: AIR, beacon_payment: false, components: 0 }, item_count: 0 }
    }

    /// Whether there is nothing in the stack.
    pub fn is_empty(&self) -> (empty: bool)
        ensures
            empty == self.nothing(),
    {
        self.item_count == 0 || self.item.id == AIR
    }
}

/// The payment slot: it accepts a single item of the kind a beacon takes as payment.
#[derive(Debug, Clone, Copy, PartialEq, Eq, Structural)]
pub struct PaymentSlot {
    pub id: u8,
}

impl PaymentSlot {
    /// The index of the slot in the inventory of the menu.
    pub fn get_index(&self) -> (index: usize)
        ensures
            index == 0,
    {
        0
    }

    /// Sets the number of the slot in the menu, of which the low eight bits are kept.
    pub fn set_id(&mut self, id: usize)
        ensures
            final(self).id == id % 256,
    {
        self.id = (id % 256) as u8;
    }

    /// Whether the slot accepts the stack.
    pub fn can_insert(&self, stack: &ItemStack) -> (accepted: bool)
        ensures
            accepted == stack.item.beacon_payment,
    {
        stack.item.beacon_payment
    }

    /// How many items the slot holds at most.
    pub fn get_max_item_count(&self) -> (count: u8)
        ensures
            count == 1,
    {
        1
    }
}

/// What a slot of the menu shows.
#[derive(Debug, Clone, Copy, PartialEq, Eq, Structural)]
pub enum SlotRole {
    Payment,
    Inventory,
    Hotbar,
}

/// The kind of window that the client opens.
#[derive(Debug, Clone, Copy, PartialEq, Eq, Structural)]
pub enum WindowType {
    Beacon,
}

/// A beacon menu opened on the block entity whose properties are `beacon_data`.
#[derive(Debug)]
pub struct BeaconScreenHandler<D: PropertyDelegate> {
    /// The stack in the payment slot, dropped back to the player on close.
    pub payment: ItemStack,
    /// The levels, primary and secondary effect of the beacon.
    pub beacon_data: D,
    pub sync_id: u8,
    pub window_type: WindowType,
    pub payment_slot: PaymentSlot,
    /// What the slots show, by slot number.
    pub slots: Vec<SlotRole>,
    /// The properties sent to the client, by property number.
    pub properties: Vec<u8>,
}

/// A range of slots that a stack may go to, `start` included and `end` not, and whether it is
/// tried from its last slot backwards.
#[derive(Debug, Clone, Copy, PartialEq, Eq, Structural)]
pub struct InsertRange {
    pub start: i32,
    pub end: i32,
    pub from_last: bool,
}

/// What came of trying to insert a stack into a range of slots.
#[derive(Debug, Clone, Copy, PartialEq, Eq, Structural)]
pub struct Inserted {
    /// Something went into the slots.
    pub moved: bool,
    /// What is left of the stack.
    pub remaining: ItemStack,
}

/// What happens to the slot from which a stack was moved.
#[derive(Debug, Clone, Copy, PartialEq, Eq, Structural)]
pub enum SourceSlot {
    Untouched,
    Emptied,
    MarkedDirty,
}

/// The outcome of a quick move.
#[derive(Debug, Clone, Copy, PartialEq, Eq, Structural)]
pub struct QuickMove {
    pub source: SourceSlot,
    /// The stack that the clicked slot holds now: what was not moved.
    pub left: ItemStack,
    /// The rest with which the slot is told that a player took from it.
    pub taken: Option<ItemStack>,
    /// The stack as it was clicked, or an empty stack if none of it was moved.
    pub result: ItemStack,
}

/// The role of slot `index`.
pub open spec fn slot_role(index: int) -> SlotRole {
    if index == PAYMENT_SLOT {
        SlotRole::Payment
    } else if index < INV_SLOT_END {
        SlotRole::Inventory
    } else {
        SlotRole::Hotbar
    }
}

/// Where a stack that was clicked in slot `slot_index` goes, `payment` being the stack in the
/// payment slot.
///
/// Payment goes back to the player, from the last slot on. A single item that a beacon takes goes
/// to the payment slot if that is free. Everything else changes between main inventory and hotbar.
pub open spec fn move_range(payment: ItemStack, slot_index: int, stack: ItemStack) -> InsertRange {
    if slot_index == PAYMENT_SLOT {
        InsertRange { start: INV_SLOT_START, end: USE_ROW_SLOT_END, from_last: true }
    } else if payment.nothing() && stack.item.beacon_payment && stack.item_count == 1 {
        InsertRange { start: PAYMENT_SLOT, end: (PAYMENT_SLOT + 1) as i32, from_last: false }
    } else if INV_SLOT_START <= slot_index < INV_SLOT_END {
        InsertRange { start: USE_ROW_SLOT_START, end: USE_ROW_SLOT_END, from_last: false }
    } else if USE_ROW_SLOT_START <= slot_index < USE_ROW_SLOT_END {
        InsertRange { start: INV_SLOT_START, end: INV_SLOT_END, from_last: false }
    } else {
        InsertRange { start: INV_SLOT_START, end: USE_ROW_SLOT_END, from_last: false }
    }
}

/// A quick move of which nothing came, `clicked` being the stack in the clicked slot.
pub open spec fn no_move(clicked: ItemStack) -> QuickMove {
    QuickMove {
        source: SourceSlot::Untouched,
        left: clicked,
        taken: None,
        result: empty_stack(),
    }
}

/// The outcome of moving `clicked` when inserting it came to `inserted`.
pub open spec fn move_outcome(clicked: ItemStack, inserted: Inserted) -> QuickMove {
    if !inserted.moved {
        no_move(clicked)
    } else {
        let emptied = inserted.remaining.nothing();
        let source = if emptied {
            SourceSlot::Emptied
        } else {
            SourceSlot::MarkedDirty
        };
        let same = inserted.remaining.item_count == clicked.item_count;
        QuickMove {
            source,
            left: if emptied {
                empty_stack()
            } else if same {
                clicked
            } else {
                inserted.remaining
            },
            taken: if same {
                None
            } else {
                Some(inserted.remaining)
            },
            result: if same {
                empty_stack()
            } else {
                clicked
            },
        }
    }
}

/// What inserting the single item `stack` into the free payment slot comes to: it is all moved.
pub open spec fn paid_in(stack: ItemStack) -> Inserted {
    Inserted { moved: true, remaining: ItemStack { item_count: 0, ..stack } }
}

/// The stack in the payment slot after `stack` was moved from slot `slot_index` with that outcome:
/// the rest, if it was the payment that was moved; the stack, if it was moved to the payment slot;
/// else the payment as it was.
pub open spec fn payment_after(
    payment: ItemStack,
    slot_index: int,
    stack: ItemStack,
    outcome: QuickMove,
) -> ItemStack {
    if stack.nothing() {
        payment
    } else if slot_index == PAYMENT_SLOT {
        outcome.left
    } else if move_range(payment, slot_index, stack).start == PAYMENT_SLOT {
        stack
    } else {
        payment
    }
}

/// Opens a beacon menu.
pub fn create_beacon_handler<D: PropertyDelegate>(sync_id: u8, beacon_data: D) -> (handler:
    BeaconScreenHandler<D>)
    ensures
        handler.opened(sync_id),
        handler.beacon_data == beacon_data,
{
    BeaconScreenHandler::new(sync_id, beacon_data)
}

impl<D: PropertyDelegate> BeaconScreenHandler<D> {
    /// The menu as it is opened: without payment, with all its slots and properties.
    pub open spec fn opened(&self, sync_id: u8) -> bool {
        &&& self.payment == empty_stack()
        &&& self.sync_id == sync_id
        &&& self.window_type == WindowType::Beacon
        &&& self.payment_slot.id == 0
        &&& self.slots@ == Seq::new(USE_ROW_SLOT_END as nat, |i: int| slot_role(i))
        &&& self.properties@ == Seq::new(NUM_DATA_VALUES as nat, |i: int| i as u8)
    }

    fn new(sync_id: u8, beacon_data: D) -> (handler: Self)
        ensures
            handler.opened(sync_id),
            handler.beacon_data == beacon_data,
    {
        let mut slots: Vec<SlotRole> = Vec::new();
        slots.push(SlotRole::Payment);
        while slots.len() < INV_SLOT_END as usize
            invariant
                1 <= slots@.len() <= INV_SLOT_END,
                forall|i: int| 0 <= i < slots@.len() ==> slots@[i] == slot_role(i),
            decreases INV_SLOT_END - slots@.len(),
        {
            slots.push(SlotRole::Inventory);
        }
        while slots.len() < USE_ROW_SLOT_END as usize
            invariant
                USE_ROW_SLOT_START <= slots@.len() <= USE_ROW_SLOT_END,
                forall|i: int| 0 <= i < slots@.len() ==> slots@[i] == slot_role(i),
            decreases USE_ROW_SLOT_END - slots@.len(),
        {
            slots.push(SlotRole::Hotbar);
        }
        assert(slots@ =~= Seq::new(USE_ROW_SLOT_END as nat, |i: int| slot_role(i)));
        let mut properties: Vec<u8> = Vec::new();
        let mut i: i32 = 0;
        while i < NUM_DATA_VALUES
            invariant
                0 <= i <= NUM_DATA_VALUES,
                properties@ == Seq::new(i as nat, |k: int| k as u8),
            decreases NUM_DATA_VALUES - i,
        {
            properties.push(i as u8);
            i += 1;
        }
        BeaconScreenHandler {
            payment: ItemStack::empty(),
            beacon_data,
            sync_id,
            window_type: WindowType::Beacon,
            payment_slot: PaymentSlot { id: 0 },
            slots,
            properties,
        }
    }

    /// The power level of the beacon.
    pub fn get_levels(&self) -> (levels: i32)
        ensures
            levels == D::property_of(self.beacon_data.state(), DATA_LEVELS as int),
    {
        self.beacon_data.get_property(DATA_LEVELS)
    }

    /// Whether there is a payment.
    pub fn has_payment(&self) -> (paid: bool)
        ensures
            paid == !self.payment.nothing(),
    {
        !self.payment.is_empty()
    }

    /// Whether a request for these effects is granted.
    pub open spec fn may_update(
        &self,
        primary: Option<&StatusEffect>,
        secondary: Option<&StatusEffect>,
    ) -> bool {
        !self.payment.nothing() && effects_valid(
            primary,
            secondary,
            D::property_of(self.beacon_data.state(), DATA_LEVELS as int) as int,
        )
    }

    /// The beacon after these effects were stored in it.
    pub open spec fn updated_data(
        &self,
        primary: Option<&StatusEffect>,
        secondary: Option<&StatusEffect>,
    ) -> D::State {
        D::with_property(
            D::with_property(
                self.beacon_data.state(),
                DATA_PRIMARY as int,
                encoded(primary) as i32,
            ),
            DATA_SECONDARY as int,
            encoded(secondary) as i32,
        )
    }

    /// Validates the effects against the current tier, stores them, and consumes one payment
    /// item. Returns `false`, and changes nothing, when the request is invalid.
    pub fn update_effects(
        &mut self,
        primary: Option<&StatusEffect>,
        secondary: Option<&StatusEffect>,
    ) -> (updated: bool)
        ensures
            updated == old(self).may_update(primary, secondary),
            !updated ==> *final(self) == *old(self),
            updated ==> {
                &&& final(self).beacon_data.state() == old(self).updated_data(primary, secondary)
                &&& final(self).payment.item == old(self).payment.item
                &&& final(self).payment.item_count == old(self).payment.item_count - 1
                &&& *final(self) == (BeaconScreenHandler {
                    payment: final(self).payment,
                    beacon_data: final(self).beacon_data,
                    ..*old(self)
                })
            },
    {
        if !self.has_payment() {
            return false;
        }
        if !validate_effects(primary, secondary, self.get_levels()) {
            return false;
        }
        self.beacon_data.set_property(DATA_PRIMARY, encode_effect(primary));
        self.beacon_data.set_property(DATA_SECONDARY, encode_effect(secondary));
        self.payment = ItemStack {
            item: self.payment.item,
            item_count: self.payment.item_count - 1,
        };
        true
    }

    /// Closes the menu. Returns the payment, if any, for the player to have back.
    pub fn on_closed(&mut self) -> (dropped: Option<ItemStack>)
        ensures
            dropped == (if old(self).payment.nothing() {
                None::<ItemStack>
            } else {
                Some(old(self).payment)
            }),
            *final(self) == (BeaconScreenHandler { payment: empty_stack(), ..*old(self) }),
    {
        let stack = self.payment;
        self.payment = ItemStack::empty();
        if !stack.is_empty() {
            Some(stack)
        } else {
            None
        }
    }

    /// Where `stack`, clicked in slot `slot_index`, is to go.
    pub fn quick_move_range(&self, slot_index: i32, stack: &ItemStack) -> (range: InsertRange)
        ensures
            range == move_range(self.payment, slot_index as int, *stack),
    {
        if slot_index == PAYMENT_SLOT {
            InsertRange { start: INV_SLOT_START, end: USE_ROW_SLOT_END, from_last: true }
        } else if self.payment.is_empty() && self.payment_slot.can_insert(stack)
            && stack.item_count == 1 {
            InsertRange { start: PAYMENT_SLOT, end: PAYMENT_SLOT + 1, from_last: false }
        } else if INV_SLOT_START <= slot_index && slot_index < INV_SLOT_END {
            InsertRange { start: USE_ROW_SLOT_START, end: USE_ROW_SLOT_END, from_last: false }
        } else if USE_ROW_SLOT_START <= slot_index && slot_index < USE_ROW_SLOT_END {
            InsertRange { start: INV_SLOT_START, end: INV_SLOT_END, from_last: false }
        } else {
            InsertRange { start: INV_SLOT_START, end: USE_ROW_SLOT_END, from_last: false }
        }
    }

    /// What follows when inserting `clicked` came to `inserted`.
    pub fn quick_move_outcome(clicked: &ItemStack, inserted: &Inserted) -> (outcome: QuickMove)
        ensures
            outcome == move_outcome(*clicked, *inserted),
    {
        if !inserted.moved {
            return QuickMove {
                source: SourceSlot::Untouched,
                left: *clicked,
                taken: None,
                result: ItemStack::empty(),
            };
        }
        let emptied = inserted.remaining.is_empty();
        let source = if emptied {
            SourceSlot::Emptied
        } else {
            SourceSlot::MarkedDirty
        };
        if inserted.remaining.item_count == clicked.item_count {
            return QuickMove {
                source,
                left: if emptied {
                    ItemStack::empty()
                } else {
                    *clicked
                },
                taken: None,
                result: ItemStack::empty(),
            };
        }
        QuickMove {
            source,
            left: if emptied {
                ItemStack::empty()
            } else {
                inserted.remaining
            },
            taken: Some(inserted.remaining),
            result: *clicked,
        }
    }

    /// Moves `stack`, the stack in slot `slot_index`, to where it belongs.
    ///
    /// The payment slot is the menu's own: a single item goes into it, and payment out of it, right
    /// here. `insert` puts a stack into a range of the player's slots as far as it fits. It is
    /// asked for nothing but to put the clicked stack into the range where it belongs, once, and
    /// for nothing at all where the slot is empty or the item is the payment. A clicked slot of the
    /// player is for the caller to set to what the outcome says is left in it.
    pub fn quick_move<F: FnOnce(ItemStack, InsertRange) -> Inserted>(
        &mut self,
        slot_index: i32,
        stack: ItemStack,
        insert: F,
    ) -> (outcome: QuickMove)
        requires
            0 <= slot_index < old(self).slots@.len(),
            slot_index == PAYMENT_SLOT ==> stack == old(self).payment,
            !stack.nothing() && move_range(old(self).payment, slot_index as int, stack).start
                != PAYMENT_SLOT ==> call_requires(
                insert,
                (stack, move_range(old(self).payment, slot_index as int, stack)),
            ),
        ensures
            ({
                let range = move_range(old(self).payment, slot_index as int, stack);
                if stack.nothing() {
                    outcome == no_move(stack)
                } else if range.start == PAYMENT_SLOT {
                    outcome == move_outcome(stack, paid_in(stack))
                } else {
                    exists|inserted: Inserted| #[trigger]
                        call_ensures(insert, (stack, range), inserted) && outcome == move_outcome(
                            stack,
                            inserted,
                        )
                }
            }),
            *final(self) == (BeaconScreenHandler {
                payment: payment_after(old(self).payment, slot_index as int, stack, outcome),
                ..*old(self)
            }),
    {
        if stack.is_empty() {
            return QuickMove {
                source: SourceSlot::Untouched,
                left: stack,
                taken: None,
                result: ItemStack::empty(),
            };
        }
        let range = self.quick_move_range(slot_index, &stack);
        if range.start == PAYMENT_SLOT {
            self.payment = stack;
            let inserted = Inserted {
                moved: true,
                remaining: ItemStack { item: stack.item, item_count: 0 },
            };
            return Self::quick_move_outcome(&stack, &inserted);
        }
        let inserted = insert(stack, range);
        let outcome = Self::quick_move_outcome(&stack, &inserted);
        if slot_index == PAYMENT_SLOT {
            self.payment = outcome.left;
        }
        outcome
    }
}

/// A quick move never targets the slot that was clicked, nor slots that the menu does not have.
pub proof fn law_quick_move_changes_slot(payment: ItemStack, slot_index: int, stack: ItemStack)
    requires
        0 <= slot_index < USE_ROW_SLOT_END,
    ensures
        ({
            let range = move_range(payment, slot_index, stack);
            &&& 0 <= range.start < range.end <= USE_ROW_SLOT_END
            &&& !(range.start <= slot_index < range.end)
        }),
{
}

/// A quick move reaches the payment slot only while that is free, and only with a single item
/// that a beacon takes.
pub proof fn law_quick_move_pays_with_one_item(payment: ItemStack, slot_index: int, stack: ItemStack)
    requires
        move_range(payment, slot_index, stack).start <= PAYMENT_SLOT,
    ensures
        payment.nothing(),
        stack.item.beacon_payment,
        stack.item_count == 1,
        move_range(payment, slot_index, stack).end == PAYMENT_SLOT + 1,
{
}

/// A quick move tells the player that the stack was moved if and only if it was, in whole or in
/// part; if nothing went anywhere the slot is left alone.
pub proof fn law_quick_move_reports_what_it_moved(clicked: ItemStack, inserted: Inserted)
    requires
        !clicked.nothing(),
    ensures
        ({
            let outcome = move_outcome(clicked, inserted);
            let went = inserted.moved && inserted.remaining.item_count != clicked.item_count;
            &&& outcome.result == (if went {
                clicked
            } else {
                empty_stack()
            })
            &&& outcome.taken is Some == went
            &&& outcome.source == SourceSlot::Untouched <==> !inserted.moved
        }),
{
}

/// A quick move neither makes nor loses items. What left the clicked slot is what went into the
/// range of slots, and is counted by the payment slot where that is the one or the other; any other
/// quick move leaves the payment as it is. If the player is told of no move, every slot is as it
/// was. Inserting takes items off the stack and adds none, and takes none where it moves nothing.
pub proof fn law_quick_move_keeps_items(
    payment: ItemStack,
    slot_index: int,
    clicked: ItemStack,
    inserted: Inserted,
)
    requires
        0 <= slot_index < USE_ROW_SLOT_END,
        slot_index == PAYMENT_SLOT ==> clicked == payment,
        !clicked.nothing(),
        inserted.remaining.item == clicked.item,
        inserted.remaining.item_count <= clicked.item_count,
        !inserted.moved ==> inserted.remaining == clicked,
        move_range(payment, slot_index, clicked).start == PAYMENT_SLOT ==> inserted == paid_in(
            clicked,
        ),
    ensures
        ({
            let outcome = move_outcome(clicked, inserted);
            let after = payment_after(payment, slot_index, clicked, outcome);
            let went = clicked.item_count - inserted.remaining.item_count;
            &&& outcome.left.held() + went == clicked.held()
            &&& outcome.left.nothing() || outcome.left.item == clicked.item
            &&& outcome.result.nothing() ==> went == 0 && outcome.left == clicked && after == payment
            &&& if slot_index == PAYMENT_SLOT {
                after == outcome.left && after.held() == payment.held() - went
            } else if move_range(payment, slot_index, clicked).start == PAYMENT_SLOT {
                after == clicked && after.held() == payment.held() + went
            } else {
                after == payment
            }
        }),
{
}

/// A single item that a beacon takes, clicked in a slot of the player while the payment slot is
/// free, ends in the payment slot, and its slot is empty. Any other stack clicked there leaves the
/// payment slot alone.
pub proof fn law_quick_move_pays(payment: ItemStack, slot_index: int, clicked: ItemStack, inserted: Inserted)
    requires
        INV_SLOT_START <= slot_index < USE_ROW_SLOT_END,
        !clicked.nothing(),
    ensures
        ({
            let pays = payment.nothing() && clicked.item.beacon_payment && clicked.item_count == 1;
            let outcome = move_outcome(
                clicked,
                if pays {
                    paid_in(clicked)
                } else {
                    inserted
                },
            );
            let after = payment_after(payment, slot_index, clicked, outcome);
            if pays {
                &&& move_range(payment, slot_index, clicked).start == PAYMENT_SLOT
                &&& after == clicked
                &&& !after.nothing()
                &&& outcome.left == empty_stack()
                &&& outcome.source == SourceSlot::Emptied
                &&& outcome.result == clicked
            } else {
                &&& move_range(payment, slot_index, clicked).start != PAYMENT_SLOT
                &&& after == payment
            }
        }),
{
}

/// A single payment item pays for one request: once it is consumed, no request is granted.
pub proof fn law_payment_is_for_one_request<D: PropertyDelegate>(
    before: BeaconScreenHandler<D>,
    after: BeaconScreenHandler<D>,
    primary: Option<&StatusEffect>,
    secondary: Option<&StatusEffect>,
)
    requires
        before.payment.item_count == 1,
        after.payment.item_count == before.payment.item_count - 1,
    ensures
        !after.may_update(primary, secondary),
{
}

} // verus!
