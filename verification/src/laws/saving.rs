//! What is stored in a beacon and in its saved form, told by properties and tags.
use vstd::prelude::*;

use crate::beacon::{BeaconBlockEntity, BeaconView, Sound};
use crate::effect::{distinct, law_decoding_round_trips, EffectRegistry};
use crate::laws::effects::{lemma_first_by_id, lemma_first_by_name};
use crate::laws::law_saving_round_trips;
use crate::nbt::{law_put_is_read, value_of, NbtCompound, NbtValue, Tags};
use crate::property::PropertyDelegate;
use crate::world::BlockPos;

verus! {

/// A beacon that was just placed has no effect, layer, name or lock; it is not lit, needs no
/// saving, has nothing to be heard, and its scan starts at the beacon itself.
pub proof fn law_new_beacon_is_blank<'a>(
    registry: &'a EffectRegistry,
    position: BlockPos,
    beacon: BeaconBlockEntity<'a>,
)
    requires
        call_ensures(BeaconBlockEntity::new, (registry, position), beacon),
        position.y > i32::MIN,
    ensures
        beacon@.registry == registry@,
        beacon@.position == position,
        beacon@.primary_effect == 0 && beacon@.secondary_effect == 0 && beacon@.levels == 0,
        !beacon@.dirty && !beacon@.beam_active && !beacon@.checking_beam_blocked,
        !beacon@.play_select_sound,
        beacon@.last_check_y == position.y - 1,
        beacon@.custom_name is None && beacon@.lock_key is None,
{
}

/// A beacon can be placed and loaded at any height that has one below it, whatever the compound.
pub proof fn law_beacons_can_stand_anywhere<'a>(
    registry: &'a EffectRegistry,
    nbt: &NbtCompound,
    position: BlockPos,
)
    requires
        position.y > i32::MIN,
    ensures
        call_requires(BeaconBlockEntity::new, (registry, position)),
        call_requires(BeaconBlockEntity::from_nbt, (registry, nbt, position)),
{
}

/// The number under which an effect of that name is stored is the id of the first registered
/// effect of the name, plus one, if it is one of the six that beacons grant.
pub proof fn law_loaded_effects_by_name<'a>(
    registry: &'a EffectRegistry,
    nbt: &NbtCompound,
    position: BlockPos,
    beacon: BeaconBlockEntity<'a>,
    i: int,
)
    requires
        call_ensures(BeaconBlockEntity::from_nbt, (registry, nbt, position), beacon),
        0 <= i < registry@.len(),
        forall|j: int|
            0 <= j < i ==> (#[trigger] registry@[j]).minecraft_name@
                != registry@[i].minecraft_name@,
    ensures
        ({
            let id = registry@[i].id;
            let number = if id == 0 || id == 2 || id == 4 || id == 7 || id == 9 || id == 10 {
                id + 1
            } else {
                0
            };
            let named = Some(NbtValue::String(registry@[i].minecraft_name@));
            &&& value_of(nbt@, "primary_effect"@) == named ==> beacon@.primary_effect == number
            &&& value_of(nbt@, "secondary_effect"@) == named ==> beacon@.secondary_effect == number
        }),
{
    lemma_first_by_name(registry@, registry@[i].minecraft_name@);
}

/// A compound that names no registered effect is read as one without the effect.
pub proof fn law_unknown_effects_are_dropped<'a>(
    registry: &'a EffectRegistry,
    nbt: &NbtCompound,
    position: BlockPos,
    beacon: BeaconBlockEntity<'a>,
)
    requires
        call_ensures(BeaconBlockEntity::from_nbt, (registry, nbt, position), beacon),
    ensures
        beacon@.primary_effect == 0 || exists|i: int|
            0 <= i < registry@.len() && value_of(nbt@, "primary_effect"@) == Some(
                NbtValue::String((#[trigger] registry@[i]).minecraft_name@),
            ),
        beacon@.secondary_effect == 0 || exists|i: int|
            0 <= i < registry@.len() && value_of(nbt@, "secondary_effect"@) == Some(
                NbtValue::String((#[trigger] registry@[i]).minecraft_name@),
            ),
{
    if let Some(NbtValue::String(name)) = value_of(nbt@, "primary_effect"@) {
        lemma_first_by_name(registry@, name);
    }
    if let Some(NbtValue::String(name)) = value_of(nbt@, "secondary_effect"@) {
        lemma_first_by_name(registry@, name);
    }
}

/// The layers, name and lock of a loaded beacon are those of the compound; what is not saved is as
/// in a beacon just placed.
pub proof fn law_loading_reads_the_tags<'a>(
    registry: &'a EffectRegistry,
    nbt: &NbtCompound,
    position: BlockPos,
    beacon: BeaconBlockEntity<'a>,
)
    requires
        call_ensures(BeaconBlockEntity::from_nbt, (registry, nbt, position), beacon),
        position.y > i32::MIN,
    ensures
        beacon@.levels == match value_of(nbt@, "Levels"@) {
            Some(NbtValue::Int(levels)) => levels,
            _ => 0,
        },
        beacon@.custom_name == match value_of(nbt@, "CustomName"@) {
            Some(NbtValue::String(name)) => Some(name),
            _ => None,
        },
        beacon@.lock_key == match value_of(nbt@, "Lock"@) {
            Some(NbtValue::String(lock)) => Some(lock),
            _ => None,
        },
        beacon@.registry == registry@,
        beacon@.position == position,
        !beacon@.dirty && !beacon@.beam_active && !beacon@.checking_beam_blocked,
        !beacon@.play_select_sound,
        beacon@.last_check_y == position.y - 1,
{
}

/// The tags that are written, as far as they have to be told apart.
proof fn lemma_saved_names()
    ensures
        "primary_effect"@.len() == 14,
        "secondary_effect"@.len() == 16,
        "Levels"@.len() == 6,
        "CustomName"@.len() == 10,
        "Lock"@.len() == 4,
{
    reveal_strlit("primary_effect");
    reveal_strlit("secondary_effect");
    reveal_strlit("Levels");
    reveal_strlit("CustomName");
    reveal_strlit("Lock");
}

/// Writing a beacon sets the tags for its layers and, if it has them, for its name, its lock and
/// the names of its effects. Every other tag reads as before, and no name comes to occur twice.
pub proof fn law_writing_sets_the_tags<'a>(
    beacon: &BeaconBlockEntity<'a>,
    nbt: &mut NbtCompound,
    other: Seq<char>,
)
    requires
        call_ensures(BeaconBlockEntity::write_nbt, (beacon, nbt), ()),
    ensures
        value_of(final(nbt)@, "Levels"@) == Some(NbtValue::Int(beacon@.levels)),
        value_of(final(nbt)@, "CustomName"@) == match beacon@.custom_name {
            Some(name) => Some(NbtValue::String(name)),
            None => value_of(old(nbt)@, "CustomName"@),
        },
        value_of(final(nbt)@, "Lock"@) == match beacon@.lock_key {
            Some(lock) => Some(NbtValue::String(lock)),
            None => value_of(old(nbt)@, "Lock"@),
        },
        forall|i: int|
            0 <= i < beacon@.registry.len() && (#[trigger] beacon@.registry[i]).id
                == beacon@.primary_effect - 1 && (forall|j: int|
                0 <= j < i ==> (#[trigger] beacon@.registry[j]).id != beacon@.primary_effect - 1)
                ==> value_of(final(nbt)@, "primary_effect"@) == Some(
                NbtValue::String(beacon@.registry[i].minecraft_name@),
            ),
        forall|i: int|
            0 <= i < beacon@.registry.len() && (#[trigger] beacon@.registry[i]).id
                == beacon@.secondary_effect - 1 && (forall|j: int|
                0 <= j < i ==> (#[trigger] beacon@.registry[j]).id != beacon@.secondary_effect - 1)
                ==> value_of(final(nbt)@, "secondary_effect"@) == Some(
                NbtValue::String(beacon@.registry[i].minecraft_name@),
            ),
        (forall|i: int|
            0 <= i < beacon@.registry.len() ==> (#[trigger] beacon@.registry[i]).id
                != beacon@.primary_effect - 1) ==> value_of(final(nbt)@, "primary_effect"@)
            == value_of(old(nbt)@, "primary_effect"@),
        (forall|i: int|
            0 <= i < beacon@.registry.len() ==> (#[trigger] beacon@.registry[i]).id
                != beacon@.secondary_effect - 1) ==> value_of(final(nbt)@, "secondary_effect"@)
            == value_of(old(nbt)@, "secondary_effect"@),
        other != "primary_effect"@ && other != "secondary_effect"@ && other != "Levels"@ && other
            != "CustomName"@ && other != "Lock"@ ==> value_of(final(nbt)@, other) == value_of(
            old(nbt)@,
            other,
        ),
        ({
            let before = old(nbt)@;
            let after = final(nbt)@;
            (forall|i: int, j: int|
                0 <= i < j < before.len() ==> (#[trigger] before[i]).0 != (#[trigger] before[j]).0)
                ==> forall|i: int, j: int|
                0 <= i < j < after.len() ==> (#[trigger] after[i]).0 != (#[trigger] after[j]).0
        }),
{
    lemma_saved_names();
    broadcast use law_put_is_read;

    lemma_first_by_id(beacon@.registry, beacon@.primary_effect - 1);
    lemma_first_by_id(beacon@.registry, beacon@.secondary_effect - 1);
}

/// The client is told what writing the beacon into a fresh compound gives.
pub proof fn law_chunk_data_is_what_is_written<'a>(
    beacon: &BeaconBlockEntity<'a>,
    nbt: &mut NbtCompound,
    sent: Option<NbtCompound>,
)
    requires
        call_ensures(BeaconBlockEntity::write_nbt, (beacon, nbt), ()),
        call_ensures(BeaconBlockEntity::chunk_data_nbt, (beacon,), sent),
        old(nbt).child_tags@.len() == 0,
    ensures
        sent matches Some(compound) && compound@ == final(nbt)@,
{
    assert(old(nbt)@ =~= Seq::empty());
}

/// What is written is read again: a beacon whose effects are registered, by distinct ids and
/// names, and granted by beacons, is loaded from its own chunk data as it was saved.
pub proof fn law_written_beacons_are_read<'a>(
    registry: &'a EffectRegistry,
    beacon: &BeaconBlockEntity<'a>,
    sent: Option<NbtCompound>,
    position: BlockPos,
    read: BeaconBlockEntity<'a>,
)
    requires
        call_ensures(BeaconBlockEntity::chunk_data_nbt, (beacon,), sent),
        sent is Some,
        call_ensures(BeaconBlockEntity::from_nbt, (registry, &sent->0, position), read),
        beacon@.registry == registry@,
        distinct(registry@),
        ({
            let number = beacon@.primary_effect;
            ||| number == 0
            ||| (number == 1 || number == 3 || number == 5 || number == 8 || number == 10 || number
                == 11) && exists|i: int|
                0 <= i < registry@.len() && (#[trigger] registry@[i]).id == number - 1
        }),
        ({
            let number = beacon@.secondary_effect;
            ||| number == 0
            ||| (number == 1 || number == 3 || number == 5 || number == 8 || number == 10 || number
                == 11) && exists|i: int|
                0 <= i < registry@.len() && (#[trigger] registry@[i]).id == number - 1
        }),
    ensures
        read@.primary_effect == beacon@.primary_effect,
        read@.secondary_effect == beacon@.secondary_effect,
        read@.levels == beacon@.levels,
        read@.custom_name == beacon@.custom_name,
        read@.lock_key == beacon@.lock_key,
{
    lemma_first_by_id(registry@, beacon@.primary_effect - 1);
    lemma_first_by_id(registry@, beacon@.secondary_effect - 1);
    law_decoding_round_trips(registry@, 0);
    law_saving_round_trips(beacon@, Tags::empty(), position);
}

/// Setting property 0 sets the layers. Setting property 1 or 2 sets the primary or the secondary
/// effect, to the number if it is that of a registered effect that beacons grant and to none if
/// not; a new primary effect is heard if the beacon is lit. The beacon then has to be saved. There
/// are no other properties, and nothing else changes.
pub proof fn law_setting_properties<'a>(beacon: &mut BeaconBlockEntity<'a>, index: i32, value: i32)
    requires
        call_ensures(
            <BeaconBlockEntity<'a> as PropertyDelegate>::set_property,
            (beacon, index, value),
            (),
        ),
    ensures
        ({
            let before = old(beacon)@;
            let registered = exists|i: int|
                0 <= i < before.registry.len() && (#[trigger] before.registry[i]).id == value - 1;
            let number = if registered && (value == 1 || value == 3 || value == 5 || value == 8
                || value == 10 || value == 11) {
                value
            } else {
                0
            };
            &&& index == 0 ==> final(beacon)@ == (BeaconView {
                levels: value,
                dirty: true,
                ..before
            })
            &&& index == 1 ==> final(beacon)@ == (BeaconView {
                primary_effect: number,
                play_select_sound: before.play_select_sound || before.beam_active,
                dirty: true,
                ..before
            })
            &&& index == 2 ==> final(beacon)@ == (BeaconView {
                secondary_effect: number,
                dirty: true,
                ..before
            })
            &&& index < 0 || index > 2 ==> final(beacon)@ == before
        }),
{
    lemma_first_by_id(old(beacon)@.registry, value - 1);
}

/// The properties of a beacon are, by number, its layers and its two effects.
pub proof fn law_reading_properties<'a>(
    beacon: &BeaconBlockEntity<'a>,
    index: i32,
    value: i32,
    size: i32,
)
    requires
        call_ensures(
            <BeaconBlockEntity<'a> as PropertyDelegate>::get_property,
            (beacon, index),
            value,
        ),
        call_ensures(
            <BeaconBlockEntity<'a> as PropertyDelegate>::get_properties_size,
            (beacon,),
            size,
        ),
    ensures
        size == 3,
        index == 0 ==> value == beacon@.levels,
        index == 1 ==> value == beacon@.primary_effect,
        index == 2 ==> value == beacon@.secondary_effect,
        index < 0 || index > 2 ==> value == 0,
{
}

/// What else there is to ask of a beacon: its resource name, where it stands, and whether it has
/// to be saved. Being saved changes nothing but that. Removing it is always heard.
pub proof fn law_beacons_tell_about_themselves<'a>(
    beacon: &BeaconBlockEntity<'a>,
    saved: &mut BeaconBlockEntity<'a>,
    id: &'static str,
    position: BlockPos,
    dirty: bool,
    sound: Sound,
)
    requires
        call_ensures(BeaconBlockEntity::resource_location, (beacon,), id),
        call_ensures(BeaconBlockEntity::get_position, (beacon,), position),
        call_ensures(BeaconBlockEntity::is_dirty, (beacon,), dirty),
        call_ensures(BeaconBlockEntity::on_block_replaced, (beacon,), sound),
        call_ensures(BeaconBlockEntity::clear_dirty, (saved,), ()),
    ensures
        id@ == "minecraft:beacon"@,
        position == beacon@.position,
        dirty == beacon@.dirty,
        sound == Sound::BlockBeaconDeactivate,
        final(saved)@ == (BeaconView { dirty: false, ..old(saved)@ }),
{
}

} // verus!
