//! What holds of beacons from one operation to the next, and of each operation by itself.
pub mod channel;
pub mod compounds;
pub mod effects;
pub mod grants;
pub mod menus;
pub mod saving;
pub mod surroundings;
pub mod ticks;

use vstd::prelude::*;

use crate::beacon::{
    change_actions, counted_levels, effect_in, effect_name, grant, loaded, placed, property,
    property_set, pulse_actions, pulses, reach, saved, scan_start, select_actions, tick_actions,
    tick_reads, tick_result, ticked, BeaconBlockEntity, BeaconView, Sound, TickAction, PULSE_TICKS,
};
use crate::beam::{
    column_scan, cut_at, law_scan_follows_world, may_report, reports, scan_asks, scan_top,
    ColumnScan, BLOCKS_CHECK_PER_TICK,
};
use crate::effect::{
    decoded, distinct, effect_with_name, encoded, granted, law_decoding_round_trips,
    law_encoding_round_trips, law_names_round_trip, law_valid_primary, law_valid_secondary,
    lemma_found_by_id, lemma_found_by_name, StatusEffect,
};
use crate::nbt::{int_in, law_put_is_read, string_in, Tags};
use crate::property::{DATA_LEVELS, DATA_PRIMARY, DATA_SECONDARY, NUM_DATA_VALUES};
use crate::pyramid::{law_pyramid_follows_world, pyramid_levels, reports_base, MAX_LEVELS};
use crate::screen::BeaconScreenHandler;
use crate::set_beacon::{law_requests_name_registered_effects, requested, SSetBeacon};
use crate::world::{Block, BlockPos, BlockView, BoundingBox, WorldInfo};

verus! {

/// `value` is `0`, or the number of a registered effect that beacons grant.
pub open spec fn grantable(registry: Seq<StatusEffect>, value: i32) -> bool {
    value == encoded(granted(decoded(registry, value as int)))
}

/// Both effects of a beacon are such that it can grant them.
pub open spec fn effects_grantable(beacon: BeaconView) -> bool {
    grantable(beacon.registry, beacon.primary_effect) && grantable(
        beacon.registry,
        beacon.secondary_effect,
    )
}

/// Filtering a number leaves one that a beacon can grant.
proof fn lemma_filtered_is_grantable(registry: Seq<StatusEffect>, value: int)
    ensures
        ({
            let filtered = encoded(granted(decoded(registry, value)));
            &&& 0 <= filtered <= 0x1_0000
            &&& grantable(registry, filtered as i32)
        }),
{
    law_decoding_round_trips(registry, value);
    law_decoding_round_trips(registry, 0);
}

/// A beacon that was just placed or loaded holds no effect that it cannot grant.
pub proof fn law_new_beacon_is_grantable(
    registry: Seq<StatusEffect>,
    compound: Tags,
    position: BlockPos,
)
    ensures
        effects_grantable(placed(registry, position)),
        effects_grantable(loaded(registry, compound, position)),
{
    law_decoding_round_trips(registry, 0);
    lemma_loaded_is_grantable(registry, compound, "primary_effect"@);
    lemma_loaded_is_grantable(registry, compound, "secondary_effect"@);
}

/// Setting a property, whatever its value, gives a beacon no effect that it cannot grant.
pub proof fn law_properties_stay_grantable(beacon: BeaconView, index: int, value: i32)
    requires
        effects_grantable(beacon),
    ensures
        effects_grantable(property_set(beacon, index, value)),
{
    lemma_filtered_is_grantable(beacon.registry, value as int);
}

/// A tick changes nothing about a beacon but its layers and its beam.
pub proof fn law_tick_keeps_settings<
    'a,
    F: Fn(BlockPos) -> Block,
    G: Fn(BlockPos) -> bool,
>(
    beacon: BeaconView,
    world: WorldInfo,
    block_at: F,
    is_base: G,
    after: BeaconView,
    actions: Seq<TickAction<'a>>,
)
    requires
        tick_result(beacon, world, block_at, is_base, after, actions),
    ensures
        after.registry == beacon.registry,
        after.position == beacon.position,
        after.primary_effect == beacon.primary_effect,
        after.secondary_effect == beacon.secondary_effect,
        after.custom_name == beacon.custom_name,
        after.lock_key == beacon.lock_key,
        effects_grantable(beacon) ==> effects_grantable(after),
{
}

/// Setting a property and reading it again gives the level that was set, or the effect that was
/// set if a beacon can grant it and none if not; the other properties are as before. Setting a
/// property that there is none of changes nothing, not even whether the beacon has to be saved.
pub proof fn law_properties_round_trip(beacon: BeaconView, index: int, value: i32)
    ensures
        ({
            let after = property_set(beacon, index, value);
            &&& 0 <= index < NUM_DATA_VALUES ==> after.dirty
            &&& !(0 <= index < NUM_DATA_VALUES) ==> after == beacon
            &&& index == DATA_LEVELS ==> property(after, index) == value
            &&& index == DATA_PRIMARY || index == DATA_SECONDARY ==> property(after, index) == (
            if grantable(beacon.registry, value) {
                value
            } else {
                0
            })
            &&& forall|other: int|
                other != index ==> #[trigger] property(after, other) == property(beacon, other)
        }),
{
    lemma_filtered_is_grantable(beacon.registry, value as int);
    law_decoding_round_trips(beacon.registry, value as int);
    law_decoding_round_trips(beacon.registry, 0);
}

proof fn lemma_loaded_is_grantable(
    registry: Seq<StatusEffect>,
    compound: Tags,
    name: Seq<char>,
)
    ensures
        0 <= effect_in(registry, compound, name) <= 0x1_0000,
        grantable(registry, effect_in(registry, compound, name) as i32),
{
    law_decoding_round_trips(registry, 0);
    if let Some(text) = string_in(compound, name) {
        if let Some(effect) = effect_with_name(registry, text) {
            lemma_found_by_name(registry, text);
            lemma_found_by_id(registry, effect.id as int);
        }
    }
}

/// In a world whose blocks are given, a tick has one outcome.
pub proof fn law_tick_follows_world<
    'a,
    F: Fn(BlockPos) -> Block,
    G: Fn(BlockPos) -> bool,
>(
    beacon: BeaconView,
    world: WorldInfo,
    block_at: F,
    is_base: G,
    blocks: spec_fn(BlockPos) -> BlockView,
    base: spec_fn(BlockPos) -> bool,
    after: BeaconView,
    actions: Seq<TickAction<'a>>,
)
    requires
        tick_result(beacon, world, block_at, is_base, after, actions),
        reports(block_at, blocks),
        reports_base(is_base, base),
    ensures
        ({
            let scan = column_scan(
                blocks,
                beacon.position,
                scan_start(beacon),
                world.surface_y as int,
            );
            let levels = pyramid_levels(base, beacon.position, world.min_y as int) as i32;
            &&& after == ticked(beacon, world, scan, levels)
            &&& actions == tick_actions(beacon, world, scan, levels)
        }),
{
    let (scan, measured) = choose|scan: ColumnScan, measured: i32| #[trigger]
        tick_reads(beacon, world, block_at, is_base, scan, measured) && after == ticked(
            beacon,
            world,
            scan,
            measured,
        ) && actions == tick_actions(beacon, world, scan, measured);
    law_scan_follows_world(
        block_at,
        blocks,
        beacon.position,
        scan_start(beacon) as i32,
        world.surface_y,
        scan,
    );
    if pulses(world) && beacon.beam_active {
        law_pyramid_follows_world(
            is_base,
            base,
            beacon.position,
            world.min_y as int,
            measured as int,
        );
    }
}

/// A lit beacon counts from none to four layers at a pulse; at any other tick, and while it is
/// not lit, it keeps its count. It has to be saved when the count changed.
pub proof fn law_layers_are_counted_at_pulses<
    'a,
    F: Fn(BlockPos) -> Block,
    G: Fn(BlockPos) -> bool,
>(
    beacon: BeaconView,
    world: WorldInfo,
    block_at: F,
    is_base: G,
    after: BeaconView,
    actions: Seq<TickAction<'a>>,
)
    requires
        tick_result(beacon, world, block_at, is_base, after, actions),
    ensures
        pulses(world) && beacon.beam_active ==> 0 <= after.levels <= MAX_LEVELS,
        !(pulses(world) && beacon.beam_active) ==> after.levels == beacon.levels,
        after.dirty == (beacon.dirty || after.levels != beacon.levels),
{
}

/// Players receive effects only at a pulse of a lit beacon that has layers and a primary effect,
/// and then exactly those that its layers and effects call for.
pub proof fn law_effects_come_at_pulses<'a>(
    beacon: BeaconView,
    world: WorldInfo,
    scan: ColumnScan,
    measured: i32,
    i: int,
)
    requires
        0 <= i < tick_actions::<'a>(beacon, world, scan, measured).len(),
        tick_actions::<'a>(beacon, world, scan, measured)[i] is ApplyEffects,
    ensures
        i == 0,
        pulses(world),
        beacon.beam_active,
        counted_levels(beacon, world, measured) > 0,
        grant::<'a>(
            beacon,
            world.height as int,
            counted_levels(beacon, world, measured) as int,
        ) == Some(tick_actions::<'a>(beacon, world, scan, measured)[i]->ApplyEffects_0),
{
    let levels = counted_levels(beacon, world, measured);
    let finished = scan.last_check_y >= world.surface_y;
    let pulse = pulse_actions::<'a>(beacon, world, levels);
    let change = change_actions::<'a>(beacon, finished, levels);
    let select = select_actions::<'a>(beacon);
    if i >= pulse.len() + change.len() {
        assert(tick_actions::<'a>(beacon, world, scan, measured)[i] == select[i - pulse.len()
            - change.len()]);
    } else if i >= pulse.len() {
        assert(tick_actions::<'a>(beacon, world, scan, measured)[i] == change[i - pulse.len()]);
    } else {
        assert(tick_actions::<'a>(beacon, world, scan, measured)[i] == pulse[i]);
    }
}

/// Choosing a primary effect while the beam is up makes the next tick end with the selection
/// sound, and only that tick.
pub proof fn law_selection_is_heard_once<'a>(
    beacon: BeaconView,
    value: i32,
    world: WorldInfo,
    scan: ColumnScan,
    measured: i32,
)
    requires
        beacon.beam_active,
    ensures
        ({
            let chosen = property_set(beacon, DATA_PRIMARY as int, value);
            let actions = tick_actions::<'a>(chosen, world, scan, measured);
            &&& actions.len() > 0
            &&& actions.last() == TickAction::<'a>::PlaySound(Sound::BlockBeaconPowerSelect)
            &&& !ticked(chosen, world, scan, measured).play_select_sound
        }),
{
}

/// Nothing that `blocks` holds from the beacon up to height `top` cuts the beam.
pub open spec fn clear_up_to(
    blocks: spec_fn(BlockPos) -> BlockView,
    position: BlockPos,
    top: int,
) -> bool {
    forall|y: int| position.y <= y <= top ==> !#[trigger] cut_at(blocks, position, y)
}

/// What a scan in progress has found: the column is clear as far as it was checked.
pub open spec fn scan_sound(blocks: spec_fn(BlockPos) -> BlockView, beacon: BeaconView) -> bool {
    beacon.last_check_y >= beacon.position.y ==> {
        &&& !beacon.checking_beam_blocked
        &&& clear_up_to(blocks, beacon.position, beacon.last_check_y as int)
    }
}

/// Each tick either completes the scan or takes it exactly ten blocks further, still below the
/// surface. When the scan is complete, the beam is on if and only if the column is clear up to
/// the surface; until then the beam is as it was.
pub proof fn law_scan_decides_beam(
    blocks: spec_fn(BlockPos) -> BlockView,
    beacon: BeaconView,
    world: WorldInfo,
    measured: i32,
)
    requires
        scan_sound(blocks, beacon),
        i32::MIN < world.min_y <= beacon.position.y,
    ensures
        ({
            let scan = column_scan(
                blocks,
                beacon.position,
                scan_start(beacon),
                world.surface_y as int,
            );
            let after = ticked(beacon, world, scan, measured);
            &&& scan_sound(blocks, after)
            &&& if scan.last_check_y >= world.surface_y {
                &&& scan_start(after) == after.position.y - 1
                &&& after.beam_active == clear_up_to(
                    blocks,
                    beacon.position,
                    world.surface_y as int,
                )
            } else {
                &&& scan_start(after) == scan_start(beacon) + BLOCKS_CHECK_PER_TICK
                &&& after.last_check_y == scan_start(after)
                &&& after.last_check_y < world.surface_y
                &&& after.beam_active == beacon.beam_active
            }
        }),
{
    let start = scan_start(beacon);
    let surface = world.surface_y as int;
    let scan = column_scan(blocks, beacon.position, start, surface);
    if scan.cut {
        let y = choose|y: int|
            start < y <= scan_top(start, surface) && #[trigger] cut_at(blocks, beacon.position, y);
        assert(!clear_up_to(blocks, beacon.position, surface));
    } else {
        assert forall|y: int|
            beacon.position.y <= y <= scan_top(start, surface) implies !#[trigger] cut_at(
            blocks,
            beacon.position,
            y,
        ) by {
            if y > start {
                assert(start < y <= scan_top(start, surface));
            }
        }
    }
}

/// A tick asks for ten blocks of the column at most, from the beacon up to the surface: the ones
/// that follow on those that the scan has checked. In a column of `blocks` it asks for none above
/// the first that cuts the beam.
pub proof fn law_tick_asks_for_next_blocks<F: Fn(BlockPos) -> Block>(
    block_at: F,
    blocks: spec_fn(BlockPos) -> BlockView,
    beacon: BeaconView,
    world: WorldInfo,
    y: int,
    lower: int,
)
    requires
        reports(block_at, blocks),
        scan_asks(block_at, beacon.position, scan_start(beacon), world.surface_y as int, y),
    ensures
        beacon.position.y <= y <= world.surface_y,
        1 <= y - scan_start(beacon) <= BLOCKS_CHECK_PER_TICK,
        scan_start(beacon) < lower < y ==> !cut_at(blocks, beacon.position, lower),
{
    if scan_start(beacon) < lower < y {
        assert(may_report(block_at, beacon.position, lower, false));
    }
}

/// The state of the beam changes only when a scan is complete, after which the next starts at the
/// beacon; until then each tick goes on where the one before stopped, ten blocks up.
pub proof fn law_scan_goes_on<F: Fn(BlockPos) -> Block, G: Fn(BlockPos) -> bool>(
    beacon: BeaconView,
    world: WorldInfo,
    block_at: F,
    is_base: G,
    scan: ColumnScan,
    measured: i32,
)
    requires
        i32::MIN < world.min_y <= beacon.position.y,
        tick_reads(beacon, world, block_at, is_base, scan, measured),
    ensures
        ({
            let after = ticked(beacon, world, scan, measured);
            if scan.last_check_y >= world.surface_y {
                scan_start(after) == beacon.position.y - 1
            } else {
                &&& scan_start(after) == scan_start(beacon) + BLOCKS_CHECK_PER_TICK
                &&& after.beam_active == beacon.beam_active
            }
        }),
{
}

/// A beacon after `n` ticks. The column above it holds `blocks`; the `i`th tick finds the world as
/// `worlds(i)` and, if it has to measure the pyramid, `measured(i)` layers.
pub open spec fn after_ticks(
    blocks: spec_fn(BlockPos) -> BlockView,
    worlds: spec_fn(int) -> WorldInfo,
    measured: spec_fn(int) -> i32,
    beacon: BeaconView,
    n: nat,
) -> BeaconView
    decreases n,
{
    if n == 0 {
        beacon
    } else {
        let before = after_ticks(blocks, worlds, measured, beacon, (n - 1) as nat);
        let world = worlds(n - 1);
        ticked(
            before,
            world,
            column_scan(blocks, before.position, scan_start(before), world.surface_y as int),
            measured(n - 1),
        )
    }
}

/// In a column that stays the same, a beacon knows the state of its beam once it has had a tick for
/// each ten blocks that are left to the surface, and from then on: the beam is on if and only if the
/// column is clear.
pub proof fn law_beam_settles(
    blocks: spec_fn(BlockPos) -> BlockView,
    worlds: spec_fn(int) -> WorldInfo,
    measured: spec_fn(int) -> i32,
    beacon: BeaconView,
    surface_y: int,
    n: nat,
)
    requires
        scan_sound(blocks, beacon),
        forall|i: int| (#[trigger] worlds(i)).surface_y == surface_y,
        forall|i: int| i32::MIN < (#[trigger] worlds(i)).min_y <= beacon.position.y,
        n >= 1,
        n * BLOCKS_CHECK_PER_TICK >= surface_y - scan_start(beacon),
    ensures
        after_ticks(blocks, worlds, measured, beacon, n).beam_active == clear_up_to(
            blocks,
            beacon.position,
            surface_y,
        ),
{
    lemma_ticks_scan(blocks, worlds, measured, beacon, surface_y, n);
}

/// After `n` ticks the beam is settled, or the scan has checked ten blocks in each of them.
proof fn lemma_ticks_scan(
    blocks: spec_fn(BlockPos) -> BlockView,
    worlds: spec_fn(int) -> WorldInfo,
    measured: spec_fn(int) -> i32,
    beacon: BeaconView,
    surface_y: int,
    n: nat,
)
    requires
        scan_sound(blocks, beacon),
        forall|i: int| (#[trigger] worlds(i)).surface_y == surface_y,
        forall|i: int| i32::MIN < (#[trigger] worlds(i)).min_y <= beacon.position.y,
    ensures
        ({
            let after = after_ticks(blocks, worlds, measured, beacon, n);
            &&& after.position == beacon.position
            &&& scan_sound(blocks, after)
            &&& n > 0 ==> {
                ||| after.beam_active == clear_up_to(blocks, beacon.position, surface_y)
                ||| after.last_check_y == scan_start(beacon) + n * BLOCKS_CHECK_PER_TICK
                    && after.last_check_y < surface_y
            }
        }),
    decreases n,
{
    if n > 0 {
        let m = (n - 1) as nat;
        lemma_ticks_scan(blocks, worlds, measured, beacon, surface_y, m);
        let before = after_ticks(blocks, worlds, measured, beacon, m);
        assert(worlds(m as int).surface_y == surface_y);
        law_scan_decides_beam(blocks, before, worlds(m as int), measured(m as int));
    }
}

/// Reading what was written gives the beacon back: its effects, its layers, its name and its lock.
/// What is not saved is as in a beacon just placed. The compound may hold tags before, but none
/// that would be read for an effect, name or lock that the beacon does not have.
pub proof fn law_saving_round_trips(
    beacon: BeaconView,
    compound: Tags,
    position: BlockPos,
)
    requires
        distinct(beacon.registry),
        effects_grantable(beacon),
        beacon.primary_effect == 0 ==> effect_in(beacon.registry, compound, "primary_effect"@) == 0,
        beacon.secondary_effect == 0 ==> effect_in(beacon.registry, compound, "secondary_effect"@)
            == 0,
        beacon.custom_name is None ==> string_in(compound, "CustomName"@) is None,
        beacon.lock_key is None ==> string_in(compound, "Lock"@) is None,
    ensures
        loaded(beacon.registry, saved(beacon, compound), position) == (BeaconView {
            primary_effect: beacon.primary_effect,
            secondary_effect: beacon.secondary_effect,
            levels: beacon.levels,
            custom_name: beacon.custom_name,
            lock_key: beacon.lock_key,
            ..placed(beacon.registry, position)
        }),
{
    reveal_strlit("primary_effect");
    reveal_strlit("secondary_effect");
    reveal_strlit("Levels");
    reveal_strlit("CustomName");
    reveal_strlit("Lock");
    assert("primary_effect"@.len() == 14);
    assert("secondary_effect"@.len() == 16);
    assert("Levels"@.len() == 6);
    assert("CustomName"@.len() == 10);
    assert("Lock"@.len() == 4);
    broadcast use law_put_is_read;

    lemma_effect_name_round_trips(beacon.registry, beacon.primary_effect);
    lemma_effect_name_round_trips(beacon.registry, beacon.secondary_effect);
}

/// The effect whose name is written is the one that is found by that name.
proof fn lemma_effect_name_round_trips(registry: Seq<StatusEffect>, value: i32)
    requires
        distinct(registry),
        grantable(registry, value),
    ensures
        value != 0 ==> {
            &&& effect_name(registry, value) matches Some(name)
            &&& encoded(granted(effect_with_name(registry, name))) == value
        },
        value == 0 ==> effect_name(registry, value) is None,
{
    law_decoding_round_trips(registry, value as int);
    lemma_found_by_id(registry, value - 1);
    if let Some(effect) = decoded(registry, value as int) {
        law_names_round_trip(registry, effect);
    }
}

/// A request that is granted is stored: the beacon then has the effects that were asked for. The
/// other properties, and everything else about the beacon, are as before.
pub proof fn law_granted_request_is_stored<'a>(
    menu: BeaconScreenHandler<BeaconBlockEntity<'a>>,
    primary: Option<&StatusEffect>,
    secondary: Option<&StatusEffect>,
)
    requires
        distinct(menu.beacon_data@.registry),
        primary matches Some(effect) ==> menu.beacon_data@.registry.contains(*effect),
        secondary matches Some(effect) ==> menu.beacon_data@.registry.contains(*effect),
        menu.may_update(primary, secondary),
    ensures
        ({
            let beacon = menu.beacon_data@;
            let after = menu.updated_data(primary, secondary);
            &&& decoded(beacon.registry, after.primary_effect as int) == primary
            &&& decoded(beacon.registry, after.secondary_effect as int) == secondary
            &&& after == (BeaconView {
                primary_effect: encoded(primary) as i32,
                secondary_effect: encoded(secondary) as i32,
                dirty: true,
                play_select_sound: beacon.play_select_sound || beacon.beam_active,
                ..beacon
            })
        }),
{
    let registry = menu.beacon_data@.registry;
    let levels = menu.beacon_data@.levels as int;
    law_valid_primary(primary, secondary, levels);
    law_valid_secondary(primary, secondary, levels);
    law_decoding_round_trips(registry, 0);
    if let Some(effect) = primary {
        law_encoding_round_trips(registry, effect);
    }
    if let Some(effect) = secondary {
        law_encoding_round_trips(registry, effect);
    }
}

/// The property that stands for the effect with registry id `id`.
pub open spec fn property_for(id: Option<i32>) -> int {
    match id {
        None => 0,
        Some(id) => id + 1,
    }
}

/// A request of a client that is granted reads back: the properties of the beacon are the ids
/// that the client asked for, encoded.
pub proof fn law_granted_ids_read_back<'a>(
    menu: BeaconScreenHandler<BeaconBlockEntity<'a>>,
    packet: SSetBeacon,
    primary: Option<&StatusEffect>,
    secondary: Option<&StatusEffect>,
)
    requires
        distinct(menu.beacon_data@.registry),
        requested(menu.beacon_data@.registry, packet.primary_effect) == Ok::<
            Option<&StatusEffect>,
            (),
        >(primary),
        requested(menu.beacon_data@.registry, packet.secondary_effect) == Ok::<
            Option<&StatusEffect>,
            (),
        >(secondary),
        menu.may_update(primary, secondary),
    ensures
        property(menu.updated_data(primary, secondary), DATA_PRIMARY as int) == property_for(
            packet.primary_effect,
        ),
        property(menu.updated_data(primary, secondary), DATA_SECONDARY as int) == property_for(
            packet.secondary_effect,
        ),
        property(menu.updated_data(primary, secondary), DATA_LEVELS as int)
            == menu.beacon_data@.levels,
{
    if let Some(id) = packet.primary_effect {
        law_requests_name_registered_effects(menu.beacon_data@.registry, id);
    }
    if let Some(id) = packet.secondary_effect {
        law_requests_name_registered_effects(menu.beacon_data@.registry, id);
    }
    law_granted_request_is_stored(menu, primary, secondary);
}

/// The effects of a beacon that has layers last longer than the time from one pulse to the next.
pub proof fn law_effects_outlast_pulses<'a>(beacon: BeaconView, height: int, levels: int)
    requires
        1 <= levels <= MAX_LEVELS,
        grant::<'a>(beacon, height, levels) is Some,
    ensures
        grant::<'a>(beacon, height, levels)->0.primary.duration > PULSE_TICKS,
        grant::<'a>(beacon, height, levels)->0.secondary matches Some(effect) ==> effect.duration
            > PULSE_TICKS,
{
}

/// `inner` lies within `outer`.
pub open spec fn within(inner: BoundingBox, outer: BoundingBox) -> bool {
    &&& outer.min_x <= inner.min_x && inner.max_x <= outer.max_x
    &&& outer.min_y <= inner.min_y && inner.max_y <= outer.max_y
    &&& outer.min_z <= inner.min_z && inner.max_z <= outer.max_z
}

/// A taller pyramid reaches as far as a lower one and farther, and every beacon reaches ten blocks
/// to each side of itself.
pub proof fn law_reach_grows(position: BlockPos, height: i32, levels: int, more: int)
    requires
        0 <= levels <= more <= MAX_LEVELS,
        height >= 0,
    ensures
        within(reach(position, height as int, levels), reach(position, height as int, more)),
        reach(position, height as int, levels).min_x <= position.x - 10,
        reach(position, height as int, levels).max_x >= position.x + 1 + 10,
        reach(position, height as int, levels).min_y <= position.y - 10,
        reach(position, height as int, levels).max_y >= position.y + 1 + 10 + height,
        reach(position, height as int, levels).min_z <= position.z - 10,
        reach(position, height as int, levels).max_z >= position.z + 1 + 10,
{
}

} // verus!
