//! What a tick makes of a beacon, told by the blocks of the world.
use vstd::prelude::*;

use crate::beacon::{
    construct_trigger, grant, scan_start, BeaconBlockEntity, BeaconView, Sound, TickAction,
};
use crate::beam::{above, scan_asks, ColumnScan};
use crate::laws::law_tick_follows_world;
use crate::laws::surroundings::{lemma_cut_in_window, lemma_whole_squares};
use crate::pyramid::{in_layer, layer_built, layers_from, measuring_asks, pyramid_levels};
use crate::world::{Block, BlockKind, BlockPos, BlockView, WorldInfo};

verus! {

/// The layers that are counted are the ones that are built.
proof fn lemma_counted_layers(base: spec_fn(BlockPos) -> bool, pos: BlockPos, min_y: int)
    ensures
        ({
            let levels = pyramid_levels(base, pos, min_y);
            &&& 0 <= levels <= 4
            &&& forall|step: int|
                1 <= step <= levels ==> #[trigger] layer_built(base, pos, min_y, step)
            &&& levels < 4 ==> !layer_built(base, pos, min_y, levels + 1)
        }),
{
    reveal_with_fuel(layers_from, 6);
}

/// At each tick whose number is a multiple of eighty, a lit beacon counts its layers anew, however
/// many it counted before: there are as many as there are whole squares of base blocks below it,
/// each one block lower and one block wider to each side than the one above it, that lie in the
/// world, but four at most. At any other tick, and while it is not lit, the count stays. The
/// beacon has to be saved if the count changed.
pub proof fn law_tick_counts_layers<'a, F: Fn(BlockPos) -> Block, G: Fn(BlockPos) -> bool>(
    beacon: &mut BeaconBlockEntity<'a>,
    world: &WorldInfo,
    block_at: &F,
    is_base: &G,
    blocks: spec_fn(BlockPos) -> BlockView,
    base: spec_fn(BlockPos) -> bool,
    actions: Vec<TickAction<'a>>,
)
    requires
        call_ensures(BeaconBlockEntity::tick::<F, G>, (beacon, world, block_at, is_base), actions),
        forall|p: BlockPos, block: Block| #[trigger]
            call_ensures(*block_at, (p,), block) ==> block@ == blocks(p),
        forall|p: BlockPos, built: bool| #[trigger]
            call_ensures(*is_base, (p,), built) ==> built == base(p),
    ensures
        ({
            let before = old(beacon)@;
            let levels = final(beacon)@.levels;
            let pos = before.position;
            if world.age % 80 == 0 && before.beam_active {
                &&& 0 <= levels <= 4
                &&& levels > 0 ==> pos.y - levels >= world.min_y
                &&& forall|p: BlockPos|
                    pos.y - levels <= p.y < pos.y && p.y - pos.y <= p.x - pos.x <= pos.y - p.y
                        && p.y - pos.y <= p.z - pos.z <= pos.y - p.y ==> #[trigger] base(p)
                &&& levels < 4 ==> pos.y - (levels + 1) < world.min_y || exists|p: BlockPos|
                    p.y == pos.y - (levels + 1) && -(levels + 1) <= p.x - pos.x <= levels + 1
                        && -(levels + 1) <= p.z - pos.z <= levels + 1 && !(#[trigger] base(p))
            } else {
                levels == before.levels
            }
        }),
        final(beacon)@.dirty <==> old(beacon)@.dirty || final(beacon)@.levels != old(
            beacon,
        )@.levels,
{
    let pos = old(beacon)@.position;
    law_tick_follows_world(
        old(beacon)@,
        *world,
        *block_at,
        *is_base,
        blocks,
        base,
        final(beacon)@,
        actions@,
    );
    lemma_counted_layers(base, pos, world.min_y as int);
    lemma_whole_squares(
        base,
        pos,
        world.min_y as int,
        pyramid_levels(base, pos, world.min_y as int),
    );
}

/// Two lit beacons in one place count the same layers at a pulse, whatever each counted before and
/// whatever else is different about them.
pub proof fn law_count_forgets_the_past<'a, F: Fn(BlockPos) -> Block, G: Fn(BlockPos) -> bool>(
    beacon: &mut BeaconBlockEntity<'a>,
    other: &mut BeaconBlockEntity<'a>,
    world: &WorldInfo,
    block_at: &F,
    is_base: &G,
    blocks: spec_fn(BlockPos) -> BlockView,
    base: spec_fn(BlockPos) -> bool,
    actions: Vec<TickAction<'a>>,
    other_actions: Vec<TickAction<'a>>,
)
    requires
        call_ensures(BeaconBlockEntity::tick::<F, G>, (beacon, world, block_at, is_base), actions),
        call_ensures(
            BeaconBlockEntity::tick::<F, G>,
            (other, world, block_at, is_base),
            other_actions,
        ),
        forall|p: BlockPos, block: Block| #[trigger]
            call_ensures(*block_at, (p,), block) ==> block@ == blocks(p),
        forall|p: BlockPos, built: bool| #[trigger]
            call_ensures(*is_base, (p,), built) ==> built == base(p),
        old(beacon)@.position == old(other)@.position,
        old(beacon)@.beam_active && old(other)@.beam_active,
        world.age % 80 == 0,
    ensures
        final(beacon)@.levels == final(other)@.levels,
{
    law_tick_follows_world(
        old(beacon)@,
        *world,
        *block_at,
        *is_base,
        blocks,
        base,
        final(beacon)@,
        actions@,
    );
    law_tick_follows_world(
        old(other)@,
        *world,
        *block_at,
        *is_base,
        blocks,
        base,
        final(other)@,
        other_actions@,
    );
}

/// What a tick makes of the beam. The scan goes on where it stopped, or starts at the beacon. It is
/// complete when it meets a block that cuts the beam or comes to the surface within ten blocks;
/// then the beam is on if and only if the scan met no such block, and the next scan starts anew.
/// Until then the beam is as it was, and the scan is ten blocks further up.
pub proof fn law_tick_scans_the_column<'a, F: Fn(BlockPos) -> Block, G: Fn(BlockPos) -> bool>(
    beacon: &mut BeaconBlockEntity<'a>,
    world: &WorldInfo,
    block_at: &F,
    is_base: &G,
    blocks: spec_fn(BlockPos) -> BlockView,
    base: spec_fn(BlockPos) -> bool,
    actions: Vec<TickAction<'a>>,
)
    requires
        call_ensures(BeaconBlockEntity::tick::<F, G>, (beacon, world, block_at, is_base), actions),
        forall|p: BlockPos, block: Block| #[trigger]
            call_ensures(*block_at, (p,), block) ==> block@ == blocks(p),
        forall|p: BlockPos, built: bool| #[trigger]
            call_ensures(*is_base, (p,), built) ==> built == base(p),
        world.min_y > i32::MIN,
    ensures
        ({
            let before = old(beacon)@;
            let after = final(beacon)@;
            let pos = before.position;
            let resumed = before.last_check_y >= pos.y;
            let start = if resumed {
                before.last_check_y as int
            } else {
                pos.y - 1
            };
            let cut = exists|p: BlockPos|
                {
                    &&& p.x == pos.x && p.z == pos.z
                    &&& start < p.y <= start + 10 && p.y <= world.surface_y
                    &&& (#[trigger] blocks(p)).kind != BlockKind::Beacon
                    &&& !"_stained_glass"@.is_suffix_of(blocks(p).name)
                    &&& !"_stained_glass_pane"@.is_suffix_of(blocks(p).name)
                    &&& p.y == pos.y || (blocks(p).opacity >= 15 && blocks(p).kind
                        != BlockKind::Bedrock)
                };
            let blocked = cut || (resumed && before.checking_beam_blocked);
            &&& after.checking_beam_blocked == blocked
            &&& cut || start + 10 >= world.surface_y ==> after.beam_active == !blocked
                && after.last_check_y == world.min_y - 1
            &&& !(cut || start + 10 >= world.surface_y) ==> after.beam_active
                == before.beam_active && after.last_check_y == start + 10
        }),
{
    law_tick_follows_world(
        old(beacon)@,
        *world,
        *block_at,
        *is_base,
        blocks,
        base,
        final(beacon)@,
        actions@,
    );
    lemma_cut_in_window(
        blocks,
        old(beacon)@.position,
        scan_start(old(beacon)@),
        world.surface_y as int,
    );
}

/// A tick changes nothing about a beacon but its layers, its beam, and that it has to be saved; a
/// selection is then no longer waiting to be heard.
pub proof fn law_tick_leaves_the_rest<'a, F: Fn(BlockPos) -> Block, G: Fn(BlockPos) -> bool>(
    beacon: &mut BeaconBlockEntity<'a>,
    world: &WorldInfo,
    block_at: &F,
    is_base: &G,
    actions: Vec<TickAction<'a>>,
)
    requires
        call_ensures(BeaconBlockEntity::tick::<F, G>, (beacon, world, block_at, is_base), actions),
    ensures
        final(beacon)@ == (BeaconView {
            levels: final(beacon)@.levels,
            dirty: final(beacon)@.dirty,
            beam_active: final(beacon)@.beam_active,
            checking_beam_blocked: final(beacon)@.checking_beam_blocked,
            last_check_y: final(beacon)@.last_check_y,
            play_select_sound: false,
            ..old(beacon)@
        }),
{
}

/// What a tick has the world do, in order. At a pulse of a lit beacon that then has layers: give
/// what the layers call for, and play the ambient sound. At the end of a scan, if the beacon then
/// has layers and had none before: play the sound of activation and count the advancements; if it
/// had layers and then has none: play the sound of deactivation. If a selection is waiting to be
/// heard: play that sound.
pub proof fn law_tick_acts_in_order<'a, F: Fn(BlockPos) -> Block, G: Fn(BlockPos) -> bool>(
    beacon: &mut BeaconBlockEntity<'a>,
    world: &WorldInfo,
    block_at: &F,
    is_base: &G,
    blocks: spec_fn(BlockPos) -> BlockView,
    base: spec_fn(BlockPos) -> bool,
    actions: Vec<TickAction<'a>>,
)
    requires
        call_ensures(BeaconBlockEntity::tick::<F, G>, (beacon, world, block_at, is_base), actions),
        forall|p: BlockPos, block: Block| #[trigger]
            call_ensures(*block_at, (p,), block) ==> block@ == blocks(p),
        forall|p: BlockPos, built: bool| #[trigger]
            call_ensures(*is_base, (p,), built) ==> built == base(p),
    ensures
        ({
            let before = old(beacon)@;
            let levels = final(beacon)@.levels;
            let pos = before.position;
            let start = if before.last_check_y >= pos.y {
                before.last_check_y as int
            } else {
                pos.y - 1
            };
            let finished = start + 10 >= world.surface_y || exists|p: BlockPos|
                {
                    &&& p.x == pos.x && p.z == pos.z
                    &&& start < p.y <= start + 10 && p.y <= world.surface_y
                    &&& (#[trigger] blocks(p)).kind != BlockKind::Beacon
                    &&& !"_stained_glass"@.is_suffix_of(blocks(p).name)
                    &&& !"_stained_glass_pane"@.is_suffix_of(blocks(p).name)
                    &&& p.y == pos.y || (blocks(p).opacity >= 15 && blocks(p).kind
                        != BlockKind::Bedrock)
                };
            let given = grant::<'a>(before, world.height as int, levels as int);
            let pulse = world.age % 80 == 0 && before.beam_active && levels > 0;
            let lit = finished && before.levels <= 0 && levels > 0;
            let gone = finished && before.levels > 0 && levels <= 0;
            let n0 = if pulse && given is Some {
                1int
            } else {
                0
            };
            let n1 = n0 + if pulse {
                1int
            } else {
                0
            };
            let n2 = n1 + if lit {
                2int
            } else if gone {
                1
            } else {
                0
            };
            let n3 = n2 + if before.play_select_sound {
                1int
            } else {
                0
            };
            &&& actions@.len() == n3
            &&& pulse && given is Some ==> actions@[0] == TickAction::ApplyEffects(given->0)
            &&& pulse ==> actions@[n0] == TickAction::<'a>::PlaySound(Sound::BlockBeaconAmbient)
            &&& lit ==> actions@[n1] == TickAction::<'a>::PlaySound(Sound::BlockBeaconActivate)
                && actions@[n1 + 1] == TickAction::<'a>::ConstructBeacon(
                construct_trigger(pos, levels as int),
            )
            &&& gone ==> actions@[n1] == TickAction::<'a>::PlaySound(Sound::BlockBeaconDeactivate)
            &&& before.play_select_sound ==> actions@[n2] == TickAction::<'a>::PlaySound(
                Sound::BlockBeaconPowerSelect,
            )
        }),
{
    law_tick_follows_world(
        old(beacon)@,
        *world,
        *block_at,
        *is_base,
        blocks,
        base,
        final(beacon)@,
        actions@,
    );
    lemma_cut_in_window(
        blocks,
        old(beacon)@.position,
        scan_start(old(beacon)@),
        world.surface_y as int,
    );
}

/// What concluding a tick makes of a beacon, `scan` being what the scan of the tick came to and
/// `measured` the layers that were found. A lit beacon takes the layers over at each multiple of
/// eighty, more or fewer.
pub proof fn law_settling_takes_over_what_was_found<'a>(
    beacon: &mut BeaconBlockEntity<'a>,
    world: &WorldInfo,
    scan: ColumnScan,
    measured: i32,
    actions: Vec<TickAction<'a>>,
)
    requires
        call_ensures(BeaconBlockEntity::settle, (beacon, world, scan, measured), actions),
        world.min_y > i32::MIN,
    ensures
        ({
            let before = old(beacon)@;
            let after = final(beacon)@;
            let blocked = scan.cut || (before.last_check_y >= before.position.y
                && before.checking_beam_blocked);
            &&& world.age % 80 == 0 && before.beam_active ==> after.levels == measured
            &&& !(world.age % 80 == 0 && before.beam_active) ==> after.levels == before.levels
            &&& after.dirty <==> before.dirty || after.levels != before.levels
            &&& after.checking_beam_blocked == blocked
            &&& scan.last_check_y >= world.surface_y ==> after.beam_active == !blocked
                && after.last_check_y == world.min_y - 1
            &&& scan.last_check_y < world.surface_y ==> after.beam_active == before.beam_active
                && after.last_check_y == scan.last_check_y
            &&& !after.play_select_sound
            &&& after == (BeaconView {
                levels: after.levels,
                dirty: after.dirty,
                beam_active: after.beam_active,
                checking_beam_blocked: after.checking_beam_blocked,
                last_check_y: after.last_check_y,
                play_select_sound: after.play_select_sound,
                ..before
            })
        }),
{
}

/// What concluding a tick has the world do, in order.
pub proof fn law_settling_acts_in_order<'a>(
    beacon: &mut BeaconBlockEntity<'a>,
    world: &WorldInfo,
    scan: ColumnScan,
    measured: i32,
    actions: Vec<TickAction<'a>>,
)
    requires
        call_ensures(BeaconBlockEntity::settle, (beacon, world, scan, measured), actions),
    ensures
        ({
            let before = old(beacon)@;
            let levels = final(beacon)@.levels;
            let given = grant::<'a>(before, world.height as int, levels as int);
            let pulse = world.age % 80 == 0 && before.beam_active && levels > 0;
            let lit = scan.last_check_y >= world.surface_y && before.levels <= 0 && levels > 0;
            let gone = scan.last_check_y >= world.surface_y && before.levels > 0 && levels <= 0;
            actions@ == (if pulse && given is Some {
                seq![TickAction::ApplyEffects(given->0)]
            } else {
                seq![]
            }) + (if pulse {
                seq![TickAction::PlaySound(Sound::BlockBeaconAmbient)]
            } else {
                seq![]
            }) + (if lit {
                seq![
                    TickAction::PlaySound(Sound::BlockBeaconActivate),
                    TickAction::ConstructBeacon(construct_trigger(before.position, levels as int)),
                ]
            } else {
                seq![]
            }) + (if gone {
                seq![TickAction::PlaySound(Sound::BlockBeaconDeactivate)]
            } else {
                seq![]
            }) + (if before.play_select_sound {
                seq![TickAction::PlaySound(Sound::BlockBeaconPowerSelect)]
            } else {
                seq![]
            })
        }),
{
}

/// A tick can be concluded whatever the scan came to, and whatever number of layers, up to four, was
/// found.
pub proof fn law_any_finding_can_be_settled<'a>(
    beacon: &mut BeaconBlockEntity<'a>,
    world: &WorldInfo,
    scan: ColumnScan,
    measured: i32,
)
    requires
        world.min_y > i32::MIN,
        measured <= 4,
    ensures
        call_requires(BeaconBlockEntity::settle, (beacon, world, scan, measured)),
{
}

/// A tick measures the pyramid of a lit beacon at each multiple of eighty, and at no other time.
pub proof fn law_measuring_is_every_eighty_ticks<'a>(
    beacon: &BeaconBlockEntity<'a>,
    world: &WorldInfo,
    measures: bool,
)
    requires
        call_ensures(BeaconBlockEntity::measures, (beacon, world), measures),
    ensures
        measures <==> world.age % 80 == 0 && beacon@.beam_active,
{
}

/// A beacon can be ticked with whatever names the next ten blocks of its column and, when it
/// counts its layers, tells the base blocks of its pyramid.
pub proof fn law_ticks_need_column_and_pyramid<
    'a,
    F: Fn(BlockPos) -> Block,
    G: Fn(BlockPos) -> bool,
>(beacon: &mut BeaconBlockEntity<'a>, world: &WorldInfo, block_at: &F, is_base: &G)
    requires
        world.min_y > i32::MIN,
        forall|p: BlockPos|
            ({
                let pos = old(beacon)@.position;
                let start = if old(beacon)@.last_check_y >= pos.y {
                    old(beacon)@.last_check_y as int
                } else {
                    pos.y - 1
                };
                p.x == pos.x && p.z == pos.z && start < p.y <= start + 10 && p.y
                    <= world.surface_y
            }) ==> #[trigger] call_requires(*block_at, (p,)),
        world.age % 80 == 0 && old(beacon)@.beam_active ==> ({
            let pos = old(beacon)@.position;
            &&& i32::MIN <= pos.x - 4 && pos.x + 4 <= i32::MAX
            &&& i32::MIN <= pos.z - 4 && pos.z + 4 <= i32::MAX
            &&& forall|p: BlockPos|
                pos.y - 4 <= p.y < pos.y && p.y >= world.min_y && p.y - pos.y <= p.x - pos.x
                    <= pos.y - p.y && p.y - pos.y <= p.z - pos.z <= pos.y - p.y
                    ==> #[trigger] call_requires(*is_base, (p,))
        }),
    ensures
        call_requires(BeaconBlockEntity::tick::<F, G>, (beacon, world, block_at, is_base)),
{
    let before = old(beacon)@;
    assert forall|y: int| #[trigger]
        scan_asks(
            *block_at,
            before.position,
            scan_start(before),
            world.surface_y as int,
            y,
        ) implies call_requires(*block_at, (above(before.position, y),)) by {
        assert(above(before.position, y).y == y);
    }
    if world.age % 80 == 0 && before.beam_active {
        assert forall|step: int, cell: BlockPos| #[trigger]
            measuring_asks(
                *is_base,
                before.position,
                world.min_y as int,
                step,
                cell,
            ) implies call_requires(*is_base, (cell,)) by {
            assert(in_layer(before.position, step, cell));
        }
    }
}

} // verus!
