//! What a beacon finds above and below itself, told by the blocks of the world.
use vstd::prelude::*;

use crate::beam::{
    above, cut_at, law_scan_follows_world, scan_asks, scan_column, scan_top, ColumnScan,
};
use crate::pyramid::{
    fits, in_layer, layer_built, law_pyramid_follows_world, measuring_asks, update_base,
};
use crate::world::{is_beam_block, Block, BlockKind, BlockPos, BlockView};

verus! {

/// The beam takes its colour from beacons, stained glass and stained glass panes, whatever else is
/// known of the block.
pub proof fn law_beam_blocks_by_name(block: &Block, beam: bool)
    requires
        call_ensures(is_beam_block, (block,), beam),
    ensures
        beam <==> block.kind == BlockKind::Beacon || "_stained_glass"@.is_suffix_of(block.name@)
            || "_stained_glass_pane"@.is_suffix_of(block.name@),
{
}

/// A tick's scan of a column of `blocks` ends at the first of the next ten blocks, up to the
/// surface, that cuts the beam. Above the beacon that is any block of opacity 15 or more that is no
/// bedrock, beacon or stained glass, whatever its height; at the height of the beacon it is any
/// block but a beacon or stained glass. If there is such a block, the scan is cut and counts as at
/// the surface; if not, it has passed all of the ten.
pub proof fn law_scan_ends_at_opaque_blocks<F: Fn(BlockPos) -> Block>(
    block_at: &F,
    blocks: spec_fn(BlockPos) -> BlockView,
    pos: BlockPos,
    last_check_y: i32,
    surface_y: i32,
    scan: ColumnScan,
)
    requires
        call_ensures(scan_column::<F>, (block_at, pos, last_check_y, surface_y), scan),
        forall|p: BlockPos, block: Block| #[trigger]
            call_ensures(*block_at, (p,), block) ==> block@ == blocks(p),
    ensures
        scan.cut <==> exists|p: BlockPos|
            {
                &&& p.x == pos.x && p.z == pos.z
                &&& last_check_y < p.y <= last_check_y + 10 && p.y <= surface_y
                &&& (#[trigger] blocks(p)).kind != BlockKind::Beacon
                &&& !"_stained_glass"@.is_suffix_of(blocks(p).name)
                &&& !"_stained_glass_pane"@.is_suffix_of(blocks(p).name)
                &&& p.y == pos.y || (blocks(p).opacity >= 15 && blocks(p).kind
                    != BlockKind::Bedrock)
            },
        scan.cut ==> scan.last_check_y == surface_y,
        !scan.cut && last_check_y >= surface_y ==> scan.last_check_y == last_check_y,
        !scan.cut && last_check_y < surface_y <= last_check_y + 10 ==> scan.last_check_y
            == surface_y,
        !scan.cut && last_check_y + 10 < surface_y ==> scan.last_check_y == last_check_y + 10,
{
    law_scan_follows_world(*block_at, blocks, pos, last_check_y, surface_y, scan);
    lemma_cut_in_window(blocks, pos, last_check_y as int, surface_y as int);
}

/// Whether a block cuts the beam, told by its kind, name and opacity.
pub(crate) proof fn lemma_cut_in_window(
    blocks: spec_fn(BlockPos) -> BlockView,
    pos: BlockPos,
    last_check_y: int,
    surface_y: int,
)
    requires
        i32::MIN - 1 <= last_check_y <= i32::MAX,
        surface_y <= i32::MAX,
    ensures
        (exists|y: int|
            last_check_y < y <= scan_top(last_check_y, surface_y) && #[trigger] cut_at(
                blocks,
                pos,
                y,
            )) <==> exists|p: BlockPos|
            {
                &&& p.x == pos.x && p.z == pos.z
                &&& last_check_y < p.y <= last_check_y + 10 && p.y <= surface_y
                &&& (#[trigger] blocks(p)).kind != BlockKind::Beacon
                &&& !"_stained_glass"@.is_suffix_of(blocks(p).name)
                &&& !"_stained_glass_pane"@.is_suffix_of(blocks(p).name)
                &&& p.y == pos.y || (blocks(p).opacity >= 15 && blocks(p).kind
                    != BlockKind::Bedrock)
            },
{
    if exists|y: int|
        last_check_y < y <= scan_top(last_check_y, surface_y) && #[trigger] cut_at(
            blocks,
            pos,
            y,
        ) {
        let y = choose|y: int|
            last_check_y < y <= scan_top(last_check_y, surface_y) && #[trigger] cut_at(
                blocks,
                pos,
                y,
            );
        let p = above(pos, y);
        assert(p.y == y);
        assert(blocks(p).kind != BlockKind::Beacon);
    }
    if exists|p: BlockPos|
        {
            &&& p.x == pos.x && p.z == pos.z
            &&& last_check_y < p.y <= last_check_y + 10 && p.y <= surface_y
            &&& (#[trigger] blocks(p)).kind != BlockKind::Beacon
            &&& !"_stained_glass"@.is_suffix_of(blocks(p).name)
            &&& !"_stained_glass_pane"@.is_suffix_of(blocks(p).name)
            &&& p.y == pos.y || (blocks(p).opacity >= 15 && blocks(p).kind != BlockKind::Bedrock)
        } {
        let p = choose|p: BlockPos|
            {
                &&& p.x == pos.x && p.z == pos.z
                &&& last_check_y < p.y <= last_check_y + 10 && p.y <= surface_y
                &&& (#[trigger] blocks(p)).kind != BlockKind::Beacon
                &&& !"_stained_glass"@.is_suffix_of(blocks(p).name)
                &&& !"_stained_glass_pane"@.is_suffix_of(blocks(p).name)
                &&& p.y == pos.y || (blocks(p).opacity >= 15 && blocks(p).kind
                    != BlockKind::Bedrock)
            };
        assert(above(pos, p.y as int) == p);
        assert(cut_at(blocks, pos, p.y as int));
    }
}

/// A scan can be made with whatever names the next ten blocks up to the surface; it needs no
/// others.
pub proof fn law_scan_needs_ten_blocks<F: Fn(BlockPos) -> Block>(
    block_at: &F,
    pos: BlockPos,
    last_check_y: i32,
    surface_y: i32,
)
    requires
        forall|p: BlockPos|
            p.x == pos.x && p.z == pos.z && last_check_y < p.y <= last_check_y + 10 && p.y
                <= surface_y ==> #[trigger] call_requires(*block_at, (p,)),
    ensures
        call_requires(scan_column::<F>, (block_at, pos, last_check_y, surface_y)),
{
    assert forall|y: int| #[trigger]
        scan_asks(*block_at, pos, last_check_y as int, surface_y as int, y) implies call_requires(
        *block_at,
        (above(pos, y),),
    ) by {
        assert(above(pos, y).y == y);
    }
}

/// The number of layers below a beacon in a world whose base blocks are `base`: as many as there
/// are whole squares of base blocks, each one block lower and one block wider to each side than the
/// one above it, that lie in the world, but four at most.
pub proof fn law_layers_are_whole_squares<F: Fn(BlockPos) -> bool>(
    is_base: &F,
    base: spec_fn(BlockPos) -> bool,
    pos: BlockPos,
    min_y: i32,
    levels: i32,
)
    requires
        call_ensures(update_base::<F>, (is_base, pos, min_y), levels),
        forall|p: BlockPos, built: bool| #[trigger]
            call_ensures(*is_base, (p,), built) ==> built == base(p),
    ensures
        0 <= levels <= 4,
        levels > 0 ==> pos.y - levels >= min_y,
        forall|p: BlockPos|
            pos.y - levels <= p.y < pos.y && p.y - pos.y <= p.x - pos.x <= pos.y - p.y && p.y
                - pos.y <= p.z - pos.z <= pos.y - p.y ==> #[trigger] base(p),
        levels < 4 ==> pos.y - (levels + 1) < min_y || exists|p: BlockPos|
            p.y == pos.y - (levels + 1) && -(levels + 1) <= p.x - pos.x <= levels + 1 && -(levels
                + 1) <= p.z - pos.z <= levels + 1 && !(#[trigger] base(p)),
{
    law_pyramid_follows_world(*is_base, base, pos, min_y as int, levels as int);
    lemma_whole_squares(base, pos, min_y as int, levels as int);
}

/// Layers that are built are whole squares of base blocks.
pub(crate) proof fn lemma_whole_squares(
    base: spec_fn(BlockPos) -> bool,
    pos: BlockPos,
    min_y: int,
    levels: int,
)
    requires
        0 <= levels <= 4,
        forall|step: int| 1 <= step <= levels ==> #[trigger] layer_built(base, pos, min_y, step),
        levels < 4 ==> !layer_built(base, pos, min_y, levels + 1),
    ensures
        levels > 0 ==> pos.y - levels >= min_y,
        forall|p: BlockPos|
            pos.y - levels <= p.y < pos.y && p.y - pos.y <= p.x - pos.x <= pos.y - p.y && p.y
                - pos.y <= p.z - pos.z <= pos.y - p.y ==> #[trigger] base(p),
        levels < 4 ==> pos.y - (levels + 1) < min_y || exists|p: BlockPos|
            p.y == pos.y - (levels + 1) && -(levels + 1) <= p.x - pos.x <= levels + 1 && -(levels
                + 1) <= p.z - pos.z <= levels + 1 && !(#[trigger] base(p)),
{
    if levels > 0 {
        assert(layer_built(base, pos, min_y, levels));
    }
    assert forall|p: BlockPos|
        pos.y - levels <= p.y < pos.y && p.y - pos.y <= p.x - pos.x <= pos.y - p.y && p.y - pos.y
            <= p.z - pos.z <= pos.y - p.y implies #[trigger] base(p) by {
        let step = pos.y - p.y;
        assert(layer_built(base, pos, min_y, step));
        assert(in_layer(pos, step, p));
    }
    if levels < 4 && pos.y - (levels + 1) >= min_y {
        let p = choose|p: BlockPos| #[trigger] in_layer(pos, levels + 1, p) && !base(p);
        assert(!base(p));
    }
}

/// The layers of a pyramid can be counted wherever there is room for it to the sides, with
/// whatever tells base blocks within the four layers that lie in the world; no others are needed.
pub proof fn law_counting_needs_the_pyramid<F: Fn(BlockPos) -> bool>(
    is_base: &F,
    pos: BlockPos,
    min_y: i32,
)
    requires
        i32::MIN <= pos.x - 4 && pos.x + 4 <= i32::MAX,
        i32::MIN <= pos.z - 4 && pos.z + 4 <= i32::MAX,
        forall|p: BlockPos|
            pos.y - 4 <= p.y < pos.y && p.y >= min_y && p.y - pos.y <= p.x - pos.x <= pos.y - p.y
                && p.y - pos.y <= p.z - pos.z <= pos.y - p.y ==> #[trigger] call_requires(
                *is_base,
                (p,),
            ),
    ensures
        call_requires(update_base::<F>, (is_base, pos, min_y)),
{
    assert forall|step: int, cell: BlockPos| #[trigger]
        measuring_asks(*is_base, pos, min_y as int, step, cell) implies call_requires(
        *is_base,
        (cell,),
    ) by {
        assert(in_layer(pos, step, cell));
    }
}

/// There is room for a pyramid where every block of its four layers has coordinates.
pub proof fn law_room_is_for_four_layers(pos: BlockPos, fit: bool)
    requires
        call_ensures(fits, (pos,), fit),
    ensures
        fit <==> i32::MIN <= pos.x - 4 && pos.x + 4 <= i32::MAX && i32::MIN <= pos.z - 4 && pos.z
            + 4 <= i32::MAX,
{
}

} // verus!
