//! The scan of the column above a beacon, which decides whether its beam reaches the sky.
use vstd::prelude::*;

use crate::world::{cuts_beam, is_beam_block, Block, BlockKind, BlockPos, BlockView, OPAQUE};

verus! {

/// The number of blocks that one tick checks.
pub const BLOCKS_CHECK_PER_TICK: i32 = 10;

/// Where the scan stands after a tick.
#[derive(Debug, Clone, Copy, PartialEq, Eq, Structural)]
pub struct ColumnScan {
    /// The height up to which the column was checked. A scan that ran into a block that cuts the
    /// beam goes straight to the surface.
    pub last_check_y: i32,
    /// The scan ran into a block that cuts the beam.
    pub cut: bool,
}

/// The block at height `y` in the column of `pos`.
pub open spec fn above(pos: BlockPos, y: int) -> BlockPos {
    BlockPos { x: pos.x, y: y as i32, z: pos.z }
}

/// Asked for the block at height `y` in the column of the beacon at `pos`, `block_at` may name
/// one that cuts the beam (if `cuts`), or one that lets it through (if not).
pub open spec fn may_report<F: Fn(BlockPos) -> Block>(
    block_at: F,
    pos: BlockPos,
    y: int,
    cuts: bool,
) -> bool {
    exists|block: Block|
        #[trigger] call_ensures(block_at, (above(pos, y),), block) && cuts_beam(
            block@,
            y,
            pos.y as int,
        ) == cuts
}

/// `scan` is what a scan that had checked the column up to `last_check_y` comes to in one tick,
/// going by the blocks that `block_at` reports.
///
/// It checks the next blocks upwards in turn, up to the surface and not more than a tick's
/// share, and ends at the first that cuts the beam.
pub open spec fn scan_result<F: Fn(BlockPos) -> Block>(
    block_at: F,
    pos: BlockPos,
    last_check_y: int,
    surface_y: int,
    scan: ColumnScan,
) -> bool {
    exists|clear: int| #[trigger]
        scan_passes(block_at, pos, last_check_y, surface_y, clear) && if scan.cut {
            &&& clear < BLOCKS_CHECK_PER_TICK
            &&& last_check_y + clear < surface_y
            &&& may_report(block_at, pos, last_check_y + clear + 1, true)
            &&& scan.last_check_y == surface_y
        } else {
            &&& clear == BLOCKS_CHECK_PER_TICK || last_check_y + clear >= surface_y
            &&& scan.last_check_y == last_check_y + clear
        }
}

/// The scan may go through the next `clear` blocks.
pub open spec fn scan_passes<F: Fn(BlockPos) -> Block>(
    block_at: F,
    pos: BlockPos,
    last_check_y: int,
    surface_y: int,
    clear: int,
) -> bool {
    &&& 0 <= clear <= BLOCKS_CHECK_PER_TICK
    &&& clear == 0 || last_check_y + clear <= surface_y
    &&& forall|y: int|
        last_check_y < y <= last_check_y + clear ==> #[trigger] may_report(block_at, pos, y, false)
}

/// A tick may ask for the block at height `y`: it is one of the next blocks upwards, not above the
/// surface and within a tick's share, and those before it may let the beam through.
pub open spec fn scan_asks<F: Fn(BlockPos) -> Block>(
    block_at: F,
    pos: BlockPos,
    last_check_y: int,
    surface_y: int,
    y: int,
) -> bool {
    &&& last_check_y < y <= scan_top(last_check_y, surface_y)
    &&& scan_passes(block_at, pos, last_check_y, surface_y, y - last_check_y - 1)
}

/// Checks the next blocks of the column above the beacon at `pos`. `block_at` is asked for those
/// and no others.
pub fn scan_column<F: Fn(BlockPos) -> Block>(
    block_at: &F,
    pos: BlockPos,
    last_check_y: i32,
    surface_y: i32,
) -> (scan: ColumnScan)
    requires
        forall|y: int| #[trigger]
            scan_asks(*block_at, pos, last_check_y as int, surface_y as int, y) ==> call_requires(
                *block_at,
                (above(pos, y),),
            ),
    ensures
        scan_result(*block_at, pos, last_check_y as int, surface_y as int, scan),
{
    let mut y: i32 = last_check_y;
    let mut checked: i32 = 0;
    while checked < BLOCKS_CHECK_PER_TICK && y < surface_y
        invariant
            forall|y: int| #[trigger]
                scan_asks(*block_at, pos, last_check_y as int, surface_y as int, y)
                    ==> call_requires(*block_at, (above(pos, y),)),
            y == last_check_y + checked,
            scan_passes(*block_at, pos, last_check_y as int, surface_y as int, checked as int),
        decreases BLOCKS_CHECK_PER_TICK - checked,
    {
        let check_pos = BlockPos { x: pos.x, y: y + 1, z: pos.z };
        assert(check_pos == above(pos, y + 1));
        assert(scan_asks(*block_at, pos, last_check_y as int, surface_y as int, y + 1));
        let block = block_at(check_pos);
        assert(call_ensures(*block_at, (above(pos, y + 1),), block));
        if !is_beam_block(&block) {
            let opaque = block.opacity >= OPAQUE;
            if check_pos.y == pos.y || (opaque && block.kind != BlockKind::Bedrock) {
                return ColumnScan { last_check_y: surface_y, cut: true };
            }
        }
        y += 1;
        checked += 1;
    }
    ColumnScan { last_check_y: y, cut: false }
}

/// `block_at` reports the blocks of `world`.
pub open spec fn reports<F: Fn(BlockPos) -> Block>(
    block_at: F,
    world: spec_fn(BlockPos) -> BlockView,
) -> bool {
    forall|p: BlockPos, block: Block| #[trigger]
        call_ensures(block_at, (p,), block) ==> block@ == world(p)
}

/// In `world`, the block at height `y` cuts the beam of the beacon at `pos`.
pub open spec fn cut_at(world: spec_fn(BlockPos) -> BlockView, pos: BlockPos, y: int) -> bool {
    cuts_beam(world(above(pos, y)), y, pos.y as int)
}

/// The height up to which a tick checks that starts above `last_check_y`, if nothing stops it.
pub open spec fn scan_top(last_check_y: int, surface_y: int) -> int {
    if last_check_y >= surface_y {
        last_check_y
    } else if last_check_y + BLOCKS_CHECK_PER_TICK <= surface_y {
        last_check_y + BLOCKS_CHECK_PER_TICK
    } else {
        surface_y
    }
}

/// What one tick of scanning comes to in `world`.
pub open spec fn column_scan(
    world: spec_fn(BlockPos) -> BlockView,
    pos: BlockPos,
    last_check_y: int,
    surface_y: int,
) -> ColumnScan {
    let cut = exists|y: int|
        last_check_y < y <= scan_top(last_check_y, surface_y) && #[trigger] cut_at(world, pos, y);
    ColumnScan {
        cut,
        last_check_y: if cut {
            surface_y as i32
        } else {
            scan_top(last_check_y, surface_y) as i32
        },
    }
}

/// A scan of a column whose blocks are those of `world` is cut if and only if one of the next ten
/// blocks up to the surface cuts the beam. If none does, it has checked all of these; if one does,
/// it is at the surface.
pub proof fn law_scan_follows_world<F: Fn(BlockPos) -> Block>(
    block_at: F,
    world: spec_fn(BlockPos) -> BlockView,
    pos: BlockPos,
    last_check_y: i32,
    surface_y: i32,
    scan: ColumnScan,
)
    requires
        reports(block_at, world),
        scan_result(block_at, pos, last_check_y as int, surface_y as int, scan),
    ensures
        scan == column_scan(world, pos, last_check_y as int, surface_y as int),
{
    let clear = choose|clear: int| #[trigger]
        scan_passes(block_at, pos, last_check_y as int, surface_y as int, clear) && if scan.cut {
            &&& clear < BLOCKS_CHECK_PER_TICK
            &&& last_check_y + clear < surface_y
            &&& may_report(block_at, pos, last_check_y + clear + 1, true)
            &&& scan.last_check_y == surface_y
        } else {
            &&& clear == BLOCKS_CHECK_PER_TICK || last_check_y + clear >= surface_y
            &&& scan.last_check_y == last_check_y + clear
        };
    assert forall|y: int| last_check_y < y <= last_check_y + clear implies !#[trigger] cut_at(
        world,
        pos,
        y,
    ) by {
        assert(may_report(block_at, pos, y, false));
    }
    if scan.cut {
        assert(cut_at(world, pos, last_check_y + clear + 1));
    }
}

} // verus!
