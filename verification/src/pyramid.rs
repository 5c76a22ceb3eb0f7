//! The pyramid below a beacon.
use vstd::prelude::*;

use crate::world::BlockPos;

verus! {

/// Layers of a complete pyramid.
pub const MAX_LEVELS: i32 = 4;

/// `cell` belongs to the layer `step` blocks below the beacon at `pos`: a square that reaches
/// `step` blocks to each side.
pub open spec fn in_layer(pos: BlockPos, step: int, cell: BlockPos) -> bool {
    &&& cell.y == pos.y - step
    &&& pos.x - step <= cell.x <= pos.x + step
    &&& pos.z - step <= cell.z <= pos.z + step
}

/// `is_base` may find the whole layer `step` blocks below `pos` to be built.
pub open spec fn may_be_complete<F: Fn(BlockPos) -> bool>(
    is_base: F,
    pos: BlockPos,
    step: int,
) -> bool {
    forall|cell: BlockPos| #[trigger]
        in_layer(pos, step, cell) ==> call_ensures(is_base, (cell,), true)
}

/// `is_base` may find a gap in the layer `step` blocks below `pos`.
pub open spec fn may_have_gap<F: Fn(BlockPos) -> bool>(
    is_base: F,
    pos: BlockPos,
    step: int,
) -> bool {
    exists|cell: BlockPos| #[trigger]
        in_layer(pos, step, cell) && call_ensures(is_base, (cell,), false)
}

/// `levels` is the number of complete pyramid layers below `pos`, going by `is_base`: the layers
/// from the top down to the first that has a gap or lies below the world.
pub open spec fn pyramid_result<F: Fn(BlockPos) -> bool>(
    is_base: F,
    pos: BlockPos,
    min_y: int,
    levels: int,
) -> bool {
    &&& 0 <= levels <= MAX_LEVELS
    &&& levels > 0 ==> pos.y - levels >= min_y
    &&& forall|step: int|
        1 <= step <= levels ==> #[trigger] may_be_complete(is_base, pos, step)
    &&& levels < MAX_LEVELS ==> pos.y - (levels + 1) < min_y || may_have_gap(
        is_base,
        pos,
        levels + 1,
    )
}

/// The pyramid below `pos` keeps clear, to its sides, of the limits of coordinates.
pub open spec fn has_room(pos: BlockPos) -> bool {
    &&& i32::MIN + MAX_LEVELS <= pos.x <= i32::MAX - MAX_LEVELS
    &&& i32::MIN + MAX_LEVELS <= pos.z <= i32::MAX - MAX_LEVELS
}

/// Whether the pyramid below `pos` keeps clear, to its sides, of the limits of coordinates.
pub fn fits(pos: BlockPos) -> (fit: bool)
    ensures
        fit == has_room(pos),
{
    let low: i32 = i32::MIN + MAX_LEVELS;
    let high: i32 = i32::MAX - MAX_LEVELS;
    low <= pos.x && pos.x <= high && low <= pos.z && pos.z <= high
}

/// Whether the whole layer `step` blocks below `pos` is built.
fn layer_complete<F: Fn(BlockPos) -> bool>(is_base: &F, pos: BlockPos, step: i32) -> (complete: bool)
    requires
        has_room(pos),
        1 <= step <= MAX_LEVELS,
        pos.y - step >= i32::MIN,
        forall|cell: BlockPos| #[trigger]
            in_layer(pos, step as int, cell) ==> call_requires(*is_base, (cell,)),
    ensures
        complete ==> may_be_complete(*is_base, pos, step as int),
        !complete ==> may_have_gap(*is_base, pos, step as int),
{
    let layer_y: i32 = pos.y - step;
    let mut dx: i32 = -step;
    while dx <= step
        invariant
            has_room(pos),
            1 <= step <= MAX_LEVELS,
            layer_y == pos.y - step,
            forall|cell: BlockPos| #[trigger]
                in_layer(pos, step as int, cell) ==> call_requires(*is_base, (cell,)),
            -step <= dx <= step + 1,
            forall|cell: BlockPos| #[trigger]
                in_layer(pos, step as int, cell) && cell.x < pos.x + dx ==> call_ensures(
                    *is_base,
                    (cell,),
                    true,
                ),
        decreases step + 1 - dx,
    {
        let x: i32 = pos.x + dx;
        let mut dz: i32 = -step;
        while dz <= step
            invariant
                has_room(pos),
                1 <= step <= MAX_LEVELS,
                layer_y == pos.y - step,
                forall|cell: BlockPos| #[trigger]
                    in_layer(pos, step as int, cell) ==> call_requires(*is_base, (cell,)),
                x == pos.x + dx,
                -step <= dx <= step,
                -step <= dz <= step + 1,
                forall|cell: BlockPos| #[trigger]
                    in_layer(pos, step as int, cell) && (cell.x < x || (cell.x == x && cell.z
                        < pos.z + dz)) ==> call_ensures(*is_base, (cell,), true),
            decreases step + 1 - dz,
        {
            let cell = BlockPos { x, y: layer_y, z: pos.z + dz };
            assert(in_layer(pos, step as int, cell));
            let built = is_base(cell);
            if !built {
                return false;
            }
            dz += 1;
        }
        dx += 1;
    }
    true
}

/// Measuring the pyramid may ask for the block at `cell`, in the layer `step` blocks below `pos`:
/// that layer is in the world, and those above it may be complete.
pub open spec fn measuring_asks<F: Fn(BlockPos) -> bool>(
    is_base: F,
    pos: BlockPos,
    min_y: int,
    step: int,
    cell: BlockPos,
) -> bool {
    &&& 1 <= step <= MAX_LEVELS
    &&& pos.y - step >= min_y
    &&& in_layer(pos, step, cell)
    &&& forall|higher: int|
        1 <= higher < step ==> #[trigger] may_be_complete(is_base, pos, higher)
}

/// The number of complete pyramid layers below the beacon at `pos`. `is_base` tells whether the
/// block at a position can be part of a pyramid, and is asked for blocks of the pyramid alone.
pub fn update_base<F: Fn(BlockPos) -> bool>(is_base: &F, pos: BlockPos, min_y: i32) -> (levels: i32)
    requires
        has_room(pos),
        forall|step: int, cell: BlockPos| #[trigger]
            measuring_asks(*is_base, pos, min_y as int, step, cell) ==> call_requires(
                *is_base,
                (cell,),
            ),
    ensures
        pyramid_result(*is_base, pos, min_y as int, levels as int),
{
    let mut levels: i32 = 0;
    while levels < MAX_LEVELS
        invariant
            has_room(pos),
            forall|step: int, cell: BlockPos| #[trigger]
                measuring_asks(*is_base, pos, min_y as int, step, cell) ==> call_requires(
                    *is_base,
                    (cell,),
                ),
            0 <= levels <= MAX_LEVELS,
            levels > 0 ==> pos.y - levels >= min_y,
            forall|step: int|
                1 <= step <= levels ==> #[trigger] may_be_complete(*is_base, pos, step),
        ensures
            pyramid_result(*is_base, pos, min_y as int, levels as int),
        decreases MAX_LEVELS - levels,
    {
        let step: i32 = levels + 1;
        if pos.y as i64 - (step as i64) < min_y as i64 {
            break;
        }
        assert forall|cell: BlockPos| #[trigger] in_layer(
            pos,
            step as int,
            cell,
        ) implies call_requires(*is_base, (cell,)) by {
            assert(measuring_asks(*is_base, pos, min_y as int, step as int, cell));
        }
        if !layer_complete(is_base, pos, step) {
            break;
        }
        levels = step;
    }
    levels
}

/// `is_base` reports the blocks of `base`.
pub open spec fn reports_base<F: Fn(BlockPos) -> bool>(
    is_base: F,
    base: spec_fn(BlockPos) -> bool,
) -> bool {
    forall|p: BlockPos, built: bool| #[trigger]
        call_ensures(is_base, (p,), built) ==> built == base(p)
}

/// The whole layer `step` blocks below `pos` is in the world, and built of blocks of `base`.
pub open spec fn layer_built(
    base: spec_fn(BlockPos) -> bool,
    pos: BlockPos,
    min_y: int,
    step: int,
) -> bool {
    pos.y - step >= min_y && forall|cell: BlockPos| #[trigger] in_layer(pos, step, cell) ==> base(cell)
}

/// The number of layers from layer `step` down to the first that is not built, added to the
/// `step - 1` layers above.
pub open spec fn layers_from(
    base: spec_fn(BlockPos) -> bool,
    pos: BlockPos,
    min_y: int,
    step: int,
) -> int
    decreases MAX_LEVELS + 1 - step,
{
    if step > MAX_LEVELS || !layer_built(base, pos, min_y, step) {
        step - 1
    } else {
        layers_from(base, pos, min_y, step + 1)
    }
}

/// The number of complete layers of the pyramid below `pos`.
pub open spec fn pyramid_levels(base: spec_fn(BlockPos) -> bool, pos: BlockPos, min_y: int) -> int {
    layers_from(base, pos, min_y, 1)
}

/// Where the blocks of the pyramid are those of `base`, counting its layers gives their number.
pub proof fn law_pyramid_follows_world<F: Fn(BlockPos) -> bool>(
    is_base: F,
    base: spec_fn(BlockPos) -> bool,
    pos: BlockPos,
    min_y: int,
    levels: int,
)
    requires
        reports_base(is_base, base),
        pyramid_result(is_base, pos, min_y, levels),
    ensures
        levels == pyramid_levels(base, pos, min_y),
        0 <= levels <= MAX_LEVELS,
        forall|step: int| 1 <= step <= levels ==> #[trigger] layer_built(base, pos, min_y, step),
        levels < MAX_LEVELS ==> !layer_built(base, pos, min_y, levels + 1),
{
    assert forall|step: int| 1 <= step <= levels implies #[trigger] layer_built(
        base,
        pos,
        min_y,
        step,
    ) by {
        assert(may_be_complete(is_base, pos, step));
    }
    if levels < MAX_LEVELS {
        assert(!layer_built(base, pos, min_y, levels + 1));
    }
    reveal_with_fuel(layers_from, 6);
    assert(levels == 0 || levels == 1 || levels == 2 || levels == 3 || levels == 4);
}

} // verus!
