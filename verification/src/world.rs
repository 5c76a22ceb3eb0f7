//! What a beacon sees of the world around it.
use vstd::prelude::*;

verus! {

/// The position of a block.
#[derive(Debug, Clone, Copy, PartialEq, Eq, Structural)]
pub struct BlockPos {
    pub x: i32,
    pub y: i32,
    pub z: i32,
}

/// The blocks that the beam treats by kind; all others it judges by name and opacity.
#[derive(Debug, Clone, Copy, PartialEq, Eq, Structural)]
pub enum BlockKind {
    Beacon,
    Bedrock,
    Other,
}

/// A block in the column above a beacon: its kind, its name without namespace, and the opacity
/// of its state.
#[derive(Debug)]
pub struct Block {
    pub kind: BlockKind,
    pub name: String,
    pub opacity: u8,
}

/// What a [`Block`] says.
pub ghost struct BlockView {
    pub kind: BlockKind,
    pub name: Seq<char>,
    pub opacity: u8,
}

impl View for Block {
    type V = BlockView;

    open spec fn view(&self) -> BlockView {
        BlockView { kind: self.kind, name: self.name@, opacity: self.opacity }
    }
}

/// The opacity from which a block state lets no light through.
pub const OPAQUE: u8 = 15;

/// The beam passes through the block and takes its colour from it.
pub open spec fn beam_block(block: BlockView) -> bool {
    ||| block.kind == BlockKind::Beacon
    ||| "_stained_glass"@.is_suffix_of(block.name)
    ||| "_stained_glass_pane"@.is_suffix_of(block.name)
}

/// The block, found at height `y`, cuts the beam of a beacon that stands at height `beacon_y`.
/// The first block must be the beacon itself; above it anything opaque cuts the beam, bedrock
/// excepted.
pub open spec fn cuts_beam(block: BlockView, y: int, beacon_y: int) -> bool {
    &&& !beam_block(block)
    &&& y == beacon_y || (block.opacity >= OPAQUE && block.kind != BlockKind::Bedrock)
}

/// Whether `text` ends with `suffix`.
fn ends_with(text: &str, suffix: &str) -> (found: bool)
    ensures
        found == suffix@.is_suffix_of(text@),
{
    let text_len: usize = text.unicode_len();
    let suffix_len: usize = suffix.unicode_len();
    if suffix_len > text_len {
        return false;
    }
    let start: usize = text_len - suffix_len;
    let mut i: usize = 0;
    while i < suffix_len
        invariant
            start + suffix_len == text_len,
            text_len == text@.len(),
            suffix_len == suffix@.len(),
            i <= suffix_len,
            forall|j: int| 0 <= j < i ==> text@[start + j] == suffix@[j],
        decreases suffix_len - i,
    {
        if text.get_char(start + i) != suffix.get_char(i) {
            assert(text@.subrange(start as int, text@.len() as int)[i as int] != suffix@[i as int]);
            return false;
        }
        i += 1;
    }
    assert(text@.subrange(start as int, text@.len() as int) =~= suffix@);
    true
}

/// Blocks the beam passes through and takes its colour from.
pub fn is_beam_block(block: &Block) -> (beam: bool)
    ensures
        beam == beam_block(block@),
{
    block.kind == BlockKind::Beacon || ends_with(block.name.as_str(), "_stained_glass")
        || ends_with(block.name.as_str(), "_stained_glass_pane")
}

/// What a tick reads of the world besides its blocks.
#[derive(Debug, Clone, Copy)]
pub struct WorldInfo {
    /// The lowest height at which the world has blocks.
    pub min_y: i32,
    /// The height of the dimension.
    pub height: i32,
    /// The age of the world in ticks.
    pub age: i64,
    /// The height of the world surface in the column of the beacon.
    pub surface_y: i32,
}

/// A box with whole-number corners.
#[derive(Debug, Clone, Copy, PartialEq, Eq, Structural)]
pub struct BoundingBox {
    pub min_x: i64,
    pub min_y: i64,
    pub min_z: i64,
    pub max_x: i64,
    pub max_y: i64,
    pub max_z: i64,
}

} // verus!
