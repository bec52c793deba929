//! The workgroup grid and the commands of the single submission.

use vstd::prelude::*;
use crate::layout::BufferRole;
use crate::resources::{ResourceSet, ENTRY_BYTES};

verus! {

/// Number of workgroups along each of the three axes of a dispatch.
#[derive(Clone, Copy, Debug, PartialEq, Eq, Structural)]
pub struct WorkgroupGrid {
    pub x: u32,
    pub y: u32,
    pub z: u32,
}

/// One recorded command of a submission.
#[derive(Clone, Copy, Debug, PartialEq, Eq, Structural)]
pub enum Command {
    /// Launch the kernel, with the binding group of the run in group 0, over
    /// `grid` workgroups.
    Dispatch { grid: WorkgroupGrid },
    /// Copy `len` bytes from `source`, starting at `source_offset`, into
    /// `destination`, starting at `destination_offset`.
    CopyBuffer {
        source: BufferRole,
        source_offset: u64,
        destination: BufferRole,
        destination_offset: u64,
        len: u64,
    },
}

/// Edge length of the square tile of invocations that one workgroup runs.
/// The kernel declares the same number as its workgroup size.
pub const WORKGROUP_SIZE: u32 = 16;

/// The least number of tiles of edge `tile` that cover `size` cells.
pub open spec fn ceil_div(size: int, tile: int) -> int
    recommends
        size >= 0,
        tile > 0,
{
    (size + tile - 1) / tile
}

/// Number of workgroups needed along one axis of a `size` by `size` matrix.
///
/// The count is the least `g` with `g * tile >= size`; it is computed without
/// the intermediate sum `size + tile - 1`, which would not fit for sizes close
/// to the top of the range.
pub fn workgroup_count(size: u32, tile: u32) -> (groups: u32)
    requires
        tile > 0,
    ensures
        groups == ceil_div(size as int, tile as int),
        groups * tile >= size,
        groups > 0 ==> (groups - 1) * tile < size,
        size > 0 ==> groups > 0,
{
    let whole: u32 = size / tile;
    let rest: u32 = size % tile;
    proof {
        lemma_ceil_div(size as int, tile as int);
    }
    if rest == 0 {
        whole
    } else {
        whole + 1
    }
}

/// `ceil_div` splits into the whole tiles and one more for a remainder, and
/// it is the least count whose tiles cover `size`.
pub proof fn lemma_ceil_div(size: int, tile: int)
    requires
        size >= 0,
        tile > 0,
    ensures
        ceil_div(size, tile) == size / tile + if size % tile == 0 { 0int } else { 1int },
        ceil_div(size, tile) * tile >= size,
        (ceil_div(size, tile) - 1) * tile < size,
        0 <= ceil_div(size, tile) <= size,
        size > 0 ==> ceil_div(size, tile) > 0,
{
    let q = size / tile;
    let r = size % tile;
    assert(size == q * tile + r && 0 <= r < tile && q >= 0 && q <= size && (size + tile - 1) / tile
        == q + if r == 0 {
        0int
    } else {
        1int
    }) by (nonlinear_arith)
        requires
            size >= 0,
            tile > 0,
            q == size / tile,
            r == size % tile,
    ;
    let g = ceil_div(size, tile);
    assert(g * tile >= size && (g - 1) * tile < size && 0 <= g <= size && (size > 0 ==> g > 0))
        by (nonlinear_arith)
        requires
            size == q * tile + r,
            0 <= r < tile,
            q >= 0,
            g == q + if r == 0 { 0int } else { 1int },
    ;
}

/// The grid that covers a `size` by `size` matrix with tiles of 16 by 16
/// invocations.
pub open spec fn grid_for(size: u32) -> WorkgroupGrid {
    WorkgroupGrid {
        x: ceil_div(size as int, WORKGROUP_SIZE as int) as u32,
        y: ceil_div(size as int, WORKGROUP_SIZE as int) as u32,
        z: 1,
    }
}

/// The commands of a run on `resources`, in the order in which they are
/// recorded: one dispatch over the grid that covers the matrix, then one copy
/// of the whole output buffer to the start of the staging buffer.
pub open spec fn submission(resources: ResourceSet) -> Seq<Command> {
    seq![
        Command::Dispatch { grid: grid_for(resources.size) },
        Command::CopyBuffer {
            source: BufferRole::Output,
            source_offset: 0,
            destination: BufferRole::Staging,
            destination_offset: 0,
            len: resources.result.size,
        },
    ]
}

/// Computes the grid for a `size` by `size` matrix.
pub fn grid(size: u32) -> (grid: WorkgroupGrid)
    ensures
        grid == grid_for(size),
        grid.x * WORKGROUP_SIZE >= size,
        grid.y * WORKGROUP_SIZE >= size,
{
    let groups = workgroup_count(size, WORKGROUP_SIZE);
    WorkgroupGrid { x: groups, y: groups, z: 1 }
}

/// Records the commands of a run. They are to be handed to the queue as one
/// submission, so that the copy sees what the dispatch wrote.
pub fn record(resources: &ResourceSet) -> (commands: Vec<Command>)
    ensures
        commands@ == submission(*resources),
{
    let mut commands: Vec<Command> = Vec::new();
    commands.push(Command::Dispatch { grid: grid(resources.size) });
    commands.push(
        Command::CopyBuffer {
            source: BufferRole::Output,
            source_offset: 0,
            destination: BufferRole::Staging,
            destination_offset: 0,
            len: resources.result.size,
        },
    );
    assert(commands@ =~= submission(*resources));
    commands
}

/// For the buffers planned for a run, the copy moves exactly the
/// `size * size * 4` bytes of the product, a whole number of entries.
pub proof fn lemma_copy_moves_product(size: u32)
    requires
        ResourceSet::matrix_bytes(size) <= u64::MAX,
    ensures
        submission(ResourceSet::planned(size))[1] == (Command::CopyBuffer {
            source: BufferRole::Output,
            source_offset: 0,
            destination: BufferRole::Staging,
            destination_offset: 0,
            len: (size * size * ENTRY_BYTES) as u64,
        }),
        (size * size * ENTRY_BYTES) % (ENTRY_BYTES as int) == 0,
{
    assert((size * size * ENTRY_BYTES) % (ENTRY_BYTES as int) == 0) by (nonlinear_arith);
}

} // verus!
