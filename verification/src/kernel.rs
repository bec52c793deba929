//! What one launch of the kernel computes, stated on integer matrices.
//!
//! The device works on 32-bit floats and may add the products of a row and a
//! column in any order, so its output is only close to the product. On
//! integers the sum is exact, which makes the rule that matters to the host
//! checkable: a grid of whole tiles overshoots the matrix, every invocation
//! outside the matrix writes nothing, and every cell inside is written once.

use vstd::prelude::*;
use crate::dispatch::{ceil_div, lemma_ceil_div, workgroup_count, WORKGROUP_SIZE};

verus! {

/// Name of the kernel's entry point.
pub const ENTRY_POINT: &'static str = "main_simple";

/// The kernel. It declares the four bindings of group 0 in the order of the
/// binding slots, a workgroup of 16 by 16 invocations, and one entry point.
/// Each invocation takes its column from the first and its row from the
/// second component of its global index.
pub const SOURCE: &'static str = "struct Dimensions {
    width: u32,
    height: u32,
    padding: vec2<u32>,
}

@group(0) @binding(0) var<storage, read> matrix_a: array<f32>;
@group(0) @binding(1) var<storage, read> matrix_b: array<f32>;
@group(0) @binding(2) var<storage, read_write> result: array<f32>;
@group(0) @binding(3) var<uniform> dims: Dimensions;

@compute @workgroup_size(16, 16)
fn main_simple(@builtin(global_invocation_id) id: vec3<u32>) {
    let row = id.y;
    let col = id.x;
    if (row >= dims.height || col >= dims.width) {
        return;
    }
    var sum = f32();
    for (var k = 0u; k < dims.width; k = k + 1u) {
        sum = sum + matrix_a[row * dims.width + k] * matrix_b[k * dims.width + col];
    }
    result[row * dims.width + col] = sum;
}
";

/// Index of the cell in row `row` and column `col` of a row-major matrix with
/// `n` columns.
pub open spec fn cell(n: int, row: int, col: int) -> int {
    row * n + col
}

/// The sum of the first `k` products of row `row` of `a` with column `col`
/// of `b`.
pub open spec fn dot(a: Seq<i32>, b: Seq<i32>, n: int, row: int, col: int, k: int) -> int
    decreases k,
{
    if k <= 0 {
        0
    } else {
        dot(a, b, n, row, col, k - 1) + a[cell(n, row, k - 1)] * b[cell(n, k - 1, col)]
    }
}

/// The product of two `n` by `n` matrices, row-major.
pub open spec fn product(a: Seq<i32>, b: Seq<i32>, n: int) -> Seq<int> {
    Seq::new((n * n) as nat, |i: int| dot(a, b, n, i / n, i % n, n))
}

/// The index that the invocation with global index (`gx`, `gy`) writes: the
/// cell in row `gy` and column `gx`, or nothing when either lies outside the
/// matrix.
pub open spec fn target(n: int, gx: int, gy: int) -> Option<int> {
    if 0 <= gx < n && 0 <= gy < n {
        Some(cell(n, gy, gx))
    } else {
        None
    }
}

/// `after` is `before` once the invocation (`gx`, `gy`) has run on it: the
/// cell it writes holds the sum of all `n` products of its row and column,
/// and every other cell is as it was.
pub open spec fn invoked(
    before: Seq<i128>,
    after: Seq<i128>,
    a: Seq<i32>,
    b: Seq<i32>,
    n: int,
    gx: int,
    gy: int,
) -> bool {
    &&& after.len() == before.len()
    &&& match target(n, gx, gy) {
        Some(i) => after == before.update(i, after[i]) && after[i] == dot(a, b, n, gy, gx, n),
        None => after == before,
    }
}

/// The cell (`row`, `col`) belongs to the tile of workgroup (`wx`, `wy`).
pub open spec fn in_tile(row: int, col: int, wx: int, wy: int) -> bool {
    row / (WORKGROUP_SIZE as int) == wy && col / (WORKGROUP_SIZE as int) == wx
}

/// Within its tile, the cell (`row`, `col`) comes before the local position
/// (`lx`, `ly`) when the tile is walked row by row.
pub open spec fn local_before(row: int, col: int, lx: int, ly: int) -> bool {
    let t = WORKGROUP_SIZE as int;
    row % t < ly || (row % t == ly && col % t < lx)
}

/// The tile of the cell (`row`, `col`) comes before workgroup (`wx`, `wy`)
/// when the grid is walked row by row.
pub open spec fn tile_before(row: int, col: int, wx: int, wy: int) -> bool {
    let t = WORKGROUP_SIZE as int;
    row / t < wy || (row / t == wy && col / t < wx)
}

/// `after` is `before` with the cells of workgroup (`wx`, `wy`) that come
/// before the local position (`lx`, `ly`) replaced by their entries of the
/// product, and nothing else changed.
pub open spec fn tile_written_to(
    before: Seq<i128>,
    after: Seq<i128>,
    a: Seq<i32>,
    b: Seq<i32>,
    n: int,
    wx: int,
    wy: int,
    lx: int,
    ly: int,
) -> bool {
    &&& after.len() == before.len()
    &&& forall|row: int, col: int|
        0 <= row < n && 0 <= col < n ==> after[#[trigger] cell(n, row, col)] == (if in_tile(
            row,
            col,
            wx,
            wy,
        ) && local_before(row, col, lx, ly) {
            dot(a, b, n, row, col, n)
        } else {
            before[cell(n, row, col)] as int
        })
}

/// `after` is `before` with every cell of workgroup (`wx`, `wy`) that lies
/// inside the matrix replaced by its entry of the product, and nothing else
/// changed.
pub open spec fn tile_written(
    before: Seq<i128>,
    after: Seq<i128>,
    a: Seq<i32>,
    b: Seq<i32>,
    n: int,
    wx: int,
    wy: int,
) -> bool {
    tile_written_to(before, after, a, b, n, wx, wy, 0, WORKGROUP_SIZE as int)
}

/// `out` holds the product in every cell whose tile comes before workgroup
/// (`wx`, `wy`), and zero in every other cell.
pub open spec fn grid_written_to(
    out: Seq<i128>,
    a: Seq<i32>,
    b: Seq<i32>,
    n: int,
    wx: int,
    wy: int,
) -> bool {
    &&& out.len() == n * n
    &&& forall|row: int, col: int|
        0 <= row < n && 0 <= col < n ==> out[#[trigger] cell(n, row, col)] == (if tile_before(
            row,
            col,
            wx,
            wy,
        ) {
            dot(a, b, n, row, col, n)
        } else {
            0
        })
}

/// A cell of an `n` by `n` matrix lies inside the buffer.
pub proof fn lemma_cell_in_range(n: int, row: int, col: int)
    requires
        0 <= row < n,
        0 <= col < n,
    ensures
        0 <= cell(n, row, col) < n * n,
        0 <= row * n <= cell(n, row, col),
{
    assert(0 <= row * n && row * n + n <= n * n) by (nonlinear_arith)
        requires
            0 <= row < n,
    ;
}

/// Row and column are recovered from a cell's index, so two different cells
/// never share an index.
pub proof fn lemma_cell_split(n: int, row: int, col: int)
    requires
        0 <= row < n,
        0 <= col < n,
    ensures
        cell(n, row, col) / n == row,
        cell(n, row, col) % n == col,
{
    vstd::arithmetic::div_mod::lemma_fundamental_div_mod_converse(row * n + col, n, row, col);
}

/// Every index of the buffer is the index of exactly the cell in row `i / n`
/// and column `i % n`.
pub proof fn lemma_index_is_cell(n: int, i: int)
    requires
        0 < n,
        0 <= i < n * n,
    ensures
        0 <= i / n < n,
        0 <= i % n < n,
        cell(n, i / n, i % n) == i,
{
    vstd::arithmetic::div_mod::lemma_fundamental_div_mod(i, n);
    vstd::arithmetic::div_mod::lemma_mod_bound(i, n);
    let q = i / n;
    let r = i % n;
    assert(0 <= q < n) by (nonlinear_arith)
        requires
            i == n * q + r,
            0 <= r < n,
            0 <= i < n * n,
    ;
    assert(n * q == q * n) by (nonlinear_arith);
}

/// The partial sums of a row with a column stay within `k` times the largest
/// product of two entries.
pub proof fn lemma_dot_bound(a: Seq<i32>, b: Seq<i32>, n: int, row: int, col: int, k: int)
    requires
        0 <= k,
    ensures
        -(k * 0x4000_0000_0000_0000) <= dot(a, b, n, row, col, k) <= k * 0x4000_0000_0000_0000,
    decreases k,
{
    if k > 0 {
        lemma_dot_bound(a, b, n, row, col, k - 1);
        let x = a[cell(n, row, k - 1)];
        let y = b[cell(n, k - 1, col)];
        assert(-0x4000_0000_0000_0000 <= x * y <= 0x4000_0000_0000_0000) by (nonlinear_arith)
            requires
                -0x8000_0000 <= x <= 0x7fff_ffff,
                -0x8000_0000 <= y <= 0x7fff_ffff,
        ;
    }
}

/// A grid of whole tiles writes nowhere but inside the matrix. Any
/// invocation of a grid of `ceil(n / 16)` workgroups per axis lies less than
/// one tile past the last row and column, and the cell it writes, if it
/// writes at all, is a cell of the buffer.
pub proof fn lemma_overshoot_writes_nothing(n: int, wx: int, wy: int, lx: int, ly: int)
    requires
        0 <= n,
        0 <= wx < ceil_div(n, WORKGROUP_SIZE as int),
        0 <= wy < ceil_div(n, WORKGROUP_SIZE as int),
        0 <= lx < WORKGROUP_SIZE,
        0 <= ly < WORKGROUP_SIZE,
    ensures
        wx * WORKGROUP_SIZE + lx < n + WORKGROUP_SIZE - 1,
        wy * WORKGROUP_SIZE + ly < n + WORKGROUP_SIZE - 1,
        match target(n, wx * WORKGROUP_SIZE + lx, wy * WORKGROUP_SIZE + ly) {
            Some(i) => 0 <= i < n * n,
            None => wx * WORKGROUP_SIZE + lx >= n || wy * WORKGROUP_SIZE + ly >= n,
        },
{
    lemma_ceil_div(n, WORKGROUP_SIZE as int);
    let gx = wx * WORKGROUP_SIZE + lx;
    let gy = wy * WORKGROUP_SIZE + ly;
    if gx < n && gy < n {
        lemma_cell_in_range(n, gy, gx);
    }
}

/// A grid of whole tiles writes every cell of the matrix exactly once. The
/// cell (`row`, `col`) is written by the invocation at local position
/// (`col % 16`, `row % 16`) of workgroup (`col / 16`, `row / 16`), that
/// workgroup belongs to the grid of `ceil(n / 16)` workgroups per axis, and no
/// other invocation writes the same cell.
pub proof fn lemma_each_cell_written_once(n: int, row: int, col: int)
    requires
        0 <= row < n,
        0 <= col < n,
    ensures
        0 <= col / (WORKGROUP_SIZE as int) < ceil_div(n, WORKGROUP_SIZE as int),
        0 <= row / (WORKGROUP_SIZE as int) < ceil_div(n, WORKGROUP_SIZE as int),
        target(
            n,
            (col / (WORKGROUP_SIZE as int)) * WORKGROUP_SIZE + col % (WORKGROUP_SIZE as int),
            (row / (WORKGROUP_SIZE as int)) * WORKGROUP_SIZE + row % (WORKGROUP_SIZE as int),
        ) == Some(cell(n, row, col)),
        forall|gx: int, gy: int| #[trigger]
            target(n, gx, gy) == Some(cell(n, row, col)) ==> gx == col && gy == row,
{
    lemma_ceil_div(n, WORKGROUP_SIZE as int);
    lemma_cell_split(n, row, col);
    assert forall|gx: int, gy: int| #[trigger]
        target(n, gx, gy) == Some(cell(n, row, col)) implies gx == col && gy == row by {
        lemma_cell_split(n, gy, gx);
    }
}

/// Runs the invocation with global index (`gx`, `gy`): it adds up the
/// products of row `gy` of `a` with column `gx` of `b` and stores the sum in
/// that cell of `out`. An invocation whose row or column lies outside the
/// matrix returns without touching `out`.
pub fn invoke(a: &Vec<i32>, b: &Vec<i32>, size: u32, gx: u32, gy: u32, out: &mut Vec<i128>)
    requires
        a@.len() == size * size,
        b@.len() == size * size,
        old(out)@.len() == size * size,
    ensures
        invoked(old(out)@, final(out)@, a@, b@, size as int, gx as int, gy as int),
{
    let n: usize = size as usize;
    let row: usize = gy as usize;
    let col: usize = gx as usize;
    if row >= n || col >= n {
        return ;
    }
    let cells: usize = a.len();
    let mut sum: i128 = 0;
    let mut k: usize = 0;
    while k < n
        invariant
            k <= n,
            cells == n * n,
            row < n,
            col < n,
            n == size,
            a@.len() == n * n,
            b@.len() == n * n,
            sum == dot(a@, b@, n as int, row as int, col as int, k as int),
        decreases n - k,
    {
        proof {
            lemma_cell_in_range(n as int, row as int, k as int);
            lemma_cell_in_range(n as int, k as int, col as int);
            lemma_dot_bound(a@, b@, n as int, row as int, col as int, k as int);
            lemma_dot_bound(a@, b@, n as int, row as int, col as int, k + 1);
        }
        let x: i128 = a[row * n + k] as i128;
        let y: i128 = b[k * n + col] as i128;
        assert(-0x4000_0000_0000_0000 <= x * y <= 0x4000_0000_0000_0000) by (nonlinear_arith)
            requires
                -0x8000_0000 <= x <= 0x7fff_ffff,
                -0x8000_0000 <= y <= 0x7fff_ffff,
        ;
        sum = sum + x * y;
        k = k + 1;
    }
    proof {
        lemma_cell_in_range(n as int, row as int, col as int);
    }
    out.set(row * n + col, sum);
}

/// Runs the 16 by 16 invocations of workgroup (`wx`, `wy`), row by row.
pub fn run_workgroup(a: &Vec<i32>, b: &Vec<i32>, size: u32, wx: u32, wy: u32, out: &mut Vec<i128>)
    requires
        a@.len() == size * size,
        b@.len() == size * size,
        old(out)@.len() == size * size,
        wx * WORKGROUP_SIZE + WORKGROUP_SIZE - 1 <= u32::MAX,
        wy * WORKGROUP_SIZE + WORKGROUP_SIZE - 1 <= u32::MAX,
    ensures
        tile_written(old(out)@, final(out)@, a@, b@, size as int, wx as int, wy as int),
{
    let ghost before = out@;
    let ghost n = size as int;
    let mut ly: u32 = 0;
    while ly < WORKGROUP_SIZE
        invariant
            ly <= WORKGROUP_SIZE,
            n == size,
            a@.len() == n * n,
            b@.len() == n * n,
            wx * WORKGROUP_SIZE + WORKGROUP_SIZE - 1 <= u32::MAX,
            wy * WORKGROUP_SIZE + WORKGROUP_SIZE - 1 <= u32::MAX,
            before.len() == n * n,
            tile_written_to(before, out@, a@, b@, n, wx as int, wy as int, 0, ly as int),
        decreases WORKGROUP_SIZE - ly,
    {
        let mut lx: u32 = 0;
        while lx < WORKGROUP_SIZE
            invariant
                lx <= WORKGROUP_SIZE,
                ly < WORKGROUP_SIZE,
                n == size,
                a@.len() == n * n,
                b@.len() == n * n,
                wx * WORKGROUP_SIZE + WORKGROUP_SIZE - 1 <= u32::MAX,
                wy * WORKGROUP_SIZE + WORKGROUP_SIZE - 1 <= u32::MAX,
                before.len() == n * n,
                tile_written_to(before, out@, a@, b@, n, wx as int, wy as int, lx as int, ly as int),
            decreases WORKGROUP_SIZE - lx,
        {
            let ghost prev = out@;
            let gx: u32 = wx * WORKGROUP_SIZE + lx;
            let gy: u32 = wy * WORKGROUP_SIZE + ly;
            invoke(a, b, size, gx, gy, out);
            proof {
                assert forall|row: int, col: int| 0 <= row < n && 0 <= col < n implies out@[#[trigger] cell(
                    n,
                    row,
                    col,
                )] == (if in_tile(row, col, wx as int, wy as int) && local_before(
                    row,
                    col,
                    lx + 1,
                    ly as int,
                ) {
                    dot(a@, b@, n, row, col, n)
                } else {
                    before[cell(n, row, col)] as int
                }) by {
                    lemma_cell_split(n, row, col);
                    lemma_cell_in_range(n, row, col);
                    assert(prev[cell(n, row, col)] == (if in_tile(row, col, wx as int, wy as int)
                        && local_before(row, col, lx as int, ly as int) {
                        dot(a@, b@, n, row, col, n)
                    } else {
                        before[cell(n, row, col)] as int
                    }));
                    if gx < n && gy < n {
                        lemma_cell_split(n, gy as int, gx as int);
                        lemma_cell_in_range(n, gy as int, gx as int);
                    }
                }
            }
            lx = lx + 1;
        }
        ly = ly + 1;
    }
}

/// A buffer of `len` zeros, as the device hands out a fresh output buffer.
fn zeroed(len: usize) -> (out: Vec<i128>)
    ensures
        out@.len() == len,
        forall|i: int| 0 <= i < len ==> out@[i] == 0,
{
    let mut out: Vec<i128> = Vec::new();
    let mut i: usize = 0;
    while i < len
        invariant
            i <= len,
            out@.len() == i,
            forall|j: int| 0 <= j < i ==> out@[j] == 0,
        decreases len - i,
    {
        out.push(0);
        i = i + 1;
    }
    out
}

/// Runs one launch of the kernel on the host: a zeroed output buffer, the grid
/// of `ceil(size / 16)` workgroups along each axis, and in each workgroup all
/// of its invocations. The grid may reach past the matrix; the result is the
/// product all the same, and no cell outside the buffer is touched.
pub fn run_grid(a: &Vec<i32>, b: &Vec<i32>, size: u32) -> (out: Vec<i128>)
    requires
        a@.len() == size * size,
        b@.len() == size * size,
    ensures
        out@.len() == size * size,
        out@.len() == product(a@, b@, size as int).len(),
        forall|i: int| 0 <= i < out@.len() ==> out@[i] == product(a@, b@, size as int)[i],
{
    let ghost n = size as int;
    let groups: u32 = workgroup_count(size, WORKGROUP_SIZE);
    let mut out: Vec<i128> = zeroed(a.len());
    proof {
        assert forall|row: int, col: int| 0 <= row < n && 0 <= col < n implies out@[#[trigger] cell(
            n,
            row,
            col,
        )] == 0 by {
            lemma_cell_in_range(n, row, col);
        }
    }
    let mut wy: u32 = 0;
    while wy < groups
        invariant
            wy <= groups,
            n == size,
            groups == ceil_div(n, WORKGROUP_SIZE as int),
            a@.len() == n * n,
            b@.len() == n * n,
            grid_written_to(out@, a@, b@, n, 0, wy as int),
        decreases groups - wy,
    {
        let mut wx: u32 = 0;
        while wx < groups
            invariant
                wx <= groups,
                wy < groups,
                n == size,
                groups == ceil_div(n, WORKGROUP_SIZE as int),
                a@.len() == n * n,
                b@.len() == n * n,
                grid_written_to(out@, a@, b@, n, wx as int, wy as int),
            decreases groups - wx,
        {
            let ghost prev = out@;
            run_workgroup(a, b, size, wx, wy, &mut out);
            proof {
                assert forall|row: int, col: int| 0 <= row < n && 0 <= col < n implies out@[#[trigger] cell(
                    n,
                    row,
                    col,
                )] == (if tile_before(row, col, wx + 1, wy as int) {
                    dot(a@, b@, n, row, col, n)
                } else {
                    0
                }) by {
                    lemma_cell_in_range(n, row, col);
                    assert(prev[cell(n, row, col)] == (if tile_before(row, col, wx as int, wy as int) {
                        dot(a@, b@, n, row, col, n)
                    } else {
                        0
                    }));
                }
            }
            wx = wx + 1;
        }
        proof {
            lemma_ceil_div(n, WORKGROUP_SIZE as int);
        }
        wy = wy + 1;
    }
    proof {
        lemma_ceil_div(n, WORKGROUP_SIZE as int);
        assert forall|i: int| 0 <= i < out@.len() implies out@[i] == product(a@, b@, n)[i] by {
            lemma_index_is_cell(n, i);
            assert(out@[cell(n, i / n, i % n)] == dot(a@, b@, n, i / n, i % n, n));
        }
    }
    out
}

} // verus!
