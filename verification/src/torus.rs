//! The vertex grid and the triangle list of a torus.
//!
//! The grid is ring-major. It has `num_rings + 1` rows of `num_sides`
//! vertices: the last row repeats the first one, so that texture coordinates
//! can run from 0 to 1 across the seam. Each of the `num_sides * num_rings`
//! quads becomes two triangles. The surface points themselves are evaluated
//! by the caller from the angle steps that the grid hands out.
use vstd::prelude::*;
use vstd::arithmetic::div_mod::*;
use vstd::arithmetic::mul::*;

verus! {

/// Number of vertices, the duplicated ring included.
pub open spec fn torus_vertex_count(num_sides: nat, num_rings: nat) -> nat {
    num_sides * (num_rings + 1)
}

/// Number of indices: six for each quad.
pub open spec fn torus_index_count(num_sides: nat, num_rings: nat) -> nat {
    6 * (num_sides * num_rings)
}

/// Whether the grid can be indexed with `u32` and drawn with one call,
/// whose count is an `i32`.
pub open spec fn torus_fits(num_sides: nat, num_rings: nat) -> bool {
    &&& torus_vertex_count(num_sides, num_rings) <= u32::MAX
    &&& torus_index_count(num_sides, num_rings) <= i32::MAX
}

/// The vertex that the index buffer names at position `k`.
///
/// Quad `k / 6` lies between ring `ring` and the next, and between side
/// `side` and the next, which wraps round. Its corners come in the order
/// `(ring, side)`, `(ring + 1, side)`, `(ring + 1, side + 1)`, then
/// `(ring, side)`, `(ring + 1, side + 1)`, `(ring, side + 1)`.
pub open spec fn torus_index(num_sides: nat, k: int) -> int {
    let quad = k / 6;
    let ring = quad / (num_sides as int);
    let side = quad % (num_sides as int);
    let next_side = (side + 1) % (num_sides as int);
    let corner = k % 6;
    if corner == 0 || corner == 3 {
        ring * num_sides + side
    } else if corner == 1 {
        (ring + 1) * num_sides + side
    } else if corner == 2 || corner == 4 {
        (ring + 1) * num_sides + next_side
    } else {
        ring * num_sides + next_side
    }
}

/// One vertex of the grid, by the integer steps from which its attributes
/// are evaluated.
#[derive(Clone, Copy, Debug, PartialEq, Eq, Structural)]
pub struct TorusVertex {
    /// Row of the grid, from 0 to `num_rings`. The texture coordinate `u`
    /// is `ring / num_rings`.
    pub ring: usize,
    /// Column of the grid, below `num_sides`. The angle round the tube is
    /// `side` steps of a full turn divided by `num_sides`, and the texture
    /// coordinate `v` is `side / num_sides`.
    pub side: usize,
    /// The angle round the axis, in steps of a full turn divided by
    /// `num_rings`: `ring` wrapped to the range below `num_rings`. Position
    /// and normal depend on the ring through this step alone.
    pub angle_ring: usize,
}

/// The vertex at position `k` of the grid.
pub open spec fn torus_vertex(num_sides: nat, num_rings: nat, k: int) -> TorusVertex {
    let ring = k / (num_sides as int);
    TorusVertex {
        ring: ring as usize,
        side: (k % (num_sides as int)) as usize,
        angle_ring: if num_rings == 0 {
            0
        } else {
            (ring % (num_rings as int)) as usize
        },
    }
}

proof fn lemma_grid_position(num_sides: int, ring: int, side: int)
    requires
        0 <= side < num_sides,
        0 <= ring,
    ensures
        (ring * num_sides + side) / num_sides == ring,
        (ring * num_sides + side) % num_sides == side,
        0 <= ring * num_sides + side < (ring + 1) * num_sides,
{
    lemma_fundamental_div_mod_converse(ring * num_sides + side, num_sides, ring, side);
    assert((ring + 1) * num_sides == ring * num_sides + num_sides) by (nonlinear_arith);
    assert(0 <= ring * num_sides) by (nonlinear_arith)
        requires
            0 <= ring,
            0 < num_sides,
    ;
}

proof fn lemma_rows_fit(num_sides: int, ring: int, num_rings: int)
    requires
        0 <= num_sides,
        0 <= ring <= num_rings,
    ensures
        ring * num_sides <= num_rings * num_sides,
        num_rings * num_sides == num_sides * num_rings,
        (num_rings + 1) * num_sides == num_sides * (num_rings + 1),
        (num_rings + 1) * num_sides == num_rings * num_sides + num_sides,
{
    assert(ring * num_sides <= num_rings * num_sides) by (nonlinear_arith)
        requires
            0 <= num_sides,
            ring <= num_rings,
    ;
    assert(num_rings * num_sides == num_sides * num_rings) by (nonlinear_arith);
    assert((num_rings + 1) * num_sides == num_sides * (num_rings + 1)) by (nonlinear_arith);
    assert((num_rings + 1) * num_sides == num_rings * num_sides + num_sides) by (nonlinear_arith);
}

/// Every index of the list names a vertex of the grid.
pub proof fn lemma_torus_index_in_grid(num_sides: nat, num_rings: nat, k: int)
    requires
        0 <= k < torus_index_count(num_sides, num_rings),
    ensures
        0 <= torus_index(num_sides, k) < torus_vertex_count(num_sides, num_rings),
{
    let s = num_sides as int;
    let r = num_rings as int;
    assert(s > 0) by (nonlinear_arith)
        requires
            0 <= k < 6 * (s * r),
            0 <= s,
            0 <= r,
    ;
    let quad = k / 6;
    assert(0 <= quad < s * r);
    let ring = quad / s;
    let side = quad % s;
    lemma_fundamental_div_mod(quad, s);
    lemma_mod_bound(quad, s);
    lemma_div_pos_is_pos(quad, s);
    assert(ring < r) by {
        if ring >= r {
            assert(s * ring >= s * r) by (nonlinear_arith)
                requires
                    ring >= r,
                    s > 0,
            ;
        }
    }
    let next_side = (side + 1) % s;
    lemma_mod_bound(side + 1, s);
    lemma_grid_position(s, ring, side);
    lemma_grid_position(s, ring, next_side);
    lemma_grid_position(s, ring + 1, side);
    lemma_grid_position(s, ring + 1, next_side);
    lemma_rows_fit(s, ring + 1, r);
    lemma_rows_fit(s, ring + 2, r + 1);
    assert((ring + 2) * s <= (r + 1) * s);
}

/// Whether a torus grid of this size fits the index and count types.
pub fn torus_grid_fits(num_sides: usize, num_rings: usize) -> (fits: bool)
    ensures
        fits == torus_fits(num_sides as nat, num_rings as nat),
{
    if num_sides == 0 {
        assert(torus_fits(0, num_rings as nat)) by (nonlinear_arith)
            requires
                true,
        {
            assert(0 * (num_rings as nat + 1) == 0);
            assert(6 * (0 * (num_rings as nat)) == 0);
        }
        return true;
    }
    if num_sides > 0xFFFF_FFFF || num_rings >= 0xFFFF_FFFF {
        proof {
            let s = num_sides as int;
            let r = num_rings as int;
            assert(s * (r + 1) > 0xFFFF_FFFF) by (nonlinear_arith)
                requires
                    s > 0,
                    r >= 0,
                    s > 0xFFFF_FFFF || r >= 0xFFFF_FFFF,
            ;
        }
        return false;
    }
    let sides: u64 = num_sides as u64;
    let rings: u64 = num_rings as u64;
    assert(sides * (rings + 1) <= 0xFFFF_FFFF * 0xFFFF_FFFF) by (nonlinear_arith)
        requires
            sides <= 0xFFFF_FFFF,
            rings + 1 <= 0xFFFF_FFFF,
    ;
    assert(0 <= sides * rings <= sides * (rings + 1)) by (nonlinear_arith);
    let vertices: u64 = sides * (rings + 1);
    let quads: u64 = sides * rings;
    vertices <= 0xFFFF_FFFF && quads <= 357_913_941
}

/// The index buffer of the torus, or `None` where the grid does not fit.
pub fn torus_indices(num_sides: usize, num_rings: usize) -> (indices: Option<Vec<u32>>)
    ensures
        indices is Some <==> torus_fits(num_sides as nat, num_rings as nat),
        indices matches Some(list) ==> {
            &&& list@.len() == torus_index_count(num_sides as nat, num_rings as nat)
            &&& forall|k: int|
                0 <= k < list@.len() ==> list@[k] as int == #[trigger] torus_index(
                    num_sides as nat,
                    k,
                )
            &&& forall|k: int|
                0 <= k < list@.len() ==> (#[trigger] list@[k]) < torus_vertex_count(
                    num_sides as nat,
                    num_rings as nat,
                )
        },
{
    if !torus_grid_fits(num_sides, num_rings) {
        return None;
    }
    let mut list: Vec<u32> = Vec::new();
    let mut ring: usize = 0;
    while ring < num_rings
        invariant
            torus_fits(num_sides as nat, num_rings as nat),
            ring <= num_rings,
            list@.len() == 6 * (ring * num_sides),
            forall|k: int|
                0 <= k < list@.len() ==> list@[k] as int == #[trigger] torus_index(
                    num_sides as nat,
                    k,
                ),
        decreases num_rings - ring,
    {
        proof {
            lemma_rows_fit(num_sides as int, ring + 1, num_rings as int);
            lemma_rows_fit(num_sides as int, ring as int, num_rings as int);
            lemma_rows_fit(num_sides as int, ring + 2, num_rings + 1);
        }
        let ring_start: usize = ring * num_sides;
        let next_ring_start: usize = (ring + 1) * num_sides;
        let mut side: usize = 0;
        while side < num_sides
            invariant
                torus_fits(num_sides as nat, num_rings as nat),
                ring < num_rings,
                side <= num_sides,
                ring_start == ring * num_sides,
                next_ring_start == (ring + 1) * num_sides,
                next_ring_start + num_sides <= u32::MAX,
                list@.len() == 6 * (ring * num_sides + side),
                forall|k: int|
                    0 <= k < list@.len() ==> list@[k] as int == #[trigger] torus_index(
                        num_sides as nat,
                        k,
                    ),
            decreases num_sides - side,
        {
            let next_side: usize = (side + 1) % num_sides;
            let ghost before = list@;
            let ghost quad = ring * num_sides + side;
            proof {
                lemma_grid_position(num_sides as int, ring as int, side as int);
                lemma_mod_bound(side + 1, num_sides as int);
                assert forall|c: int| 0 <= c < 6 implies #[trigger] ((6 * quad + c) / 6) == quad
                    && (6 * quad + c) % 6 == c by {
                    lemma_fundamental_div_mod_converse(6 * quad + c, 6, quad as int, c);
                }
            }
            list.push((ring_start + side) as u32);
            list.push((next_ring_start + side) as u32);
            list.push((next_ring_start + next_side) as u32);
            list.push((ring_start + side) as u32);
            list.push((next_ring_start + next_side) as u32);
            list.push((ring_start + next_side) as u32);
            proof {
                assert forall|k: int| 0 <= k < list@.len() implies list@[k] as int
                    == #[trigger] torus_index(num_sides as nat, k) by {
                    if k < before.len() {
                        assert(list@[k] == before[k]);
                    } else {
                        let c = k - 6 * quad;
                        assert(0 <= c < 6);
                        assert((6 * quad + c) / 6 == quad && (6 * quad + c) % 6 == c);
                    }
                }
            }
            side = side + 1;
        }
        proof {
            assert((ring + 1) * num_sides == ring * num_sides + num_sides) by (nonlinear_arith);
        }
        ring = ring + 1;
    }
    proof {
        lemma_rows_fit(num_sides as int, num_rings as int, num_rings as int);
        assert forall|k: int| 0 <= k < list@.len() implies (#[trigger] list@[k])
            < torus_vertex_count(num_sides as nat, num_rings as nat) by {
            lemma_torus_index_in_grid(num_sides as nat, num_rings as nat, k);
            assert(list@[k] as int == torus_index(num_sides as nat, k));
        }
    }
    Some(list)
}

/// The vertex grid of the torus, or `None` where the grid does not fit.
pub fn torus_vertices(num_sides: usize, num_rings: usize) -> (grid: Option<Vec<TorusVertex>>)
    ensures
        grid is Some <==> torus_fits(num_sides as nat, num_rings as nat),
        grid matches Some(list) ==> {
            &&& list@.len() == torus_vertex_count(num_sides as nat, num_rings as nat)
            &&& forall|k: int|
                0 <= k < list@.len() ==> list@[k] == #[trigger] torus_vertex(
                    num_sides as nat,
                    num_rings as nat,
                    k,
                )
        },
{
    if !torus_grid_fits(num_sides, num_rings) {
        return None;
    }
    let mut list: Vec<TorusVertex> = Vec::new();
    if num_sides == 0 {
        assert(0 * (num_rings as nat + 1) == 0) by (nonlinear_arith);
        return Some(list);
    }
    assert(num_rings < u32::MAX) by (nonlinear_arith)
        requires
            num_sides * (num_rings + 1) <= u32::MAX,
            num_sides > 0,
    ;
    let mut ring: usize = 0;
    while ring < num_rings + 1
        invariant
            torus_fits(num_sides as nat, num_rings as nat),
            num_sides > 0,
            num_rings < u32::MAX,
            ring <= num_rings + 1,
            list@.len() == ring * num_sides,
            forall|k: int|
                0 <= k < list@.len() ==> list@[k] == #[trigger] torus_vertex(
                    num_sides as nat,
                    num_rings as nat,
                    k,
                ),
        decreases num_rings + 1 - ring,
    {
        let angle_ring: usize = if num_rings == 0 {
            0
        } else {
            ring % num_rings
        };
        let mut side: usize = 0;
        while side < num_sides
            invariant
                ring <= num_rings,
                side <= num_sides,
                angle_ring == if num_rings == 0 {
                    0
                } else {
                    ring % num_rings
                },
                list@.len() == ring * num_sides + side,
                forall|k: int|
                    0 <= k < list@.len() ==> list@[k] == #[trigger] torus_vertex(
                        num_sides as nat,
                        num_rings as nat,
                        k,
                    ),
            decreases num_sides - side,
        {
            proof {
                lemma_grid_position(num_sides as int, ring as int, side as int);
            }
            list.push(TorusVertex { ring, side, angle_ring });
            side = side + 1;
        }
        proof {
            assert((ring + 1) * num_sides == ring * num_sides + num_sides) by (nonlinear_arith);
        }
        ring = ring + 1;
    }
    proof {
        lemma_rows_fit(num_sides as int, num_rings as int, num_rings as int);
    }
    Some(list)
}

/// The seam: the vertices of the last ring, which duplicates the first one,
/// take their position and normal from the same angle steps as those of
/// ring 0, and their texture coordinate `u` is `num_rings / num_rings`, the
/// far edge of the texture, where that of ring 0 is `0 / num_rings`.
pub proof fn lemma_torus_seam(num_sides: usize, num_rings: usize, side: usize)
    requires
        num_rings >= 1,
        side < num_sides,
    ensures
        num_rings * num_sides + side < torus_vertex_count(num_sides as nat, num_rings as nat),
        torus_vertex(num_sides as nat, num_rings as nat, num_rings * num_sides + side).angle_ring
            == torus_vertex(num_sides as nat, num_rings as nat, side as int).angle_ring,
        torus_vertex(num_sides as nat, num_rings as nat, num_rings * num_sides + side).side
            == torus_vertex(num_sides as nat, num_rings as nat, side as int).side,
        torus_vertex(num_sides as nat, num_rings as nat, side as int).angle_ring == 0,
        torus_vertex(num_sides as nat, num_rings as nat, side as int).ring == 0,
        torus_vertex(num_sides as nat, num_rings as nat, num_rings * num_sides + side).ring
            == num_rings,
{
    let s = num_sides as int;
    let r = num_rings as int;
    lemma_grid_position(s, r, side as int);
    lemma_grid_position(s, 0, side as int);
    lemma_rows_fit(s, r, r);
    lemma_mod_self_0(r);
    lemma_small_mod(0, num_rings as nat);
}

} // verus!
