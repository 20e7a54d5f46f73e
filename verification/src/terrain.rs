//! Procedural terrain: each chunk, addressed by integer coordinates,
//! deterministically regenerates its decorative features from a seed
//! derived from the coordinates. Nothing is stored between frames; the
//! same coordinates always yield the same layout.

use vstd::prelude::*;

use crate::numeric::{div_floor, lemma_div_mod_neg};
use crate::CHUNK_SIZE;

verus! {

/// The kinds of decorative features a chunk can hold.
#[derive(Clone, Copy, Debug, PartialEq, Eq, Structural)]
pub enum FeatureKind {
    /// A grassy hill.
    Hill,
    /// A tree: trunk and canopy at the same spot.
    Tree,
    /// A flower: stem and bloom.
    Flower,
    /// A berry bush.
    Bush,
}

/// One decorative feature, at absolute world coordinates in milli-units.
#[derive(Clone, Copy, Debug, PartialEq, Eq, Structural)]
pub struct Feature {
    /// World x coordinate, milli-units.
    pub x: i64,
    /// World z coordinate, milli-units.
    pub z: i64,
    /// What stands there.
    pub kind: FeatureKind,
}

/// The unsigned 32-bit image of a signed 32-bit value.
pub open spec fn as_u32_spec(x: int) -> int
    recommends
        -0x8000_0000 <= x < 0x8000_0000,
{
    if x >= 0 {
        x
    } else {
        x + 0x1_0000_0000
    }
}

/// A 32-bit wrapping product.
pub open spec fn wrap_mul_32(a: int, m: int) -> int {
    (a * m) % 0x1_0000_0000
}

/// The chunk seed: the coordinates, spread by two large multipliers with
/// 32-bit wrapping, combined by exclusive or.
pub open spec fn chunk_seed_spec(cx: i32, cz: i32) -> u32 {
    (wrap_mul_32(as_u32_spec(cx as int), 73856093) as u32) ^ (wrap_mul_32(
        as_u32_spec(cz as int),
        19349663,
    ) as u32)
}

/// One step of the linear congruential generator, on 32-bit state.
#[verifier::opaque]
pub open spec fn lcg_next_spec(s: int) -> int {
    (s * 1103515245 + 12345) % 0x1_0000_0000
}

/// The generator's output for a state: bits 16 to 30.
#[verifier::opaque]
pub open spec fn lcg_out_spec(s: int) -> int {
    (s / 0x1_0000) % 0x8000
}

/// The generator state after `k` steps from `seed`.
pub open spec fn lcg_state(seed: int, k: nat) -> int
    decreases k,
{
    if k == 0 {
        seed
    } else {
        lcg_next_spec(lcg_state(seed, (k - 1) as nat))
    }
}

/// The `k`-th value drawn from `seed` (0-indexed); each draw advances the
/// state once and reads the new state.
pub open spec fn draw_spec(seed: int, k: nat) -> int {
    lcg_out_spec(lcg_state(seed, k + 1))
}

/// How many features the chunk holds: 2 to 6, from the first draw.
pub open spec fn chunk_feature_count(cx: i32, cz: i32) -> int {
    2 + draw_spec(chunk_seed_spec(cx, cz) as int, 0) % 5
}

/// The feature kind a draw selects.
pub open spec fn feature_kind_of(n: int) -> FeatureKind {
    if n == 0 {
        FeatureKind::Hill
    } else if n == 1 {
        FeatureKind::Tree
    } else if n == 2 {
        FeatureKind::Flower
    } else {
        FeatureKind::Bush
    }
}

/// The `j`-th feature of a chunk: three draws position it within the
/// chunk in steps of a hundredth of the chunk size and pick its kind.
#[verifier::opaque]
pub open spec fn chunk_feature(cx: i32, cz: i32, j: int) -> Feature {
    let seed = chunk_seed_spec(cx, cz) as int;
    Feature {
        x: (cx * CHUNK_SIZE + (draw_spec(seed, (1 + 3 * j) as nat) % 100) * (CHUNK_SIZE
            / 100)) as i64,
        z: (cz * CHUNK_SIZE + (draw_spec(seed, (2 + 3 * j) as nat) % 100) * (CHUNK_SIZE
            / 100)) as i64,
        kind: feature_kind_of(draw_spec(seed, (3 + 3 * j) as nat) % 4),
    }
}

/// The full feature layout of a chunk.
pub open spec fn chunk_features_spec(cx: i32, cz: i32) -> Seq<Feature> {
    Seq::new(chunk_feature_count(cx, cz) as nat, |j: int| chunk_feature(cx, cz, j))
}

/// A feature built from the right three draws is the chunk's `j`-th
/// feature.
proof fn lemma_chunk_feature_eq(cx: i32, cz: i32, j: int, dx: int, dz: int, dk: int, f: Feature)
    requires
        0 <= j,
        dx == draw_spec(chunk_seed_spec(cx, cz) as int, (1 + 3 * j) as nat),
        dz == draw_spec(chunk_seed_spec(cx, cz) as int, (2 + 3 * j) as nat),
        dk == draw_spec(chunk_seed_spec(cx, cz) as int, (3 + 3 * j) as nat),
        f.x == cx * CHUNK_SIZE + (dx % 100) * (CHUNK_SIZE / 100),
        f.z == cz * CHUNK_SIZE + (dz % 100) * (CHUNK_SIZE / 100),
        f.kind == feature_kind_of(dk % 4),
    ensures
        f == chunk_feature(cx, cz, j),
{
    reveal(chunk_feature);
}

/// The ground checkerboard parity of a chunk.
pub open spec fn chunk_parity_spec(cx: i32, cz: i32) -> bool {
    (cx + cz) % 2 == 0
}

/// Chunk generation is deterministic: any two layouts regenerated for
/// the same coordinates are identical — same count, same positions,
/// same kinds, in the same order.
pub proof fn lemma_chunk_deterministic(cx: i32, cz: i32, a: Seq<Feature>, b: Seq<Feature>)
    requires
        a == chunk_features_spec(cx, cz),
        b == chunk_features_spec(cx, cz),
    ensures
        a == b,
        a.len() == b.len(),
        forall|j: int| 0 <= j < a.len() ==> a[j] == b[j],
{
}

/// The unsigned 32-bit image of a signed 32-bit value.
fn as_u32(x: i32) -> (r: u32)
    ensures
        r == as_u32_spec(x as int),
{
    if x >= 0 {
        x as u32
    } else {
        ((x as i64) + 0x1_0000_0000) as u32
    }
}

/// One step of the linear congruential generator.
fn lcg_next(s: u32) -> (r: u32)
    ensures
        r == lcg_next_spec(s as int),
{
    proof {
        reveal(lcg_next_spec);
    }
    let wide: u64 = (s as u64) * 1103515245 + 12345;
    (wide % 0x1_0000_0000) as u32
}

/// The generator's output for a state.
fn lcg_out(s: u32) -> (r: u32)
    ensures
        r == lcg_out_spec(s as int),
        r < 0x8000,
{
    proof {
        reveal(lcg_out_spec);
    }
    (s / 0x1_0000) % 0x8000
}

/// The seed of a chunk.
pub fn chunk_seed(cx: i32, cz: i32) -> (r: u32)
    ensures
        r == chunk_seed_spec(cx, cz),
{
    let ax = as_u32(cx) as u64;
    let az = as_u32(cz) as u64;
    let mx = ((ax * 73856093) % 0x1_0000_0000) as u32;
    let mz = ((az * 19349663) % 0x1_0000_0000) as u32;
    mx ^ mz
}

/// The ground checkerboard parity of a chunk.
pub fn chunk_parity(cx: i32, cz: i32) -> (r: bool)
    ensures
        r == chunk_parity_spec(cx, cz),
{
    let s: i64 = cx as i64 + cz as i64;
    if s >= 0 {
        s % 2 == 0
    } else {
        proof {
            lemma_div_mod_neg(s as int, 2);
        }
        (-s) % 2 == 0
    }
}

/// The chunk that a world coordinate (milli-units) falls in.
pub fn chunk_coord(x: i64) -> (r: i64)
    requires
        -1_000_000_000_000_000 <= x <= 1_000_000_000_000_000,
    ensures
        r == x as int / (CHUNK_SIZE as int),
{
    div_floor(x, CHUNK_SIZE)
}

/// Regenerates the feature layout of a chunk. The result is a function of
/// the coordinates alone, so repeated calls agree exactly.
#[verifier::rlimit(100)]
pub fn generate_chunk(cx: i32, cz: i32) -> (features: Vec<Feature>)
    ensures
        features@ == chunk_features_spec(cx, cz),
        2 <= features@.len() <= 6,
{
    let ghost g_seed = chunk_seed_spec(cx, cz) as int;
    let seed = chunk_seed(cx, cz);
    let mut state = lcg_next(seed);
    proof {
        assert(lcg_state(g_seed, 1) == lcg_next_spec(lcg_state(g_seed, 0)));
    }
    let count: u32 = 2 + lcg_out(state) % 5;
    let base_x: i64 = (cx as i64) * CHUNK_SIZE;
    let base_z: i64 = (cz as i64) * CHUNK_SIZE;
    let mut features: Vec<Feature> = Vec::new();
    let mut j: u32 = 0;
    while j < count
        invariant
            g_seed == chunk_seed_spec(cx, cz) as int,
            count == chunk_feature_count(cx, cz),
            2 <= count <= 6,
            j <= count,
            state == lcg_state(g_seed, (1 + 3 * j) as nat),
            base_x == cx as int * CHUNK_SIZE,
            base_z == cz as int * CHUNK_SIZE,
            features@.len() == j,
            forall|k: int| 0 <= k < j ==> features@[k] == chunk_feature(cx, cz, k),
        decreases count - j,
    {
        let s1 = lcg_next(state);
        let dx = lcg_out(s1);
        let s2 = lcg_next(s1);
        let dz = lcg_out(s2);
        let s3 = lcg_next(s2);
        let dk = lcg_out(s3);
        proof {
            assert(lcg_state(g_seed, (2 + 3 * j) as nat) == lcg_next_spec(
                lcg_state(g_seed, (1 + 3 * j) as nat),
            ));
            assert(lcg_state(g_seed, (3 + 3 * j) as nat) == lcg_next_spec(
                lcg_state(g_seed, (2 + 3 * j) as nat),
            ));
            assert(lcg_state(g_seed, (4 + 3 * j) as nat) == lcg_next_spec(
                lcg_state(g_seed, (3 + 3 * j) as nat),
            ));
            assert(dx == draw_spec(g_seed, (1 + 3 * j) as nat));
            assert(dz == draw_spec(g_seed, (2 + 3 * j) as nat));
            assert(dk == draw_spec(g_seed, (3 + 3 * j) as nat));
        }
        let fx = base_x + ((dx % 100) as i64) * (CHUNK_SIZE / 100);
        let fz = base_z + ((dz % 100) as i64) * (CHUNK_SIZE / 100);
        let kind = if dk % 4 == 0 {
            FeatureKind::Hill
        } else if dk % 4 == 1 {
            FeatureKind::Tree
        } else if dk % 4 == 2 {
            FeatureKind::Flower
        } else {
            FeatureKind::Bush
        };
        features.push(Feature { x: fx, z: fz, kind });
        proof {
            lemma_chunk_feature_eq(
                cx,
                cz,
                j as int,
                dx as int,
                dz as int,
                dk as int,
                Feature { x: fx, z: fz, kind },
            );
        }
        state = s3;
        j = j + 1;
    }
    proof {
        assert(features@ =~= chunk_features_spec(cx, cz));
    }
    features
}

} // verus!
