//! Permutation tables for Perlin noise.
//!
//! The noise sampler hashes each lattice corner through three independent
//! random permutations of the index range, xors the three table entries, and
//! uses the result to pick a gradient vector. The tables are built once, at
//! startup, by shuffling the identity table; everything the sampler needs of
//! them afterwards - that they really are permutations, and
//! that every lookup lands inside the gradient table - is proved here. The
//! gradient vectors themselves, and the interpolation of their dot products,
//! are floating-point work and live in the application around this crate.

use vstd::prelude::*;
use vstd::seq_lib::*;
use vstd::set_lib::*;
use vstd::arithmetic::div_mod::lemma_add_mod_noop;
use vstd::arithmetic::div_mod::lemma_mod_multiples_vanish;

verus! {

/// Number of entries in each permutation table, and of gradient vectors in
/// the noise sampler's table.
pub const PERLIN_POINT_COUNT: usize = 256;

/// A well-formed permutation table: one entry per possible byte value, no
/// two entries equal. Together with `lemma_permutation_table_onto` this says
/// the table is a permutation of the whole index range.
pub open spec fn is_permutation_table(s: Seq<u8>) -> bool {
    &&& s.len() == PERLIN_POINT_COUNT
    &&& s.no_duplicates()
}

/// Relies on rand::random_range over `0..bound`: the result is drawn
/// uniformly from that range, so it lies strictly below `bound`. The call
/// panics on an empty range, which the precondition rules out.
#[verifier::external_body]
fn random_index_below(bound: usize) -> (r: usize)
    requires
        1 <= bound,
    ensures
        r < bound,
{
    rand::random_range(0usize..bound)
}

/// One freshly shuffled permutation table: the identity table shuffled from
/// the top down, each entry swapping with a random strictly earlier one
/// (Sattolo's variant of the Fisher-Yates shuffle, which always yields a
/// single cycle). The swaps keep the entries pairwise distinct, which is all
/// the contract states.
fn gen_perm() -> (p: Vec<u8>)
    ensures
        is_permutation_table(p@),
{
    let mut p: Vec<u8> = Vec::new();
    let mut i: usize = 0;
    while i < PERLIN_POINT_COUNT
        invariant
            i <= PERLIN_POINT_COUNT,
            p@.len() == i as int,
            forall|k: int| 0 <= k < i as int ==> p@[k] == k as u8,
        decreases PERLIN_POINT_COUNT - i,
    {
        p.push(i as u8);
        i = i + 1;
    }
    let mut i: usize = PERLIN_POINT_COUNT - 1;
    while i >= 1
        invariant
            i < PERLIN_POINT_COUNT,
            p@.len() == PERLIN_POINT_COUNT,
            p@.no_duplicates(),
        decreases i,
    {
        let j = random_index_below(i);
        let ghost old_p = p@;
        let vi = p[i];
        let vj = p[j];
        p.set(i, vj);
        p.set(j, vi);
        assert forall|a: int, b: int| 0 <= a < b < p@.len() implies p@[a] != p@[b] by {
            let sa: int = if a == i as int {
                j as int
            } else if a == j as int {
                i as int
            } else {
                a
            };
            let sb: int = if b == i as int {
                j as int
            } else if b == j as int {
                i as int
            } else {
                b
            };
            assert(p@[a] == old_p[sa]);
            assert(p@[b] == old_p[sb]);
            assert(sa != sb);
            if sa < sb {
                assert(old_p[sa] != old_p[sb]);
            } else {
                assert(old_p[sb] != old_p[sa]);
            }
        }
        i = i - 1;
    }
    p
}

/// The three permutation tables of one Perlin noise instance.
pub struct PerlinPerms {
    perm_x: Vec<u8>,
    perm_y: Vec<u8>,
    perm_z: Vec<u8>,
}

impl PerlinPerms {
    /// The x-axis table's entries.
    pub closed spec fn xs(&self) -> Seq<u8> {
        self.perm_x@
    }

    /// The y-axis table's entries.
    pub closed spec fn ys(&self) -> Seq<u8> {
        self.perm_y@
    }

    /// The z-axis table's entries.
    pub closed spec fn zs(&self) -> Seq<u8> {
        self.perm_z@
    }

    /// All three tables are well-formed permutation tables.
    pub open spec fn wf(&self) -> bool {
        &&& is_permutation_table(self.xs())
        &&& is_permutation_table(self.ys())
        &&& is_permutation_table(self.zs())
    }

    /// The byte the three tables hash the lattice point `(x, y, z)` to: each
    /// coordinate is reduced modulo the table size, looked up in its own
    /// table, and the three entries are xored.
    pub open spec fn lattice_hash(&self, x: int, y: int, z: int) -> u8
        recommends
            self.wf(),
    {
        (self.xs()[x % (PERLIN_POINT_COUNT as int)] ^ self.ys()[y % (PERLIN_POINT_COUNT as int)])
            ^ self.zs()[z % (PERLIN_POINT_COUNT as int)]
    }

    /// Three freshly shuffled, mutually independent permutation tables.
    pub fn new() -> (p: PerlinPerms)
        ensures
            p.wf(),
    {
        PerlinPerms { perm_x: gen_perm(), perm_y: gen_perm(), perm_z: gen_perm() }
    }

    /// The x-axis table entry at `i`.
    pub fn x_at(&self, i: usize) -> (r: u8)
        requires
            self.wf(),
            i < PERLIN_POINT_COUNT,
        ensures
            r == self.xs()[i as int],
    {
        self.perm_x[i]
    }

    /// The y-axis table entry at `i`.
    pub fn y_at(&self, i: usize) -> (r: u8)
        requires
            self.wf(),
            i < PERLIN_POINT_COUNT,
        ensures
            r == self.ys()[i as int],
    {
        self.perm_y[i]
    }

    /// The z-axis table entry at `i`.
    pub fn z_at(&self, i: usize) -> (r: u8)
        requires
            self.wf(),
            i < PERLIN_POINT_COUNT,
        ensures
            r == self.zs()[i as int],
    {
        self.perm_z[i]
    }

    /// Index of the gradient vector at the lattice corner `(i + di, j + dj,
    /// k + dk)`, where `(i, j, k)` is the cell of the sample point and the
    /// offsets select one of the cell's eight corners. The result is the
    /// lattice hash of the corner, so it always lands inside a gradient
    /// table of `PERLIN_POINT_COUNT` entries.
    pub fn gradient_index(&self, i: usize, j: usize, k: usize, di: usize, dj: usize, dk: usize) -> (r:
        usize)
        requires
            self.wf(),
            di <= 1,
            dj <= 1,
            dk <= 1,
        ensures
            r == self.lattice_hash(i + di, j + dj, k + dk) as usize,
            r < PERLIN_POINT_COUNT,
    {
        proof {
            lemma_mask_is_mod(i);
            lemma_mask_is_mod(j);
            lemma_mask_is_mod(k);
        }
        let xb = (i & 255) + di;
        let yb = (j & 255) + dj;
        let zb = (k & 255) + dk;
        proof {
            lemma_mask_is_mod(xb);
            lemma_mask_is_mod(yb);
            lemma_mask_is_mod(zb);
            lemma_masked_add_mod(i as int, di as int);
            lemma_masked_add_mod(j as int, dj as int);
            lemma_masked_add_mod(k as int, dk as int);
        }
        let xi = xb & 255;
        let yi = yb & 255;
        let zi = zb & 255;
        let hx = self.perm_x[xi];
        let hy = self.perm_y[yi];
        let hz = self.perm_z[zi];
        ((hx ^ hy) ^ hz) as usize
    }
}

/// The lattice hash is periodic: the tables index modulo the table size, so
/// shifting any coordinate by a whole number of table lengths leaves the
/// hash, and with it the chosen gradient, unchanged.
pub proof fn lemma_lattice_hash_periodic(p: &PerlinPerms, x: int, y: int, z: int, n: int)
    ensures
        p.lattice_hash(x + n * (PERLIN_POINT_COUNT as int), y, z) == p.lattice_hash(x, y, z),
        p.lattice_hash(x, y + n * (PERLIN_POINT_COUNT as int), z) == p.lattice_hash(x, y, z),
        p.lattice_hash(x, y, z + n * (PERLIN_POINT_COUNT as int)) == p.lattice_hash(x, y, z),
{
    lemma_mod_multiples_vanish(n, x, PERLIN_POINT_COUNT as int);
    lemma_mod_multiples_vanish(n, y, PERLIN_POINT_COUNT as int);
    lemma_mod_multiples_vanish(n, z, PERLIN_POINT_COUNT as int);
}

/// Masking with the table size less one is reduction modulo the table size.
proof fn lemma_mask_is_mod(x: usize)
    ensures
        x & 255 == x % 256,
        x & 255 < 256,
{
    assert(x & 255 == x % 256) by (bit_vector);
    assert(x & 255 < 256) by (bit_vector);
}

/// Masking a coordinate before adding a corner offset of at most 1, then
/// masking again, reduces the exact sum modulo the table size.
proof fn lemma_masked_add_mod(c: int, d: int)
    requires
        0 <= c,
        0 <= d <= 1,
    ensures
        ((c % 256) + d) % 256 == (c + d) % 256,
        0 <= ((c % 256) + d) % 256 < 256,
{
    lemma_add_mod_noop(c, d, 256);
    assert(d % 256 == d);
}

/// Every byte occurs somewhere in a well-formed permutation table: a
/// duplicate-free sequence of 256 bytes of length 256 is onto, so the table
/// is a permutation of the whole index range.
pub proof fn lemma_permutation_table_onto(s: Seq<u8>, v: u8)
    requires
        is_permutation_table(s),
    ensures
        exists|i: int| 0 <= i < s.len() && s[i] == v,
{
    let f = |x: u8| x as int;
    let t = s.map_values(f);
    assert(t.no_duplicates()) by {
        s.lemma_no_duplicates_injective(f);
    }
    t.unique_seq_to_set();
    lemma_int_range(0, 256);
    assert(t.to_set().subset_of(set_int_range(0, 256))) by {
        assert forall|e: int| t.to_set().contains(e) implies set_int_range(0, 256).contains(e) by {
            let i = choose|i: int| 0 <= i < t.len() && t[i] == e;
            assert(e == s[i] as int);
        }
    }
    lemma_subset_equality(t.to_set(), set_int_range(0, 256));
    assert(set_int_range(0, 256).contains(v as int));
    assert(t.contains(v as int));
    let i = choose|i: int| 0 <= i < t.len() && t[i] == v as int;
    assert(s[i] == v);
}

} // verus!
