//! Perlin noise support: random permutation tables and hashed gradient
//! indexing.
//!
//! Perlin noise interpolates dot products of gradient vectors picked at the
//! corners of the unit cube around the queried point. The gradients are
//! floating point and live outside this library; what is held and verified
//! here is the integer state that addresses them: three independent random
//! permutations of `0 .. 256`, and the XOR-combined lookup that turns a
//! cube corner into an in-bounds gradient index.

use vstd::prelude::*;

verus! {

/// Number of gradient vectors, and length of each permutation table.
pub const POINT_COUNT: usize = 256;

/// `s` is a permutation of `0 .. 256`: full length, every entry in range,
/// no entry repeated.
pub open spec fn is_perm_table(s: Seq<usize>) -> bool {
    &&& s.len() == POINT_COUNT
    &&& forall|q: int| 0 <= q < s.len() ==> s[q] < POINT_COUNT
    &&& forall|q: int, r: int| 0 <= q < r < s.len() ==> s[q] != s[r]
}

#[verifier::external_type_specification]
#[verifier::external_body]
pub struct ExThreadRng(rand::rngs::ThreadRng);

/// Relies on rand's `Rng::gen_range` over the inclusive range `0..=bound`:
/// the draw lies in the range, and the range is never empty, so the call
/// cannot panic. Nothing else is assumed of the draw.
#[verifier::external_body]
fn random_index_up_to(rng: &mut rand::rngs::ThreadRng, bound: usize) -> (r: usize)
    ensures
        r <= bound,
{
    rand::Rng::gen_range(rng, 0..=bound)
}

/// Builds one permutation table: the identity table shuffled by swapping
/// each position, from the last down to the first, with a randomly drawn
/// position at or below it.
pub fn generate_perm(rng: &mut rand::rngs::ThreadRng) -> (p: Vec<usize>)
    ensures
        is_perm_table(p@),
{
    let mut p: Vec<usize> = Vec::new();
    let mut n: usize = 0;
    while n < POINT_COUNT
        invariant
            n <= POINT_COUNT,
            p@.len() == n,
            forall|q: int| 0 <= q < n ==> p@[q] == q,
        decreases POINT_COUNT - n,
    {
        p.push(n);
        n += 1;
    }
    let mut i: usize = POINT_COUNT;
    while i > 0
        invariant
            i <= POINT_COUNT,
            is_perm_table(p@),
        decreases i,
    {
        i -= 1;
        let target = random_index_up_to(rng, i);
        let ghost p0 = p@;
        let a = p[i];
        let b = p[target];
        p[i] = b;
        p[target] = a;
        proof {
            assert(p@ =~= p0.update(i as int, b).update(target as int, a));
            assert forall|q: int, r: int| 0 <= q < r < p@.len() implies p@[q] != p@[r] by {
                assert(p0[q] != p0[r]);
            }
        }
    }
    p
}

/// Reports whether `table` is a permutation of `0 .. 256`, by marking each
/// value as it is seen and rejecting out-of-range or repeated entries.
pub fn is_permutation_table(table: &Vec<usize>) -> (ok: bool)
    ensures
        ok == is_perm_table(table@),
{
    if table.len() != POINT_COUNT {
        return false;
    }
    let mut seen: Vec<bool> = Vec::new();
    let mut n: usize = 0;
    while n < POINT_COUNT
        invariant
            n <= POINT_COUNT,
            seen@.len() == n,
            forall|v: int| 0 <= v < n ==> !seen@[v],
        decreases POINT_COUNT - n,
    {
        seen.push(false);
        n += 1;
    }
    let mut idx: usize = 0;
    while idx < POINT_COUNT
        invariant
            idx <= POINT_COUNT,
            table@.len() == POINT_COUNT,
            seen@.len() == POINT_COUNT,
            forall|q: int| 0 <= q < idx ==> table@[q] < POINT_COUNT,
            forall|q: int, r: int| 0 <= q < r < idx ==> table@[q] != table@[r],
            forall|v: int| 0 <= v < POINT_COUNT ==> (seen@[v] <==> exists|q: int|
                0 <= q < idx && table@[q] == v),
        decreases POINT_COUNT - idx,
    {
        let v = table[idx];
        if v >= POINT_COUNT {
            return false;
        }
        if seen[v] {
            return false;
        }
        seen[v] = true;
        idx += 1;
    }
    true
}

/// A permutation table does not only avoid repeats: it reaches every value
/// below 256, so a shuffled table can still select every gradient vector.
pub proof fn lemma_perm_table_onto(s: Seq<usize>, v: usize)
    requires
        is_perm_table(s),
        v < POINT_COUNT,
    ensures
        exists|q: int| 0 <= q < s.len() && s[q] == v,
{
    broadcast use vstd::seq_lib::seq_to_set_is_finite;

    let ints = s.map_values(|x: usize| x as int);
    assert forall|q: int, r: int|
        0 <= q < ints.len() && 0 <= r < ints.len() && q != r implies ints[q] != ints[r] by {
        if q < r {
            assert(s[q] != s[r]);
        } else {
            assert(s[r] != s[q]);
        }
    }
    ints.unique_seq_to_set();
    let range = vstd::set_lib::set_int_range(0, POINT_COUNT as int);
    vstd::set_lib::lemma_int_range(0, POINT_COUNT as int);
    assert forall|a: int| ints.to_set().contains(a) implies range.contains(a) by {
        let q = choose|q: int| 0 <= q < ints.len() && ints[q] == a;
        assert(s[q] < POINT_COUNT);
    }
    vstd::set_lib::lemma_subset_equality(ints.to_set(), range);
    assert(range.contains(v as int));
    assert(ints.contains(v as int));
    let q = choose|q: int| 0 <= q < ints.len() && ints[q] == v as int;
    assert(s[q] == v);
}

/// The table slot read for a cube corner: the corner coordinate wrapped to
/// the table's range, moved by the corner offset, and wrapped again.
pub open spec fn corner_slot(base: i32, d: int) -> int {
    ((base & 255) + d) % 256
}

proof fn lemma_mask_bounds(x: i32)
    ensures
        0 <= (x & 255) < 256,
{
    assert(0 <= (x & 255) && (x & 255) < 256) by (bit_vector);
}

proof fn lemma_xor_below_256(a: usize, b: usize)
    requires
        a < 256,
        b < 256,
    ensures
        (a ^ b) < 256,
{
    assert(a < 256 && b < 256 ==> (a ^ b) < 256) by (bit_vector);
}

fn perm_lookup(table: &Vec<usize>, base: i32, d: usize) -> (v: usize)
    requires
        is_perm_table(table@),
        d < 2,
    ensures
        v == table@[corner_slot(base, d as int)],
        v < POINT_COUNT,
{
    proof {
        lemma_mask_bounds(base);
    }
    let low = (base & 255) as usize;
    let slot = (low + d) % POINT_COUNT;
    table[slot]
}

/// The integer state of a Perlin noise generator: three independent random
/// permutations of `0 .. 256`, one per axis. The matching table of random
/// gradient vectors is floating point and is held by the caller; every
/// index this type hands out is a valid position in that table.
#[derive(Clone)]
pub struct Perlin {
    pub perm_x: Vec<usize>,
    pub perm_y: Vec<usize>,
    pub perm_z: Vec<usize>,
}

impl Perlin {
    /// Each of the three tables is a permutation of `0 .. 256`.
    pub open spec fn wf(self) -> bool {
        &&& is_perm_table(self.perm_x@)
        &&& is_perm_table(self.perm_y@)
        &&& is_perm_table(self.perm_z@)
    }

    /// Draws three fresh random permutation tables.
    pub fn new(rng: &mut rand::rngs::ThreadRng) -> (perlin: Self)
        ensures
            perlin.wf(),
    {
        Perlin {
            perm_x: generate_perm(rng),
            perm_y: generate_perm(rng),
            perm_z: generate_perm(rng),
        }
    }

    /// Checked constructor from given tables: succeeds exactly when each
    /// table is a permutation of `0 .. 256`, and keeps the tables as given.
    pub fn from_tables(perm_x: Vec<usize>, perm_y: Vec<usize>, perm_z: Vec<usize>) -> (r: Option<
        Self,
    >)
        ensures
            r is Some <==> is_perm_table(perm_x@) && is_perm_table(perm_y@) && is_perm_table(
                perm_z@,
            ),
            r matches Some(perlin) ==> perlin.perm_x@ == perm_x@ && perlin.perm_y@ == perm_y@
                && perlin.perm_z@ == perm_z@ && perlin.wf(),
    {
        if is_permutation_table(&perm_x) && is_permutation_table(&perm_y) && is_permutation_table(
            &perm_z,
        ) {
            Some(Perlin { perm_x, perm_y, perm_z })
        } else {
            None
        }
    }

    /// The hashed gradient index this generator assigns to one corner of
    /// the unit cube around a queried point.
    pub open spec fn gradient_index_spec(self, i: i32, j: i32, k: i32, di: int, dj: int, dk: int) -> usize {
        (self.perm_x@[corner_slot(i, di)] ^ self.perm_y@[corner_slot(j, dj)])
            ^ self.perm_z@[corner_slot(k, dk)]
    }

    /// Looks up the gradient index for the cube corner at integer base
    /// coordinates `(i, j, k)` plus offsets `(di, dj, dk)` in `{0, 1}`:
    /// one permutation lookup per axis, XOR-combined to decorrelate the
    /// axes. The result always addresses the 256-entry gradient table.
    pub fn gradient_index(&self, i: i32, j: i32, k: i32, di: usize, dj: usize, dk: usize) -> (g:
        usize)
        requires
            self.wf(),
            di < 2,
            dj < 2,
            dk < 2,
        ensures
            g == self.gradient_index_spec(i, j, k, di as int, dj as int, dk as int),
            g < POINT_COUNT,
    {
        let x = perm_lookup(&self.perm_x, i, di);
        let y = perm_lookup(&self.perm_y, j, dj);
        let z = perm_lookup(&self.perm_z, k, dk);
        proof {
            lemma_xor_below_256(x, y);
            lemma_xor_below_256(x ^ y, z);
        }
        (x ^ y) ^ z
    }
}

} // verus!
