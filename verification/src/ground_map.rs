use vstd::prelude::*;

use crate::generate_landscape::GenerateLandscape;

verus! {

/// Number of lattice vertices along one side of a ground cell.
pub const TOTAL_VERTICES_ONE_SIDE: i32 = 16;

/// Number of heading sectors (of 45 degrees each) the map keeps a layout for.
pub const SECTORS: usize = 8;

/// Whether the flat list `s` of (x, z) pairs holds the pair (`a`, `b`).
/// A trailing element without a partner is not a pair.
pub open spec fn has_pair(s: Seq<i32>, a: i32, b: i32) -> bool {
    exists|j: int| 0 <= j < s.len() / 2 && #[trigger] s[2 * j] == a && s[2 * j + 1] == b
}

/// The first `k` pairs of `original`, in order, without those that
/// `to_remove` holds, flattened back into a list.
pub open spec fn kept_pairs(to_remove: Seq<i32>, original: Seq<i32>, k: nat) -> Seq<i32>
    decreases k,
{
    if k == 0 {
        Seq::empty()
    } else {
        let prev = kept_pairs(to_remove, original, (k - 1) as nat);
        let a = original[2 * (k - 1)];
        let b = original[2 * (k - 1) + 1];
        if has_pair(to_remove, a, b) {
            prev
        } else {
            prev + seq![a, b]
        }
    }
}

/// `original` read as a list of (x, z) pairs, with every pair that
/// `to_remove` also holds left out.
pub open spec fn spec_remove(to_remove: Seq<i32>, original: Seq<i32>) -> Seq<i32> {
    kept_pairs(to_remove, original, original.len() / 2)
}

/// Whether `remove` runs to its end on these lists: `original` is made of
/// whole pairs, and an unpaired last element of `to_remove` never equals the
/// first half of a pair of `original` (the comparison would then read its
/// missing partner).
pub open spec fn remove_accepts(to_remove: Seq<i32>, original: Seq<i32>) -> bool {
    &&& original.len() % 2 == 0
    &&& (to_remove.len() % 2 == 1 ==> forall|i: int|
        0 <= i < original.len() / 2 ==> #[trigger] original[2 * i] != to_remove.last())
}

/// Removes from the flat list of (x, z) pairs `original` every pair that
/// also occurs in `to_remove`, keeping the order of the rest.
pub fn remove(to_remove: Vec<i32>, original: Vec<i32>) -> (dest: Vec<i32>)
    requires
        remove_accepts(to_remove@, original@),
    ensures
        dest@ == spec_remove(to_remove@, original@),
{
    let mut dest: Vec<i32> = Vec::new();
    let n = original.len() / 2;
    let m = to_remove.len() / 2;
    let mut i: usize = 0;
    while i < n
        invariant
            n == original.len() / 2,
            m == to_remove.len() / 2,
            i <= n,
            dest@ == kept_pairs(to_remove@, original@, i as nat),
        decreases n - i,
    {
        let a = original[2 * i];
        let b = original[2 * i + 1];
        let mut add = true;
        let mut j: usize = 0;
        while j < m
            invariant
                m == to_remove.len() / 2,
                j <= m,
                add == !(exists|k: int|
                    0 <= k < j && #[trigger] to_remove@[2 * k] == a && to_remove@[2 * k + 1] == b),
            decreases m - j,
        {
            if to_remove[2 * j] == a && to_remove[2 * j + 1] == b {
                add = false;
            }
            j = j + 1;
        }
        assert(add == !has_pair(to_remove@, a, b));
        if add {
            dest.push(a);
            dest.push(b);
        }
        assert(dest@ == kept_pairs(to_remove@, original@, (i + 1) as nat));
        i = i + 1;
    }
    dest
}

/// Appending one pair to a list of whole pairs adds exactly that pair.
proof fn lemma_has_pair_append(s: Seq<i32>, x: i32, y: i32, a: i32, b: i32)
    requires
        s.len() % 2 == 0,
    ensures
        has_pair(s + seq![x, y], a, b) <==> (has_pair(s, a, b) || (x == a && y == b)),
{
    let t = s + seq![x, y];
    assert(t.len() / 2 == s.len() / 2 + 1);
    if has_pair(t, a, b) {
        let j = choose|j: int| 0 <= j < t.len() / 2 && #[trigger] t[2 * j] == a && t[2 * j + 1] == b;
        if j < s.len() / 2 {
            assert(s[2 * j] == t[2 * j]);
            assert(s[2 * j + 1] == t[2 * j + 1]);
        } else {
            assert(t[2 * j] == x);
            assert(t[2 * j + 1] == y);
        }
    }
    if has_pair(s, a, b) {
        let j = choose|j: int| 0 <= j < s.len() / 2 && #[trigger] s[2 * j] == a && s[2 * j + 1] == b;
        assert(t[2 * j] == s[2 * j]);
        assert(t[2 * j + 1] == s[2 * j + 1]);
    }
    if x == a && y == b {
        let j: int = (s.len() / 2) as int;
        assert(t[2 * j] == x);
        assert(t[2 * j + 1] == y);
    }
}

/// What the first `k` pairs of `original` keep is a list of whole pairs,
/// and it holds a pair exactly when one of those `k` pairs is that pair and
/// `to_remove` does not hold it.
proof fn lemma_kept_pairs(to_remove: Seq<i32>, original: Seq<i32>, k: nat, a: i32, b: i32)
    requires
        2 * k <= original.len(),
    ensures
        kept_pairs(to_remove, original, k).len() % 2 == 0,
        kept_pairs(to_remove, original, k).len() <= 2 * k,
        has_pair(kept_pairs(to_remove, original, k), a, b) <==> (exists|j: int|
            0 <= j < k && #[trigger] original[2 * j] == a && original[2 * j + 1] == b)
            && !has_pair(to_remove, a, b),
    decreases k,
{
    if k > 0 {
        let km: int = k - 1;
        lemma_kept_pairs(to_remove, original, km as nat, a, b);
        let prev = kept_pairs(to_remove, original, km as nat);
        let x = original[2 * km];
        let y = original[2 * km + 1];
        if !has_pair(to_remove, x, y) {
            lemma_has_pair_append(prev, x, y, a, b);
        }
        if exists|j: int| 0 <= j < k && #[trigger] original[2 * j] == a && original[2 * j + 1] == b {
            let j = choose|j: int| 0 <= j < k && #[trigger] original[2 * j] == a && original[2 * j + 1] == b;
            if j < km {
                assert(exists|j: int| 0 <= j < km && #[trigger] original[2 * j] == a && original[2 * j + 1] == b);
            }
        }
        if exists|j: int| 0 <= j < km && #[trigger] original[2 * j] == a && original[2 * j + 1] == b {
            let j = choose|j: int| 0 <= j < km && #[trigger] original[2 * j] == a && original[2 * j + 1] == b;
            assert(0 <= j < k && original[2 * j] == a && original[2 * j + 1] == b);
        }
    }
}

/// Removing pairs that a list of whole pairs does not hold leaves its first
/// `k` pairs as they are.
proof fn lemma_kept_pairs_untouched(to_remove: Seq<i32>, s: Seq<i32>, k: nat)
    requires
        2 * k <= s.len(),
        forall|j: int| 0 <= j < s.len() / 2 ==> !has_pair(to_remove, #[trigger] s[2 * j], s[2 * j + 1]),
    ensures
        kept_pairs(to_remove, s, k) == s.subrange(0, 2 * k as int),
    decreases k,
{
    if k > 0 {
        let km: int = k - 1;
        lemma_kept_pairs_untouched(to_remove, s, km as nat);
        assert(!has_pair(to_remove, s[2 * km], s[2 * km + 1]));
        assert(s.subrange(0, 2 * km) + seq![s[2 * km], s[2 * km + 1]] =~= s.subrange(0, 2 * k as int));
    }
}

/// Removing what `original` itself holds leaves nothing of its first `k` pairs.
proof fn lemma_kept_pairs_self(original: Seq<i32>, k: nat)
    requires
        2 * k <= original.len(),
    ensures
        kept_pairs(original, original, k) == Seq::<i32>::empty(),
    decreases k,
{
    if k > 0 {
        let km: int = k - 1;
        lemma_kept_pairs_self(original, km as nat);
        let x = original[2 * km];
        let y = original[2 * km + 1];
        assert(has_pair(original, x, y));
    }
}

/// A pair stays after `remove` exactly when `original` holds it and
/// `to_remove` does not; what comes back is again a list of whole pairs.
pub proof fn law_remove_keeps_exactly_the_pairs_not_removed(
    to_remove: Seq<i32>,
    original: Seq<i32>,
    a: i32,
    b: i32,
)
    requires
        original.len() % 2 == 0,
    ensures
        spec_remove(to_remove, original).len() % 2 == 0,
        spec_remove(to_remove, original).len() <= original.len(),
        has_pair(spec_remove(to_remove, original), a, b) <==> has_pair(original, a, b) && !has_pair(
            to_remove,
            a,
            b,
        ),
{
    lemma_kept_pairs(to_remove, original, original.len() / 2, a, b);
}

/// Removing the same pairs a second time changes nothing.
pub proof fn law_remove_is_idempotent(to_remove: Seq<i32>, original: Seq<i32>)
    requires
        original.len() % 2 == 0,
    ensures
        spec_remove(to_remove, spec_remove(to_remove, original)) == spec_remove(to_remove, original),
{
    let once = spec_remove(to_remove, original);
    lemma_kept_pairs(to_remove, original, original.len() / 2, 0, 0);
    assert forall|j: int| 0 <= j < once.len() / 2 implies !has_pair(
        to_remove,
        #[trigger] once[2 * j],
        once[2 * j + 1],
    ) by {
        lemma_kept_pairs(to_remove, original, original.len() / 2, once[2 * j], once[2 * j + 1]);
        assert(has_pair(once, once[2 * j], once[2 * j + 1]));
    }
    lemma_kept_pairs_untouched(to_remove, once, once.len() / 2);
    assert(once.subrange(0, 2 * (once.len() / 2) as int) =~= once);
}

/// Removing nothing gives back the list unchanged.
pub proof fn law_remove_nothing_is_identity(original: Seq<i32>)
    requires
        original.len() % 2 == 0,
    ensures
        spec_remove(Seq::empty(), original) == original,
{
    lemma_kept_pairs_untouched(Seq::empty(), original, original.len() / 2);
    assert(original.subrange(0, 2 * (original.len() / 2) as int) =~= original);
}

/// Removing a list's own pairs from it leaves nothing.
pub proof fn law_remove_all_leaves_nothing(original: Seq<i32>)
    requires
        original.len() % 2 == 0,
    ensures
        spec_remove(original, original) == Seq::<i32>::empty(),
{
    lemma_kept_pairs_self(original, original.len() / 2);
}

/// A list of whole pairs followed by another list holds exactly the pairs
/// of either.
proof fn lemma_has_pair_concat(a: Seq<i32>, b: Seq<i32>, x: i32, y: i32)
    requires
        a.len() % 2 == 0,
    ensures
        has_pair(a + b, x, y) <==> has_pair(a, x, y) || has_pair(b, x, y),
{
    let t = a + b;
    let h = a.len() / 2;
    assert(t.len() / 2 == h + b.len() / 2);
    if has_pair(t, x, y) {
        let j = choose|j: int| 0 <= j < t.len() / 2 && #[trigger] t[2 * j] == x && t[2 * j + 1] == y;
        if j < h {
            assert(a[2 * j] == t[2 * j] && a[2 * j + 1] == t[2 * j + 1]);
        } else {
            let jj = j - h;
            assert(b[2 * jj] == t[2 * j] && b[2 * jj + 1] == t[2 * j + 1]);
        }
    }
    if has_pair(a, x, y) {
        let j = choose|j: int| 0 <= j < a.len() / 2 && #[trigger] a[2 * j] == x && a[2 * j + 1] == y;
        assert(t[2 * j] == a[2 * j] && t[2 * j + 1] == a[2 * j + 1]);
    }
    if has_pair(b, x, y) {
        let j = choose|j: int| 0 <= j < b.len() / 2 && #[trigger] b[2 * j] == x && b[2 * j + 1] == y;
        let jj = j + h;
        assert(t[2 * jj] == b[2 * j] && t[2 * jj + 1] == b[2 * j + 1]);
    }
}

/// What the first `k` pairs keep depends only on those pairs.
proof fn lemma_kept_pairs_prefix(to_remove: Seq<i32>, s1: Seq<i32>, s2: Seq<i32>, k: nat)
    requires
        2 * k <= s1.len(),
        2 * k <= s2.len(),
        forall|i: int| 0 <= i < 2 * k ==> s1[i] == s2[i],
    ensures
        kept_pairs(to_remove, s1, k) == kept_pairs(to_remove, s2, k),
    decreases k,
{
    if k > 0 {
        lemma_kept_pairs_prefix(to_remove, s1, s2, (k - 1) as nat);
        assert(s1[2 * (k - 1)] == s2[2 * (k - 1)]);
        assert(s1[2 * (k - 1) + 1] == s2[2 * (k - 1) + 1]);
    }
}

/// Two removal lists that hold the same of the first `k` pairs keep the same.
proof fn lemma_kept_pairs_congruent(t1: Seq<i32>, t2: Seq<i32>, original: Seq<i32>, k: nat)
    requires
        2 * k <= original.len(),
        forall|j: int|
            0 <= j < k ==> (has_pair(t1, #[trigger] original[2 * j], original[2 * j + 1]) <==> has_pair(
                t2,
                original[2 * j],
                original[2 * j + 1],
            )),
    ensures
        kept_pairs(t1, original, k) == kept_pairs(t2, original, k),
    decreases k,
{
    if k > 0 {
        lemma_kept_pairs_congruent(t1, t2, original, (k - 1) as nat);
        let km: int = k - 1;
        assert(has_pair(t1, original[2 * km], original[2 * km + 1]) <==> has_pair(
            t2,
            original[2 * km],
            original[2 * km + 1],
        ));
    }
}

/// Removing `b` and then `a` from the first `k` pairs keeps what removing
/// `a` and `b` together keeps.
proof fn lemma_kept_pairs_compose(a: Seq<i32>, b: Seq<i32>, original: Seq<i32>, k: nat)
    requires
        a.len() % 2 == 0,
        2 * k <= original.len(),
    ensures
        kept_pairs(a, kept_pairs(b, original, k), kept_pairs(b, original, k).len() / 2) == kept_pairs(
            a + b,
            original,
            k,
        ),
    decreases k,
{
    if k > 0 {
        let km: int = k - 1;
        lemma_kept_pairs_compose(a, b, original, km as nat);
        let s = kept_pairs(b, original, km as nat);
        lemma_kept_pairs(b, original, km as nat, 0, 0);
        let x = original[2 * km];
        let y = original[2 * km + 1];
        lemma_has_pair_concat(a, b, x, y);
        if !has_pair(b, x, y) {
            let s2 = s + seq![x, y];
            let h: nat = s.len() / 2;
            assert(s2.len() / 2 == h + 1);
            lemma_kept_pairs_prefix(a, s2, s, h);
            assert(s2[2 * h as int] == x && s2[2 * h as int + 1] == y);
            assert(kept_pairs(a, s2, h + 1) == {
                let prev = kept_pairs(a, s2, h);
                if has_pair(a, x, y) {
                    prev
                } else {
                    prev + seq![x, y]
                }
            });
        }
    }
}

/// Removing the pairs of `a` and `b` at once is removing those of `b` and
/// then those of `a`, and the order of the two removals does not matter.
pub proof fn law_remove_concatenation_is_removal_in_turn(a: Seq<i32>, b: Seq<i32>, original: Seq<i32>)
    requires
        a.len() % 2 == 0,
        b.len() % 2 == 0,
        original.len() % 2 == 0,
    ensures
        spec_remove(a + b, original) == spec_remove(a, spec_remove(b, original)),
        spec_remove(a, spec_remove(b, original)) == spec_remove(b, spec_remove(a, original)),
{
    let n: nat = original.len() / 2;
    lemma_kept_pairs_compose(a, b, original, n);
    lemma_kept_pairs_compose(b, a, original, n);
    assert forall|j: int| 0 <= j < n implies (has_pair(a + b, #[trigger] original[2 * j], original[2 * j + 1])
        <==> has_pair(b + a, original[2 * j], original[2 * j + 1])) by {
        lemma_has_pair_concat(a, b, original[2 * j], original[2 * j + 1]);
        lemma_has_pair_concat(b, a, original[2 * j], original[2 * j + 1]);
    }
    lemma_kept_pairs_congruent(a + b, b + a, original, n);
}

/// The layout shown for every heading: the 5 x 5 block of cell offsets
/// around the player's cell, as a flat list of (x, z) pairs, row by row
/// from z = -2 to z = 2 and within a row from x = -2 to x = 2.
pub open spec fn full_layout() -> Seq<i32> {
    Seq::new(50, |i: int| if i % 2 == 0 { ((i / 2) % 5 - 2) as i32 } else { ((i / 2) / 5 - 2) as i32 })
}

/// The flat list `s` of (x, z) pairs read as a list of pairs.
pub open spec fn as_pairs(s: Seq<i32>) -> Seq<(i32, i32)> {
    Seq::new(s.len() / 2, |j: int| (s[2 * j], s[2 * j + 1]))
}

/// Builds the flat list of the 25 cell offsets of `full_layout`.
fn build_full_layout() -> (all: Vec<i32>)
    ensures
        all@ == full_layout(),
{
    let mut all: Vec<i32> = Vec::new();
    let mut z: i32 = -2;
    while z <= 2
        invariant
            -2 <= z <= 3,
            all@ == full_layout().subrange(0, 10 * (z + 2)),
        decreases 3 - z,
    {
        let mut x: i32 = -2;
        while x <= 2
            invariant
                -2 <= z <= 2,
                -2 <= x <= 3,
                all@ == full_layout().subrange(0, 10 * (z + 2) + 2 * (x + 2)),
            decreases 3 - x,
        {
            let ghost before = all@;
            all.push(x);
            all.push(z);
            proof {
                let p = 5 * (z + 2) + (x + 2);
                assert((2 * p) / 2 == p);
                assert((2 * p + 1) / 2 == p);
                assert(p % 5 == x + 2 && p / 5 == z + 2);
                assert(all@ =~= full_layout().subrange(0, 10 * (z + 2) + 2 * (x + 3)));
            }
            x = x + 1;
        }
        z = z + 1;
    }
    assert(all@ =~= full_layout());
    all
}

/// The ground around the player: the texture the cells are drawn with, the
/// cells currently built, the cell layout for each of the eight heading
/// sectors, and the landscape that gives the heights. `C` is the type of a
/// built cell, which belongs to the renderer.
pub struct GroundMap<C> {
    ground_texture: u32,
    ground_cells: Vec<C>,
    display_map: Vec<Vec<i32>>,
    landscape: GenerateLandscape,
}

impl<C> GroundMap<C> {
    /// Every sector has a layout made of whole (x, z) pairs.
    #[verifier::type_invariant]
    closed spec fn layouts_are_pairs(self) -> bool {
        &&& self.display_map@.len() == SECTORS
        &&& forall|i: int| 0 <= i < SECTORS ==> (#[trigger] self.display_map@[i])@.len() % 2 == 0
    }

    /// The layout (flat list of (x, z) pairs) of heading sector `sector`.
    pub closed spec fn layout(&self, sector: int) -> Seq<i32> {
        self.display_map@[sector]@
    }

    /// The cells currently built.
    pub closed spec fn cells(&self) -> Seq<C> {
        self.ground_cells@
    }

    /// The texture the cells are drawn with.
    pub closed spec fn texture(&self) -> u32 {
        self.ground_texture
    }

    /// A ground map drawn with `ground_texture`, with no cell built yet and
    /// the full 5 x 5 layout for every heading sector.
    pub fn new(ground_texture: u32) -> (g: GroundMap<C>)
        ensures
            g.texture() == ground_texture,
            g.cells() == Seq::<C>::empty(),
            forall|i: int| 0 <= i < SECTORS ==> #[trigger] g.layout(i) == full_layout(),
    {
        let all = build_full_layout();
        let mut display_map: Vec<Vec<i32>> = Vec::new();
        let mut i: usize = 0;
        while i < SECTORS
            invariant
                i <= SECTORS,
                all@ == full_layout(),
                display_map@.len() == i,
                forall|j: int| 0 <= j < i ==> (#[trigger] display_map@[j])@ == full_layout(),
            decreases SECTORS - i,
        {
            display_map.push(all.clone());
            i = i + 1;
        }
        GroundMap { ground_texture, ground_cells: Vec::new(), display_map, landscape: GenerateLandscape::new() }
    }

    /// The texture the cells are drawn with.
    pub fn ground_texture(&self) -> (t: u32)
        ensures
            t == self.texture(),
    {
        self.ground_texture
    }

    /// The landscape that gives the heights.
    pub fn landscape(&self) -> (l: &GenerateLandscape)
    {
        &self.landscape
    }

    /// The cells currently built.
    pub fn ground_cells(&self) -> (c: &Vec<C>)
        ensures
            c@ == self.cells(),
    {
        &self.ground_cells
    }

    /// Puts `cells` in place of the cells built so far and hands those back,
    /// so that the renderer can free them.
    pub fn replace_cells(&mut self, cells: Vec<C>) -> (old_cells: Vec<C>)
        ensures
            old_cells@ == old(self).cells(),
            final(self).cells() == cells@,
            final(self).texture() == old(self).texture(),
            forall|i: int| 0 <= i < SECTORS ==> #[trigger] final(self).layout(i) == old(self).layout(i),
    {
        proof {
            use_type_invariant(&*self);
        }
        let mut cells = cells;
        std::mem::swap(&mut cells, &mut self.ground_cells);
        cells
    }

    /// The cell offsets to build for heading sector `sector` (the heading
    /// divided into 45 degree slices), as (x, z) pairs.
    pub fn display_offsets(&self, sector: usize) -> (offsets: Vec<(i32, i32)>)
        requires
            sector < SECTORS,
        ensures
            offsets@ == as_pairs(self.layout(sector as int)),
    {
        proof {
            use_type_invariant(self);
        }
        let to_display = &self.display_map[sector];
        let mut offsets: Vec<(i32, i32)> = Vec::new();
        let mut i: usize = 0;
        while i < to_display.len()
            invariant
                to_display.len() % 2 == 0,
                i % 2 == 0,
                i <= to_display.len(),
                offsets@ == as_pairs(to_display@).subrange(0, (i / 2) as int),
            decreases to_display.len() - i,
        {
            let x = to_display[i];
            let z = to_display[i + 1];
            offsets.push((x, z));
            assert(offsets@ =~= as_pairs(to_display@).subrange(0, ((i + 2) / 2) as int));
            i = i + 2;
        }
        assert(offsets@ =~= as_pairs(to_display@));
        offsets
    }
}

} // verus!
