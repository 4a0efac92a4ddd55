use vstd::prelude::*;

use crate::randomness::gen_range_i32;
use rand::rngs::ThreadRng;

verus! {

/// Fragments an explosion throws besides its core.
pub const EXPLOSION_FRAGMENTS: usize = 30;

/// Frames the core of an explosion lasts.
pub const CORE_TICKS: i32 = 8;

/// A fragment of an explosion: where it is and where it flies (vectors of
/// the renderer, type `V`), its scale and speed (scalars of the renderer,
/// type `S`), the frames it has left, and the frames it has been shown (which
/// pick its colour).
pub struct SpecialInstance<V, S> {
    pub position: V,
    pub direction: V,
    pub scale: S,
    pub ticks: i32,
    pub speed: S,
    pub tex_index: usize,
}

impl<V, S> SpecialInstance<V, S> {
    /// The index of the colour to draw the fragment with, out of
    /// `n_colours`, cycling each time it is drawn.
    pub fn next_colour(&mut self, n_colours: usize) -> (c: usize)
        requires
            n_colours > 0,
            old(self).tex_index < usize::MAX,
        ensures
            c == old(self).tex_index % n_colours,
            c < n_colours,
            final(self).tex_index == old(self).tex_index + 1,
            final(self).ticks == old(self).ticks,
    {
        let c = self.tex_index % n_colours;
        self.tex_index = self.tex_index + 1;
        c
    }
}

/// The fragment one frame older.
pub open spec fn aged<V, S>(f: SpecialInstance<V, S>) -> SpecialInstance<V, S> {
    SpecialInstance { tex_index: (f.tex_index + 1) as usize, ticks: (f.ticks - 1) as i32, ..f }
}

/// `aged`, as a function value.
pub open spec fn aged_fn<V, S>() -> spec_fn(SpecialInstance<V, S>) -> SpecialInstance<V, S> {
    |f: SpecialInstance<V, S>| aged(f)
}

/// Whether a fragment is still shown.
pub open spec fn alive_fn<V, S>() -> spec_fn(SpecialInstance<V, S>) -> bool {
    |f: SpecialInstance<V, S>| f.ticks > 0
}

/// What a frame leaves of the fragments: each a frame older, those out of
/// time gone, the order kept.
pub open spec fn spec_age_effects<V, S>(fs: Seq<SpecialInstance<V, S>>) -> Seq<SpecialInstance<V, S>> {
    fs.map_values(aged_fn()).filter(alive_fn())
}

/// Makes every fragment a frame older and removes those out of time. The
/// caller moves or shrinks the fragments first.
pub fn age_effects<V, S>(instances: &mut Vec<SpecialInstance<V, S>>)
    requires
        forall|i: int|
            0 <= i < old(instances)@.len() ==> #[trigger] old(instances)@[i].ticks > i32::MIN
                && old(instances)@[i].tex_index < usize::MAX,
    ensures
        final(instances)@ == spec_age_effects(old(instances)@),
{
    let ghost orig = instances@;
    let ghost f = aged_fn::<V, S>();
    let ghost p = alive_fn::<V, S>();
    let mut i = instances.len();
    while i >= 1
        invariant
            f == aged_fn::<V, S>(),
            p == alive_fn::<V, S>(),
            i <= orig.len(),
            forall|j: int|
                0 <= j < orig.len() ==> #[trigger] orig[j].ticks > i32::MIN && orig[j].tex_index < usize::MAX,
            instances@ == orig.take(i as int) + orig.skip(i as int).map_values(f).filter(p),
        decreases i,
    {
        i = i - 1;
        proof {
            assert(instances@[i as int] == orig[i as int]);
            assert(orig[i as int].ticks > i32::MIN);
        }
        let mut change = instances.remove(i);
        change.tex_index = change.tex_index + 1;
        change.ticks = change.ticks - 1;
        let keep = change.ticks > 0;
        proof {
            let rest = orig.skip(i + 1).map_values(f);
            assert forall|k: int| 0 <= k < orig.skip(i as int).len() implies #[trigger] orig.skip(
                i as int,
            ).map_values(f)[k] == (seq![aged(orig[i as int])] + rest)[k] by {
                if k > 0 {
                    assert(orig.skip(i as int)[k] == orig.skip(i + 1)[k - 1]);
                }
            }
            assert(orig.skip(i as int).map_values(f) =~= seq![aged(orig[i as int])] + rest);
            rest.lemma_filter_prepend(aged(orig[i as int]), p);
            assert(orig.take(i + 1) =~= orig.take(i as int).push(orig[i as int]));
        }
        if keep {
            instances.insert(i, change);
        }
        assert(instances@ =~= orig.take(i as int) + orig.skip(i as int).map_values(f).filter(p));
    }
    assert(orig.take(0) =~= Seq::<SpecialInstance<V, S>>::empty());
    assert(orig.skip(0) =~= orig);
}

/// The fragments after `n` frames.
pub open spec fn aged_for<V, S>(fs: Seq<SpecialInstance<V, S>>, n: nat) -> Seq<SpecialInstance<V, S>>
    decreases n,
{
    if n == 0 {
        fs
    } else {
        spec_age_effects(aged_for(fs, (n - 1) as nat))
    }
}

/// Every fragment has more than `lo` and at most `hi` frames left.
pub open spec fn ticks_within<V, S>(fs: Seq<SpecialInstance<V, S>>, lo: int, hi: int) -> bool {
    forall|i: int| 0 <= i < fs.len() ==> lo < #[trigger] fs[i].ticks <= hi
}

/// A frame leaves only fragments with time left, each a frame older.
proof fn lemma_age_step<V, S>(fs: Seq<SpecialInstance<V, S>>, hi: int)
    requires
        ticks_within(fs, i32::MIN as int, hi),
    ensures
        ticks_within(spec_age_effects(fs), 0, hi - 1),
{
    let mapped = fs.map_values(aged_fn::<V, S>());
    let p = alive_fn::<V, S>();
    let out = spec_age_effects(fs);
    assert forall|i: int| 0 <= i < out.len() implies 0 < #[trigger] out[i].ticks <= hi - 1 by {
        mapped.lemma_filter_pred(p, i);
        assert(mapped.filter(p).contains(out[i]));
        mapped.lemma_filter_contains_rev(p, out[i]);
        let j = choose|j: int| 0 <= j < mapped.len() && mapped[j] == out[i];
        assert(mapped[j] == aged(fs[j]));
    }
}

/// After `n` frames, up to 29, a set of fragments that each had at most 29
/// frames left has fragments with at most `29 - n` frames left.
proof fn lemma_aged_for<V, S>(fs: Seq<SpecialInstance<V, S>>, n: nat)
    requires
        ticks_within(fs, i32::MIN as int, 29),
        1 <= n <= 29,
    ensures
        ticks_within(aged_for(fs, n), 0, 29 - n),
    decreases n,
{
    if n == 1 {
        assert(aged_for(fs, 0) == fs);
        lemma_age_step(fs, 29);
    } else {
        lemma_aged_for(fs, (n - 1) as nat);
        lemma_age_step(aged_for(fs, (n - 1) as nat), 29 - (n - 1));
    }
}

/// Fragments that each have at most 29 frames left, as every block of an
/// explosion has, are all gone after 29 frames.
pub proof fn law_fragments_gone_after_29_frames<V, S>(fs: Seq<SpecialInstance<V, S>>)
    requires
        ticks_within(fs, i32::MIN as int, 29),
    ensures
        aged_for(fs, 29).len() == 0,
{
    lemma_aged_for(fs, 29);
    let left = aged_for(fs, 29);
    if left.len() > 0 {
        assert(ticks_within(left, 0, 0));
        let t = left[0].ticks;
        assert(0 < t);
        assert(t <= 0);
    }
}

/// The blocks of explosions (an 8-frame core and fragments of 20 to 29
/// frames, as `explosion_ticks` gives them) are all gone after 29 frames
/// with no new explosion; `k` calls of `age_effects` take the blocks `fs`
/// to `aged_for(fs, k)`.
pub proof fn law_explosion_gone_after_29_frames<V, S>(fs: Seq<SpecialInstance<V, S>>)
    requires
        forall|i: int| 0 <= i < fs.len() ==> #[trigger] fs[i].ticks == CORE_TICKS || 20 <= fs[i].ticks < 30,
    ensures
        aged_for(fs, 29).len() == 0,
{
    assert(ticks_within(fs, i32::MIN as int, 29));
    law_fragments_gone_after_29_frames(fs);
}

/// The lifetimes of the blocks of an explosion: the core lasts 8 frames and
/// each of the 30 fragments between 20 and 29 frames, as the dice fall.
pub fn explosion_ticks(rng: &mut ThreadRng) -> (ticks: Vec<i32>)
    ensures
        ticks@.len() == EXPLOSION_FRAGMENTS + 1,
        ticks@[0] == CORE_TICKS,
        forall|i: int| 1 <= i < ticks@.len() ==> 20 <= #[trigger] ticks@[i] < 30,
{
    let mut ticks: Vec<i32> = Vec::new();
    ticks.push(CORE_TICKS);
    let mut n: usize = 0;
    while n < EXPLOSION_FRAGMENTS
        invariant
            n <= EXPLOSION_FRAGMENTS,
            ticks@.len() == n + 1,
            ticks@[0] == CORE_TICKS,
            forall|i: int| 1 <= i < ticks@.len() ==> 20 <= #[trigger] ticks@[i] < 30,
        decreases EXPLOSION_FRAGMENTS - n,
    {
        let t = gen_range_i32(rng, 20, 30);
        ticks.push(t);
        n = n + 1;
    }
    ticks
}

} // verus!
