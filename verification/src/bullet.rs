use vstd::prelude::*;

verus! {

/// Frames a bullet flies before it is gone.
pub const BULLET_LIFE: i32 = 80;

/// The frame count a bullet is given when it hit something, so that it is
/// gone at the next update.
pub const FINISHED_CLICKS: i32 = 99999999;

/// A bullet in flight: where it is, where it goes and its colour (vectors of
/// the renderer, type `V`), its age in frames, and whether an enemy fired it.
pub struct BulletInstance<V> {
    pub position: V,
    pub direction: V,
    pub colour: V,
    pub clicks: i32,
    pub enemy: bool,
}

impl<V> BulletInstance<V> {
    /// A bullet just fired.
    pub fn new(direction: V, position: V, colour: V, enemy: bool) -> (b: BulletInstance<V>)
        ensures
            b.position == position,
            b.direction == direction,
            b.colour == colour,
            b.clicks == 0,
            b.enemy == enemy,
    {
        BulletInstance { position, direction, clicks: 0, colour, enemy }
    }

    /// The bullet hit something: it is removed at the next update.
    pub fn mark_finished(&mut self)
        ensures
            final(self).clicks == FINISHED_CLICKS,
            final(self).position == old(self).position,
            final(self).direction == old(self).direction,
            final(self).colour == old(self).colour,
            final(self).enemy == old(self).enemy,
    {
        self.clicks = FINISHED_CLICKS;
    }
}

/// The bullet one frame older.
pub open spec fn aged<V>(b: BulletInstance<V>) -> BulletInstance<V> {
    BulletInstance { clicks: (b.clicks + 1) as i32, ..b }
}

/// Whether a bullet is still flying.
pub open spec fn in_flight<V>(b: BulletInstance<V>) -> bool {
    b.clicks <= BULLET_LIFE
}

/// `aged`, as a function value.
pub open spec fn aged_fn<V>() -> spec_fn(BulletInstance<V>) -> BulletInstance<V> {
    |b: BulletInstance<V>| aged(b)
}

/// `in_flight`, as a function value.
pub open spec fn in_flight_fn<V>() -> spec_fn(BulletInstance<V>) -> bool {
    |b: BulletInstance<V>| in_flight(b)
}

/// What an update leaves of the bullets: each one frame older, those past
/// their life gone, the order kept.
pub open spec fn spec_age_bullets<V>(bullets: Seq<BulletInstance<V>>) -> Seq<BulletInstance<V>> {
    bullets.map_values(aged_fn()).filter(in_flight_fn())
}

/// Makes every bullet a frame older and removes those past their life (or
/// marked finished). The caller moves the bullets along first.
pub fn age_bullets<V>(instances: &mut Vec<BulletInstance<V>>)
    requires
        forall|i: int| 0 <= i < old(instances)@.len() ==> #[trigger] old(instances)@[i].clicks < i32::MAX,
    ensures
        final(instances)@ == spec_age_bullets(old(instances)@),
{
    let ghost orig = instances@;
    let ghost f = aged_fn::<V>();
    let ghost p = in_flight_fn::<V>();
    let mut i = instances.len();
    while i >= 1
        invariant
            f == aged_fn::<V>(),
            p == in_flight_fn::<V>(),
            i <= orig.len(),
            forall|j: int| 0 <= j < orig.len() ==> #[trigger] orig[j].clicks < i32::MAX,
            instances@ == orig.take(i as int) + orig.skip(i as int).map_values(f).filter(p),
        decreases i,
    {
        i = i - 1;
        proof {
            assert(instances@[i as int] == orig[i as int]);
        }
        let mut b = instances.remove(i);
        b.clicks = b.clicks + 1;
        let keep = b.clicks <= BULLET_LIFE;
        proof {
            let rest = orig.skip(i + 1).map_values(f);
            assert forall|k: int| 0 <= k < orig.skip(i as int).len() implies #[trigger] orig.skip(
                i as int,
            ).map_values(f)[k] == (seq![aged(orig[i as int])] + rest)[k] by {
                if k > 0 {
                    assert(orig.skip(i as int)[k] == orig.skip(i + 1)[k - 1]);
                }
            }
            assert(orig.skip(i as int).map_values(f) =~= seq![aged(orig[i as int])] + rest);
            rest.lemma_filter_prepend(aged(orig[i as int]), p);
            assert(orig.take(i + 1) =~= orig.take(i as int).push(orig[i as int]));
        }
        if keep {
            instances.insert(i, b);
            assert(instances@ =~= orig.take(i as int) + orig.skip(i as int).map_values(f).filter(p));
        } else {
            assert(instances@ =~= orig.take(i as int) + orig.skip(i as int).map_values(f).filter(p));
        }
    }
    assert(orig.take(0) =~= Seq::<BulletInstance<V>>::empty());
    assert(orig.skip(0) =~= orig);
}

/// An update keeps a bullet exactly when its age after the update is at most
/// 80 frames, whoever fired it, and then it is the same bullet a frame older.
pub proof fn law_bullet_kept_by_age_alone<V>(b: BulletInstance<V>)
    requires
        b.clicks < i32::MAX,
    ensures
        spec_age_bullets(seq![b]) == if b.clicks + 1 <= BULLET_LIFE {
            seq![
                BulletInstance {
                    position: b.position,
                    direction: b.direction,
                    colour: b.colour,
                    clicks: (b.clicks + 1) as i32,
                    enemy: b.enemy,
                },
            ]
        } else {
            Seq::<BulletInstance<V>>::empty()
        },
{
    let one = seq![b];
    let mapped = one.map_values(aged_fn::<V>());
    assert(mapped =~= seq![aged(b)]);
    reveal_with_fuel(Seq::filter, 2);
    assert(mapped.drop_last() =~= Seq::<BulletInstance<V>>::empty());
}

/// An update treats every bullet on its own: updating two lists one after
/// the other in the same order gives what updating them together gives.
pub proof fn law_age_bullets_one_by_one<V>(s1: Seq<BulletInstance<V>>, s2: Seq<BulletInstance<V>>)
    ensures
        spec_age_bullets(s1 + s2) == spec_age_bullets(s1) + spec_age_bullets(s2),
{
    let f = aged_fn::<V>();
    assert((s1 + s2).map_values(f) =~= s1.map_values(f) + s2.map_values(f));
    Seq::filter_distributes_over_add(s1.map_values(f), s2.map_values(f), in_flight_fn::<V>());
}

/// A bullet marked finished is gone after the next update, and no bullet
/// left after an update is older than its life.
pub proof fn law_aged_bullets_are_in_flight<V>(bullets: Seq<BulletInstance<V>>, b: BulletInstance<V>)
    ensures
        b.clicks == FINISHED_CLICKS ==> !in_flight(aged(b)),
        forall|i: int|
            0 <= i < spec_age_bullets(bullets).len() ==> #[trigger] spec_age_bullets(bullets)[i].clicks
                <= BULLET_LIFE,
{
    let p = in_flight_fn::<V>();
    let mapped = bullets.map_values(aged_fn::<V>());
    assert forall|i: int| 0 <= i < spec_age_bullets(bullets).len() implies #[trigger] spec_age_bullets(
        bullets,
    )[i].clicks <= BULLET_LIFE by {
        mapped.lemma_filter_pred(p, i);
    }
}

} // verus!
