use vstd::prelude::*;

use std::collections::HashMap;
use vstd::std_specs::iter::IteratorSpec;

verus! {

/// Frames a prize stays on the map.
pub const PICKUP_TIME: i32 = 1200;

/// Keys of prizes are `x * KEY_STRIDE + z` for the prize's whole x and z.
pub const KEY_STRIDE: i32 = 1024;

/// A prize on the map: where it floats and its colour (vectors of the
/// renderer, type `V`), the frames it has left, and whether the player took it.
pub struct PickupInstance<V> {
    pub position: V,
    pub colour: V,
    pub clicks: i32,
    pub picked_up: bool,
}

impl<V> PickupInstance<V> {
    /// One frame less to live; returns the frames left.
    pub fn decrease(&mut self) -> (left: i32)
        requires
            old(self).clicks > i32::MIN,
        ensures
            final(self).clicks == old(self).clicks - 1,
            left == final(self).clicks,
            final(self).position == old(self).position,
            final(self).colour == old(self).colour,
            final(self).picked_up == old(self).picked_up,
    {
        self.clicks = self.clicks - 1;
        self.clicks
    }
}

/// The key of the prize at whole coordinates (`x`, `z`).
pub open spec fn spec_pickup_key(x: int, z: int) -> int {
    x * KEY_STRIDE + z
}

/// The key of the prize at whole coordinates (`x`, `z`).
pub fn pickup_key(x: i32, z: i32) -> (key: i32)
    requires
        i32::MIN <= x * KEY_STRIDE <= i32::MAX,
        i32::MIN <= spec_pickup_key(x as int, z as int) <= i32::MAX,
    ensures
        key == spec_pickup_key(x as int, z as int),
{
    x * KEY_STRIDE + z
}

/// Collects the keys of a map.
fn map_keys<V>(m: &HashMap<i32, V>) -> (keys: Vec<i32>)
    ensures
        keys@.to_set() == m@.dom(),
        keys@.no_duplicates(),
{
    let ghost all = vstd::std_specs::hash::spec_keys_iter(m).remaining();
    let mut keys: Vec<i32> = Vec::new();
    for k in it: m.keys()
        invariant
            it.seq() == all,
            keys@ == it.seq().take(it.index()).unref(),
    {
        keys.push(*k);
        assert(keys@ =~= it.seq().take(it.index() + 1).unref());
    }
    assert(keys@ =~= all.unref());
    keys
}

/// A prize one frame older.
pub open spec fn aged<V>(p: PickupInstance<V>) -> PickupInstance<V> {
    PickupInstance { clicks: (p.clicks - 1) as i32, ..p }
}

/// Whether a prize stays on the map through a frame in which the player is
/// close to it (`near`): it was not taken before, is not taken now, and has
/// time left after this frame.
pub open spec fn stays<V>(p: PickupInstance<V>, near: bool) -> bool {
    !p.picked_up && !near && p.clicks - 1 >= 0
}

/// Every prize on the map has more than `i32::MIN` frames left, so that it
/// can get a frame older.
pub open spec fn can_age<V>(m: Map<i32, PickupInstance<V>>) -> bool {
    forall|k: i32| #[trigger] m.contains_key(k) ==> m[k].clicks > i32::MIN
}

/// Every prize on the map has between 0 and 1200 frames left.
pub open spec fn prizes_wf<V>(m: Map<i32, PickupInstance<V>>) -> bool {
    forall|k: i32| #[trigger] m.contains_key(k) ==> 0 <= m[k].clicks <= PICKUP_TIME
}

/// The prizes after one frame, the player being close to the prizes whose
/// keys are in `near`: prizes taken (before or now) and prizes out of time
/// leave the map, the others are a frame older.
pub open spec fn spec_update_pickups<V>(m: Map<i32, PickupInstance<V>>, near: Seq<i32>) -> Map<
    i32,
    PickupInstance<V>,
> {
    Map::new(|k: i32| m.contains_key(k) && stays(m[k], near.contains(k)), |k: i32| aged(m[k]))
}

/// The keys of the prizes the player takes in this frame: not taken before
/// and close to the player.
pub open spec fn newly_picked<V>(m: Map<i32, PickupInstance<V>>, near: Seq<i32>) -> Set<i32> {
    m.dom().filter(|k: i32| !m[k].picked_up && near.contains(k))
}

/// The map while an update is under way: the prizes whose keys are in
/// `done` are updated (or gone), the others untouched.
pub open spec fn partly_updated<V>(m: Map<i32, PickupInstance<V>>, near: Seq<i32>, done: Set<i32>) -> Map<
    i32,
    PickupInstance<V>,
> {
    Map::new(
        |k: i32| m.contains_key(k) && (done.contains(k) ==> stays(m[k], near.contains(k))),
        |k: i32| if done.contains(k) { aged(m[k]) } else { m[k] },
    )
}

/// Whether `v` holds `x`.
fn contains_key(v: &Vec<i32>, x: i32) -> (r: bool)
    ensures
        r == v@.contains(x),
{
    let mut i: usize = 0;
    while i < v.len()
        invariant
            i <= v.len(),
            forall|j: int| 0 <= j < i ==> v@[j] != x,
        decreases v.len() - i,
    {
        if v[i] == x {
            return true;
        }
        i = i + 1;
    }
    false
}

/// The prizes of the map and how they are drawn.
pub struct Pickup<V> {
    pub vao: u32,
    pub texture: u32,
    pub onmap: HashMap<i32, PickupInstance<V>>,
}

impl<V> Pickup<V> {
    /// No prize yet; prizes are drawn with vertex array `vao` and `texture`.
    pub fn new(vao: u32, texture: u32) -> (p: Pickup<V>)
        ensures
            p.vao == vao,
            p.texture == texture,
            p.onmap@ == Map::<i32, PickupInstance<V>>::empty(),
    {
        Pickup { vao, texture, onmap: HashMap::new() }
    }

    /// Places a prize at whole coordinates (`x`, `z`) unless one is there
    /// already; it gets 1200 frames.
    pub fn new_instance(&mut self, x: i32, z: i32, position: V, colour: V)
        requires
            i32::MIN <= x * KEY_STRIDE <= i32::MAX,
            i32::MIN <= spec_pickup_key(x as int, z as int) <= i32::MAX,
        ensures
            ({
                let key = spec_pickup_key(x as int, z as int) as i32;
                final(self).onmap@ == if old(self).onmap@.contains_key(key) {
                    old(self).onmap@
                } else {
                    old(self).onmap@.insert(
                        key,
                        PickupInstance { position, colour, clicks: PICKUP_TIME, picked_up: false },
                    )
                }
            }),
            final(self).vao == old(self).vao,
            final(self).texture == old(self).texture,
    {
        let key = pickup_key(x, z);
        if !self.onmap.contains_key(&key) {
            let instance = PickupInstance { position, clicks: PICKUP_TIME, colour, picked_up: false };
            self.onmap.insert(key, instance);
        }
    }

    /// One frame of the prizes, the player being close to those whose keys
    /// are in `near`: close prizes not taken before are taken and leave the
    /// map, as do prizes taken before and prizes out of time; every other
    /// prize gets a frame older. Returns the number of prizes taken.
    pub fn update_pickups(&mut self, near: &Vec<i32>) -> (picked: i32)
        requires
            can_age(old(self).onmap@),
            old(self).onmap@.dom().len() <= i32::MAX,
        ensures
            final(self).onmap@ == spec_update_pickups(old(self).onmap@, near@),
            prizes_wf(old(self).onmap@) ==> prizes_wf(final(self).onmap@),
            picked == newly_picked(old(self).onmap@, near@).len(),
            near@.len() == 0 ==> picked == 0,
            final(self).vao == old(self).vao,
            final(self).texture == old(self).texture,
    {
        let ghost m = self.onmap@;
        let ghost vao0 = self.vao;
        let ghost texture0 = self.texture;
        let ghost pred = |k: i32| !m[k].picked_up && near@.contains(k);
        let keys = map_keys(&self.onmap);
        proof {
            keys@.unique_seq_to_set();
        }
        let mut picked: i32 = 0;
        let mut i: usize = 0;
        proof {
            assert(keys@.take(0) =~= Seq::<i32>::empty());
            assert(Seq::<i32>::empty().to_set() =~= Set::<i32>::empty());
            assert(Set::<i32>::empty().filter(pred) =~= Set::<i32>::empty());
        }
        while i < keys.len()
            invariant
                i <= keys.len(),
                self.vao == vao0,
                self.texture == texture0,
                keys@.to_set() == m.dom(),
                keys@.no_duplicates(),
                keys@.len() == m.dom().len(),
                m.dom().len() <= i32::MAX,
                can_age(m),
                pred == (|k: i32| !m[k].picked_up && near@.contains(k)),
                self.onmap@ == partly_updated(m, near@, keys@.take(i as int).to_set()),
                keys@.take(i as int).to_set().finite(),
                keys@.take(i as int).to_set().len() == i,
                picked == keys@.take(i as int).to_set().filter(pred).len(),
                picked <= i,
            decreases keys.len() - i,
        {
            let k = keys[i];
            let ghost done = keys@.take(i as int).to_set();
            proof {
                assert(keys@.to_set().contains(k));
                if done.contains(k) {
                    let j = choose|j: int| 0 <= j < i && keys@.take(i as int)[j] == k;
                    assert(keys@[j] == keys@[i as int]);
                }
                assert(keys@.take(i + 1) =~= keys@.take(i as int).push(k));
                keys@.take(i as int).lemma_push_to_set_commute(k);
                assert(keys@.take(i + 1).to_set() =~= done.insert(k));
                assert(done.filter(pred).finite()) by {
                    done.lemma_len_filter(pred);
                }
                if pred(k) {
                    assert(done.insert(k).filter(pred) =~= done.filter(pred).insert(k));
                } else {
                    assert(done.insert(k).filter(pred) =~= done.filter(pred));
                }
                done.lemma_len_filter(pred);
            }
            let removed = self.onmap.remove(&k);
            let mut inst = removed.unwrap();
            let close = contains_key(near, k);
            let taken_before = inst.picked_up;
            if !taken_before && close {
                picked = picked + 1;
            }
            let left = inst.decrease();
            if !taken_before && !close && left >= 0 {
                self.onmap.insert(k, inst);
            }
            proof {
                let done2 = done.insert(k);
                assert(self.onmap@ =~= partly_updated(m, near@, done2));
            }
            i = i + 1;
        }
        proof {
            assert(keys@.take(keys@.len() as int) =~= keys@);
            assert(self.onmap@ =~= spec_update_pickups(m, near@));
            assert(m.dom().filter(pred) =~= newly_picked(m, near@));
            law_only_close_prizes_are_counted(m, near@);
        }
        picked
    }
}

/// The prizes counted as taken in a frame are exactly those on the map that
/// were not taken before and that the player is close to: a prize that only
/// runs out of time counts for nothing, and with no prize close nothing is
/// counted.
pub proof fn law_only_close_prizes_are_counted<V>(m: Map<i32, PickupInstance<V>>, near: Seq<i32>)
    ensures
        forall|k: i32| #[trigger] newly_picked(m, near).contains(k) <==> (m.contains_key(k) && !m[k].picked_up
            && near.contains(k)),
        near.len() == 0 ==> newly_picked(m, near) == Set::<i32>::empty(),
        near.len() == 0 ==> newly_picked(m, near).len() == 0,
{
    if near.len() == 0 {
        assert(newly_picked(m, near) =~= Set::<i32>::empty());
    }
}

/// A prize taken in a frame leaves the map in that frame, so it is counted
/// only once; no prize left on the map after a frame is marked taken.
pub proof fn law_prize_counted_once<V>(m: Map<i32, PickupInstance<V>>, near: Seq<i32>, later_near: Seq<i32>)
    ensures
        forall|k: i32| #[trigger] newly_picked(m, near).contains(k) ==> !spec_update_pickups(m, near).contains_key(k),
        newly_picked(m, near).disjoint(newly_picked(spec_update_pickups(m, near), later_near)),
        forall|k: i32| #[trigger] spec_update_pickups(m, near).contains_key(k) ==> !spec_update_pickups(
            m,
            near,
        )[k].picked_up,
{
}

} // verus!
