use vstd::prelude::*;

use crate::randomness::{gen_range_i32, thread_rng};
use rand::rngs::ThreadRng;

verus! {

/// Frames a manoeuvre may take before it gives up.
pub const TARGET_TIME: i32 = 240;

/// Frames a plane flies level before it picks its next target.
pub const EVEN_KEEL_TIME: i32 = 120;

/// A plane chases the player when its roll out of 100 is at least this.
pub const DIFFICULTY_LEVEL: i32 = 0;

/// Frames between two chances of a plane to fire.
pub const FIRE_INTERVAL: u128 = 200;

/// One step of a plane's flight plan.
#[derive(PartialEq, Eq, Structural, Clone, Copy, Debug)]
pub enum Manoeuvre {
    /// Climb or dive to the target's height; a dynamic target follows the player.
    ClimbTo { dynamic_target: bool },
    /// Roll on the side and pull round to face the target.
    RollTurn,
    /// Yaw to face the target.
    Turn { dynamic_target: bool },
    /// Level out and fly straight for a while.
    EvenKeel,
}

/// The turn towards a target: a rolling turn followed by a yaw when the
/// plane's roll out of 100 is not negative, a plain yaw otherwise.
pub open spec fn roll_or_yaw(roll: int) -> Seq<Manoeuvre> {
    if roll >= 0 {
        seq![Manoeuvre::RollTurn, Manoeuvre::Turn { dynamic_target: true }]
    } else {
        seq![Manoeuvre::Turn { dynamic_target: true }]
    }
}

/// The manoeuvres that take a plane to a target: the climb first when the
/// height is what differs most (`climb_first`), the turn first otherwise,
/// then level flight.
pub open spec fn target_plan(climb_first: bool, roll: int, dynamic_target: bool) -> Seq<Manoeuvre> {
    if climb_first {
        seq![Manoeuvre::ClimbTo { dynamic_target }] + roll_or_yaw(roll) + seq![Manoeuvre::EvenKeel]
    } else {
        roll_or_yaw(roll) + seq![Manoeuvre::ClimbTo { dynamic_target }, Manoeuvre::EvenKeel]
    }
}

/// Appends the turn towards the target, chosen by `roll`.
fn do_either_roll_or_yaw(plan: &mut Vec<Manoeuvre>, roll: i32)
    ensures
        final(plan)@ == old(plan)@ + roll_or_yaw(roll as int),
{
    if roll >= 0 {
        plan.push(Manoeuvre::RollTurn);
        plan.push(Manoeuvre::Turn { dynamic_target: true });
    } else {
        plan.push(Manoeuvre::Turn { dynamic_target: true });
    }
}

/// Appends to `plan` the manoeuvres that take the plane to a target, given
/// whether to climb first and the plane's roll out of 100.
pub fn plan_for_target(plan: &mut Vec<Manoeuvre>, climb_first: bool, roll: i32, dynamic_target: bool)
    ensures
        final(plan)@ == old(plan)@ + target_plan(climb_first, roll as int, dynamic_target),
{
    if climb_first {
        plan.push(Manoeuvre::ClimbTo { dynamic_target });
        do_either_roll_or_yaw(plan, roll);
        plan.push(Manoeuvre::EvenKeel);
    } else {
        do_either_roll_or_yaw(plan, roll);
        plan.push(Manoeuvre::ClimbTo { dynamic_target });
        plan.push(Manoeuvre::EvenKeel);
    }
    assert(final(plan)@ =~= old(plan)@ + target_plan(climb_first, roll as int, dynamic_target));
}

/// Appends to `plan` the manoeuvres that take the plane to a target, rolling
/// the dice for the kind of turn. Every roll out of 100 picks the rolling
/// turn, so the plan is always the same.
pub fn flight_plan_target(
    plan: &mut Vec<Manoeuvre>,
    climb_first: bool,
    dynamic_target: bool,
    rng: &mut ThreadRng,
)
    ensures
        final(plan)@ == old(plan)@ + target_plan(climb_first, 0, dynamic_target),
{
    let roll = gen_range_i32(rng, 0, 100);
    plan_for_target(plan, climb_first, roll, dynamic_target);
}

/// Whether a plane with this roll out of 100 chases the player (rather than
/// flying to two random points).
pub fn chases_player(roll: i32) -> (chase: bool)
    ensures
        chase == (roll >= DIFFICULTY_LEVEL),
{
    roll >= DIFFICULTY_LEVEL
}

/// Rolls the dice for a plane that has finished its flight plan: whether it
/// chases the player next. At the lowest difficulty every roll chases.
pub fn decide_to_chase() -> (chase: bool)
    ensures
        chase,
{
    let mut rng = thread_rng();
    let roll = gen_range_i32(&mut rng, 0, 100);
    chases_player(roll)
}

/// The frame counter of a plane after one more frame, and whether the plane
/// may fire in that frame (every 200 frames).
pub fn plane_tick(clicks: u128) -> (r: (u128, bool))
    requires
        clicks < u128::MAX,
    ensures
        r.0 == clicks + 1,
        r.1 == ((clicks + 1) % (FIRE_INTERVAL as int) == 0),
{
    let clicks = clicks + 1;
    (clicks, clicks % FIRE_INTERVAL == 0)
}

/// The time budget of a manoeuvre and whether its goal is met.
#[derive(PartialEq, Eq, Structural, Clone, Copy, Debug)]
pub struct ManoeuvreClock {
    pub clicks: i32,
    pub satisfied_all_done: bool,
}

/// What a manoeuvre says after counting down a frame: whether it is over,
/// and whether the plane's heading must be set to the manoeuvre's final one.
#[derive(PartialEq, Eq, Structural, Clone, Copy, Debug)]
pub struct CountDown {
    pub finished: bool,
    pub update_yaw: bool,
}

impl ManoeuvreClock {
    /// A manoeuvre with `clicks` frames to go and its goal not met yet.
    pub fn new(clicks: i32) -> (c: ManoeuvreClock)
        ensures
            c.clicks == clicks,
            !c.satisfied_all_done,
    {
        ManoeuvreClock { clicks, satisfied_all_done: false }
    }

    /// A turn or climb reached its target point: it ends on the next count down.
    pub fn arrived(&mut self)
        ensures
            final(self).clicks == 0,
            final(self).satisfied_all_done == old(self).satisfied_all_done,
    {
        self.clicks = 0;
    }

    /// A yaw turn ends when its time is up or it faces the target.
    pub fn count_down_turn(&mut self) -> (r: CountDown)
        requires
            old(self).clicks > i32::MIN,
        ensures
            final(self).clicks == old(self).clicks - 1,
            final(self).satisfied_all_done == old(self).satisfied_all_done,
            r.finished == (final(self).clicks <= 0 || old(self).satisfied_all_done),
            !r.update_yaw,
    {
        self.clicks = self.clicks - 1;
        CountDown { finished: self.clicks <= 0 || self.satisfied_all_done, update_yaw: false }
    }

    /// A climb ends when it reached its height, or when its time is up and
    /// the plane flies level (`level`: the pitch rounds to 0).
    pub fn count_down_climb(&mut self, level: bool) -> (r: CountDown)
        requires
            old(self).clicks > i32::MIN,
        ensures
            final(self).clicks == old(self).clicks - 1,
            final(self).satisfied_all_done == old(self).satisfied_all_done,
            r.finished == ((final(self).clicks <= 0 && level) || old(self).satisfied_all_done),
            !r.update_yaw,
    {
        self.clicks = self.clicks - 1;
        CountDown { finished: (self.clicks <= 0 && level) || self.satisfied_all_done, update_yaw: false }
    }

    /// Level flight ends when its time is up and the plane is level.
    pub fn count_down_even_keel(&mut self) -> (r: CountDown)
        requires
            old(self).clicks > i32::MIN,
        ensures
            final(self).clicks == old(self).clicks - 1,
            final(self).satisfied_all_done == old(self).satisfied_all_done,
            r.finished == (final(self).clicks <= 0 && old(self).satisfied_all_done),
            !r.update_yaw,
    {
        self.clicks = self.clicks - 1;
        CountDown { finished: self.clicks <= 0 && self.satisfied_all_done, update_yaw: false }
    }

    /// A rolling turn ends only when its goal is met, and then sets the
    /// plane's heading to the one it turned to.
    pub fn count_down_roll_turn(&mut self) -> (r: CountDown)
        requires
            old(self).clicks > i32::MIN,
        ensures
            final(self).clicks == old(self).clicks - 1,
            final(self).satisfied_all_done == old(self).satisfied_all_done,
            r.finished == old(self).satisfied_all_done,
            r.update_yaw == old(self).satisfied_all_done,
    {
        self.clicks = self.clicks - 1;
        CountDown { finished: self.satisfied_all_done, update_yaw: self.satisfied_all_done }
    }
}

/// A plane's attitude in whole degrees (pitch about x, yaw about y, roll
/// about z), as the steering compares it.
#[derive(PartialEq, Eq, Structural, Clone, Copy, Debug)]
pub struct Attitude {
    pub x: i32,
    pub y: i32,
    pub z: i32,
}

/// Degrees to turn about each axis in one frame.
#[derive(PartialEq, Eq, Structural, Clone, Copy, Debug)]
pub struct Steering {
    pub pitch: i8,
    pub yaw: i8,
    pub roll: i8,
}

/// -1, 0 or 1 as `target` lies below, at or above `current`.
pub open spec fn towards(current: int, target: int) -> int {
    if current < target {
        1
    } else if current > target {
        -1
    } else {
        0
    }
}

fn towards_exec(current: i32, target: i32) -> (s: i8)
    ensures
        s as int == towards(current as int, target as int),
{
    if current < target {
        1
    } else if current > target {
        -1
    } else {
        0
    }
}

/// How a plane steers towards the attitude its manoeuvre wants. In a
/// rolling turn it rolls towards the wanted roll and, once there, pitches by
/// `roll_pitch`. Otherwise it corrects one axis at a time: yaw first, then
/// roll, then pitch, the pitch reversed when `reverse_pitch` (the plane is
/// past the vertical).
pub open spec fn spec_steer(
    rolling_turn: bool,
    roll_pitch: i8,
    reverse_pitch: bool,
    current: Attitude,
    wanted: Attitude,
) -> Steering {
    if rolling_turn {
        let roll = towards(current.z as int, wanted.z as int);
        if roll == 0 {
            Steering { pitch: roll_pitch, yaw: 0, roll: 0 }
        } else {
            Steering { pitch: 0, yaw: 0, roll: roll as i8 }
        }
    } else {
        if current.y != wanted.y {
            Steering { pitch: 0, yaw: towards(current.y as int, wanted.y as int) as i8, roll: 0 }
        } else if current.z != wanted.z {
            Steering { pitch: 0, yaw: 0, roll: towards(current.z as int, wanted.z as int) as i8 }
        } else {
            let t = towards(current.x as int, wanted.x as int);
            Steering { pitch: (if reverse_pitch { -t } else { t }) as i8, yaw: 0, roll: 0 }
        }
    }
}

/// One frame of steering towards the wanted attitude.
pub fn steer(
    rolling_turn: bool,
    roll_pitch: i8,
    reverse_pitch: bool,
    current: Attitude,
    wanted: Attitude,
) -> (s: Steering)
    ensures
        s == spec_steer(rolling_turn, roll_pitch, reverse_pitch, current, wanted),
{
    if rolling_turn {
        let roll = towards_exec(current.z, wanted.z);
        if roll == 0 {
            Steering { pitch: roll_pitch, yaw: 0, roll: 0 }
        } else {
            Steering { pitch: 0, yaw: 0, roll }
        }
    } else {
        if current.y != wanted.y {
            Steering { pitch: 0, yaw: towards_exec(current.y, wanted.y), roll: 0 }
        } else if current.z != wanted.z {
            Steering { pitch: 0, yaw: 0, roll: towards_exec(current.z, wanted.z) }
        } else {
            let t = towards_exec(current.x, wanted.x);
            Steering { pitch: if reverse_pitch { -t } else { t }, yaw: 0, roll: 0 }
        }
    }
}

/// The items of `items` whose flag in `flags` is not set, in order.
pub open spec fn unflagged<T>(items: Seq<T>, flags: Seq<bool>) -> Seq<T>
    decreases items.len(),
{
    if items.len() == 0 {
        Seq::empty()
    } else {
        let rest = unflagged(items.drop_first(), flags.drop_first());
        if flags[0] {
            rest
        } else {
            seq![items[0]] + rest
        }
    }
}

/// Removes the items whose flag is set, keeping the order of the others;
/// tells whether any was removed. Planes that flew too far or crashed, and
/// planes that were hit, leave this way.
pub fn remove_flagged<T>(items: &mut Vec<T>, flags: &Vec<bool>) -> (removed: bool)
    requires
        old(items)@.len() == flags@.len(),
    ensures
        final(items)@ == unflagged(old(items)@, flags@),
        removed == flags@.contains(true),
{
    let ghost orig = items@;
    let mut removed = false;
    let mut i = items.len();
    while i > 0
        invariant
            i <= orig.len(),
            orig.len() == flags@.len(),
            items@ == orig.take(i as int) + unflagged(orig.skip(i as int), flags@.skip(i as int)),
            removed == flags@.skip(i as int).contains(true),
        decreases i,
    {
        i = i - 1;
        proof {
            assert(orig.skip(i as int).drop_first() =~= orig.skip(i + 1));
            assert(flags@.skip(i as int).drop_first() =~= flags@.skip(i + 1));
            assert(orig.skip(i as int)[0] == orig[i as int]);
            assert(flags@.skip(i as int)[0] == flags@[i as int]);
            assert(orig.take(i + 1) =~= orig.take(i as int).push(orig[i as int]));
            assert(flags@.skip(i as int) =~= seq![flags@[i as int]] + flags@.skip(i + 1));
            if flags@.skip(i as int).contains(true) {
                let k = choose|k: int| 0 <= k < flags@.skip(i as int).len() && #[trigger] flags@.skip(i as int)[k] == true;
                if k > 0 {
                    assert(flags@.skip(i + 1)[k - 1] == true);
                }
            }
            if flags@.skip(i + 1).contains(true) {
                let k = choose|k: int| 0 <= k < flags@.skip(i + 1).len() && #[trigger] flags@.skip(i + 1)[k] == true;
                assert(flags@.skip(i as int)[k + 1] == true);
            }
            if flags@[i as int] {
                assert(flags@.skip(i as int)[0] == true);
            }
        }
        if flags[i] {
            items.remove(i);
            removed = true;
            assert(items@ =~= orig.take(i as int) + unflagged(orig.skip(i as int), flags@.skip(i as int)));
        } else {
            assert(items@ =~= orig.take(i as int) + unflagged(orig.skip(i as int), flags@.skip(i as int)));
        }
    }
    assert(orig.take(0) =~= Seq::<T>::empty());
    assert(orig.skip(0) =~= orig);
    assert(flags@.skip(0) =~= flags@);
    removed
}

/// Drops the head of a flight plan once that manoeuvre is `finished`.
pub fn advance_plan<T>(plan: &mut Vec<T>, finished: bool)
    requires
        old(plan)@.len() > 0,
    ensures
        final(plan)@ == if finished { old(plan)@.drop_first() } else { old(plan)@ },
{
    if finished {
        plan.remove(0);
        assert(final(plan)@ =~= old(plan)@.drop_first());
    }
}

/// The number of planes the game keeps in the air.
pub const ALWAYS_WANT_THIS_NUMBER_OF_PLANES: usize = 5;

/// The number of planes after the spawn check of a frame that starts it
/// with `n` planes.
pub open spec fn after_spawn(n: nat) -> nat {
    if n < ALWAYS_WANT_THIS_NUMBER_OF_PLANES { n + 1 } else { n }
}

/// Whether a new plane is spawned when `count` planes fly.
pub fn wants_new_plane(count: usize) -> (spawn: bool)
    ensures
        spawn == (count < ALWAYS_WANT_THIS_NUMBER_OF_PLANES),
{
    count < ALWAYS_WANT_THIS_NUMBER_OF_PLANES
}

/// Removing flagged items never adds any.
pub proof fn law_remove_flagged_never_grows<T>(items: Seq<T>, flags: Seq<bool>)
    ensures
        unflagged(items, flags).len() <= items.len(),
    decreases items.len(),
{
    if items.len() > 0 {
        law_remove_flagged_never_grows(items.drop_first(), flags.drop_first());
    }
}

/// In a frame that starts with `n0` planes, removals leave `n1 <= n0`; the
/// spawn check then adds at most one plane, and only when fewer than five
/// remain, so the frame ends with at most the larger of `n0` and five.
pub proof fn law_planes_stay_bounded(n0: nat, n1: nat)
    requires
        n1 <= n0,
    ensures
        after_spawn(n1) <= if n0 > 5 { n0 } else { 5 },
        after_spawn(n1) <= n1 + 1,
        after_spawn(n1) > n1 <==> n1 < 5,
{
}

/// Steering moves towards the wanted attitude. Outside a rolling turn the
/// plane yaws towards the wanted yaw; once that is right it rolls towards the
/// wanted roll; once both are right it pitches towards the wanted pitch (the
/// other way when past the vertical), and holds when all three are right. In
/// a rolling turn it rolls towards the wanted roll and, once there, pitches
/// by `roll_pitch`.
pub proof fn law_steering_turns_towards_the_wanted_attitude(
    rolling_turn: bool,
    roll_pitch: i8,
    reverse_pitch: bool,
    current: Attitude,
    wanted: Attitude,
)
    ensures
        ({
            let s = spec_steer(rolling_turn, roll_pitch, reverse_pitch, current, wanted);
            &&& !rolling_turn && current.y < wanted.y ==> s == (Steering { pitch: 0, yaw: 1, roll: 0 })
            &&& !rolling_turn && current.y > wanted.y ==> s == (Steering { pitch: 0, yaw: -1i8, roll: 0 })
            &&& !rolling_turn && current.y == wanted.y && current.z < wanted.z ==> s == (Steering {
                pitch: 0,
                yaw: 0,
                roll: 1,
            })
            &&& !rolling_turn && current.y == wanted.y && current.z > wanted.z ==> s == (Steering {
                pitch: 0,
                yaw: 0,
                roll: -1i8,
            })
            &&& !rolling_turn && current.y == wanted.y && current.z == wanted.z ==> {
                &&& s.yaw == 0 && s.roll == 0
                &&& current.x < wanted.x ==> s.pitch == (if reverse_pitch { -1i8 } else { 1i8 })
                &&& current.x > wanted.x ==> s.pitch == (if reverse_pitch { 1i8 } else { -1i8 })
                &&& current.x == wanted.x ==> s.pitch == 0
            }
            &&& rolling_turn && current.z < wanted.z ==> s == (Steering { pitch: 0, yaw: 0, roll: 1 })
            &&& rolling_turn && current.z > wanted.z ==> s == (Steering { pitch: 0, yaw: 0, roll: -1i8 })
            &&& rolling_turn && current.z == wanted.z ==> s == (Steering { pitch: roll_pitch, yaw: 0, roll: 0 })
        }),
{
}

/// The plan to a target climbs, turns and levels out, once each: the climb
/// carries the `dynamic_target` flag it was given (first when
/// `climb_first`, else right before levelling out), the turn follows the
/// player, a roll that is not negative adds a rolling turn before it, and
/// the plan ends in level flight.
pub proof fn law_plan_climbs_turns_and_levels(climb_first: bool, roll: int, dynamic_target: bool)
    ensures
        ({
            let plan = target_plan(climb_first, roll, dynamic_target);
            &&& plan.len() == (if roll >= 0 { 4int } else { 3int })
            &&& plan.last() == Manoeuvre::EvenKeel
            &&& climb_first ==> plan[0] == Manoeuvre::ClimbTo { dynamic_target }
            &&& !climb_first ==> plan[plan.len() - 2] == Manoeuvre::ClimbTo { dynamic_target }
            &&& forall|i: int| 0 <= i < plan.len() && (#[trigger] plan[i] is ClimbTo) ==> plan[i]
                == Manoeuvre::ClimbTo { dynamic_target }
            &&& forall|i: int| 0 <= i < plan.len() && (#[trigger] plan[i] is Turn) ==> plan[i]
                == Manoeuvre::Turn { dynamic_target: true }
            &&& (exists|i: int| 0 <= i < plan.len() && #[trigger] plan[i] == Manoeuvre::RollTurn) <==> roll >= 0
        }),
{
    let plan = target_plan(climb_first, roll, dynamic_target);
    if roll >= 0 {
        if climb_first {
            assert(plan[1] == Manoeuvre::RollTurn);
        } else {
            assert(plan[0] == Manoeuvre::RollTurn);
        }
    }
}

/// Outside a rolling turn a plane corrects one axis at a time, by at most a
/// degree; in a rolling turn it either rolls or pitches, never both.
pub proof fn law_steering_moves_one_axis_at_a_time(
    rolling_turn: bool,
    roll_pitch: i8,
    reverse_pitch: bool,
    current: Attitude,
    wanted: Attitude,
)
    requires
        -1 <= roll_pitch <= 1,
    ensures
        ({
            let s = spec_steer(rolling_turn, roll_pitch, reverse_pitch, current, wanted);
            &&& -1 <= s.pitch <= 1 && -1 <= s.yaw <= 1 && -1 <= s.roll <= 1
            &&& (s.pitch != 0) as int + (s.yaw != 0) as int + (s.roll != 0) as int <= 1
            &&& rolling_turn ==> s.yaw == 0
            &&& current == wanted && !rolling_turn ==> s == (Steering { pitch: 0, yaw: 0, roll: 0 })
        }),
{
}

/// Every roll out of 100 gives the same plan to a target, because the
/// rolling turn is taken for every roll that is not negative.
pub proof fn law_every_roll_turns_by_rolling(climb_first: bool, roll: int, dynamic_target: bool)
    requires
        0 <= roll < 100,
    ensures
        target_plan(climb_first, roll, dynamic_target) == target_plan(climb_first, 0, dynamic_target),
        target_plan(climb_first, roll, dynamic_target).last() == Manoeuvre::EvenKeel,
        target_plan(climb_first, roll, dynamic_target).len() == 4,
{
}

/// With no flag set nothing leaves, and with every flag set everything does.
pub proof fn law_remove_flagged_extremes<T>(items: Seq<T>)
    ensures
        unflagged(items, Seq::new(items.len(), |i: int| false)) == items,
        unflagged(items, Seq::new(items.len(), |i: int| true)) == Seq::<T>::empty(),
    decreases items.len(),
{
    if items.len() > 0 {
        let rest = items.drop_first();
        law_remove_flagged_extremes(rest);
        assert(Seq::new(items.len(), |i: int| false).drop_first() =~= Seq::new(rest.len(), |i: int| false));
        assert(Seq::new(items.len(), |i: int| true).drop_first() =~= Seq::new(rest.len(), |i: int| true));
        assert(seq![items[0]] + rest =~= items);
    }
}

} // verus!
