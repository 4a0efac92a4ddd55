use vstd::prelude::*;

use std::collections::VecDeque;

verus! {

/// Frames the player stays frozen after a crash before starting again.
pub const PLAYER_RESET_FRAMES: i128 = 60;

/// What the player does in a frame.
#[derive(PartialEq, Eq, Structural, Clone, Copy, Debug)]
pub enum PlayerAction {
    /// Fly on: place the ship at its current position.
    Update,
    /// Still frozen after a crash: stay put.
    Wait,
    /// The freeze is over: lift the ship back to cruising height and start
    /// again from rest.
    Reset,
}

/// The player's hit counter and crash recovery state.
#[derive(PartialEq, Eq, Structural, Clone, Copy, Debug)]
pub struct PlayerStatus {
    /// Times the player was hit by an enemy bullet.
    pub been_hit: i32,
    /// Whether the player is frozen after a crash.
    pub player_reset: bool,
    /// Frames left before a frozen player starts again.
    pub player_reset_countdown: i128,
}

impl PlayerStatus {
    /// While frozen the countdown lies between 1 and 60; hits are counted
    /// from 0.
    pub open spec fn wf(&self) -> bool {
        &&& self.been_hit >= 0
        &&& self.player_reset ==> 0 < self.player_reset_countdown <= PLAYER_RESET_FRAMES
    }

    pub fn new() -> (p: PlayerStatus)
        ensures
            p.wf(),
            p.been_hit == 0,
            !p.player_reset,
            p.player_reset_countdown == 0,
    {
        PlayerStatus { been_hit: 0, player_reset: false, player_reset_countdown: 0 }
    }

    /// A bullet came close to the player (`close`): it counts as a hit
    /// unless the player is frozen after a crash.
    pub fn been_hit(&mut self, close: bool) -> (hit: bool)
        requires
            old(self).been_hit < i32::MAX,
        ensures
            old(self).wf() ==> final(self).wf(),
            hit == (close && !old(self).player_reset),
            final(self).been_hit == old(self).been_hit + (if hit { 1int } else { 0int }),
            final(self).player_reset == old(self).player_reset,
            final(self).player_reset_countdown == old(self).player_reset_countdown,
    {
        if !self.player_reset {
            if close {
                self.been_hit = self.been_hit + 1;
                return true;
            }
        }
        false
    }

    /// The player crashed: freeze it for 60 frames.
    pub fn rollback(&mut self)
        ensures
            final(self).wf() <== old(self).been_hit >= 0,
            final(self).player_reset,
            final(self).player_reset_countdown == PLAYER_RESET_FRAMES,
            final(self).been_hit == old(self).been_hit,
    {
        self.player_reset = true;
        self.player_reset_countdown = PLAYER_RESET_FRAMES;
    }

    /// The player starts again from rest.
    pub fn reset(&mut self)
        ensures
            !final(self).player_reset,
            final(self).been_hit == old(self).been_hit,
            final(self).player_reset_countdown == old(self).player_reset_countdown,
            old(self).wf() ==> final(self).wf(),
    {
        self.player_reset = false;
    }

    /// One frame of the player: fly on, or count down a freeze and start
    /// again when it is over.
    pub fn update_player(&mut self) -> (action: PlayerAction)
        requires
            old(self).player_reset ==> old(self).player_reset_countdown > i128::MIN,
        ensures
            old(self).wf() ==> final(self).wf(),
            *final(self) == frames(*old(self), 1),
            final(self).been_hit == old(self).been_hit,
            !old(self).player_reset ==> action == PlayerAction::Update && *final(self) == *old(self),
            old(self).player_reset ==> final(self).player_reset_countdown == old(self).player_reset_countdown - 1,
            old(self).player_reset && old(self).player_reset_countdown > 1 ==> action == PlayerAction::Wait
                && final(self).player_reset,
            old(self).player_reset && old(self).player_reset_countdown <= 1 ==> action == PlayerAction::Reset
                && !final(self).player_reset,
    {
        assert(frames(*self, 0) == *self);
        if !self.player_reset {
            PlayerAction::Update
        } else {
            self.player_reset_countdown = self.player_reset_countdown - 1;
            if self.player_reset_countdown <= 0 {
                self.reset();
                PlayerAction::Reset
            } else {
                PlayerAction::Wait
            }
        }
    }
}

/// The status after `n` frames.
pub open spec fn frames(p: PlayerStatus, n: nat) -> PlayerStatus
    decreases n,
{
    if n == 0 {
        p
    } else {
        let q = frames(p, (n - 1) as nat);
        if !q.player_reset {
            q
        } else if q.player_reset_countdown - 1 <= 0 {
            PlayerStatus { player_reset: false, player_reset_countdown: (q.player_reset_countdown - 1) as i128, ..q }
        } else {
            PlayerStatus { player_reset_countdown: (q.player_reset_countdown - 1) as i128, ..q }
        }
    }
}

/// After a crash the player stays frozen for 59 frames and flies again on
/// the 60th.
pub proof fn law_crash_freezes_for_sixty_frames(p: PlayerStatus, n: nat)
    requires
        p.player_reset,
        p.player_reset_countdown == PLAYER_RESET_FRAMES,
        n <= 60,
    ensures
        n < 60 ==> frames(p, n).player_reset && frames(p, n).player_reset_countdown == 60 - n,
        n == 60 ==> !frames(p, n).player_reset,
    decreases n,
{
    if n > 0 {
        law_crash_freezes_for_sixty_frames(p, (n - 1) as nat);
    }
}

/// Running `j` frames and then `k` more is running `j + k` frames, so `k`
/// calls of `update_player`, each of which runs one frame, take the status
/// `p` to `frames(p, k)`.
pub proof fn law_frames_compose(p: PlayerStatus, j: nat, k: nat)
    ensures
        frames(frames(p, j), k) == frames(p, j + k),
    decreases k,
{
    if k > 0 {
        law_frames_compose(p, j, (k - 1) as nat);
        assert(frames(p, j + k) == {
            let q = frames(p, (j + k - 1) as nat);
            if !q.player_reset {
                q
            } else if q.player_reset_countdown - 1 <= 0 {
                PlayerStatus { player_reset: false, player_reset_countdown: (q.player_reset_countdown - 1) as i128, ..q }
            } else {
                PlayerStatus { player_reset_countdown: (q.player_reset_countdown - 1) as i128, ..q }
            }
        });
    }
}

/// Camera directions kept back while the player pitches.
pub const CAMERA_QUEUE_LIMIT: usize = 30;

/// The camera queue after the camera took its next direction: the front
/// taken off, then only the newest 30 kept.
pub open spec fn spec_camera_queue_after<V>(queue: Seq<V>) -> Seq<V> {
    let rest = if queue.len() > 0 { queue.drop_first() } else { queue };
    if rest.len() > CAMERA_QUEUE_LIMIT {
        rest.skip(rest.len() - CAMERA_QUEUE_LIMIT)
    } else {
        rest
    }
}

/// The camera follows the directions queued while the player pitched: it
/// takes the oldest one when there is one (`None` means: use the ship's
/// current direction), and the queue is cut back to its newest 30.
pub fn update_camera<V>(camera_queue: &mut VecDeque<V>) -> (next: Option<V>)
    ensures
        next == (if old(camera_queue)@.len() > 0 { Some(old(camera_queue)@[0]) } else { None }),
        final(camera_queue)@ == spec_camera_queue_after(old(camera_queue)@),
{
    let next = if camera_queue.len() > 0 {
        camera_queue.pop_front()
    } else {
        None
    };
    let ghost rest = camera_queue@;
    assert(rest == if old(camera_queue)@.len() > 0 {
        old(camera_queue)@.drop_first()
    } else {
        old(camera_queue)@
    });
    if camera_queue.len() > CAMERA_QUEUE_LIMIT {
        while camera_queue.len() > CAMERA_QUEUE_LIMIT
            invariant
                rest.len() > CAMERA_QUEUE_LIMIT,
                camera_queue@.len() >= CAMERA_QUEUE_LIMIT,
                camera_queue@.len() <= rest.len(),
                camera_queue@ == rest.skip(rest.len() - camera_queue@.len()),
            decreases camera_queue@.len(),
        {
            let ghost before = camera_queue@;
            let ghost k = rest.len() - before.len();
            let _ = camera_queue.pop_front();
            assert(camera_queue@ == before.subrange(1, before.len() as int));
            assert(camera_queue@ =~= rest.skip(k + 1));
        }
    }
    next
}

/// The camera queue never holds more than 30 directions after the camera
/// moved, and it keeps the newest ones in order.
pub proof fn law_camera_queue_is_bounded<V>(queue: Seq<V>)
    ensures
        spec_camera_queue_after(queue).len() <= CAMERA_QUEUE_LIMIT,
        forall|i: int|
            0 <= i < spec_camera_queue_after(queue).len() ==> #[trigger] spec_camera_queue_after(queue)[i]
                == queue[queue.len() - spec_camera_queue_after(queue).len() + i],
{
}

} // verus!
