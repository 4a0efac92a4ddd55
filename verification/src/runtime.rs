use vstd::prelude::*;

verus! {

/// The keys the game reacts to.
#[derive(PartialEq, Eq, Structural, Clone, Copy, Debug)]
pub enum Key {
    Escape,
    Left,
    Right,
    Up,
    Down,
    LShift,
    RShift,
    Space,
    Num1,
    Num2,
    Num3,
    Num4,
}

/// An input event, as far as the game reads it.
#[derive(PartialEq, Eq, Structural, Clone, Copy, Debug)]
pub enum InputEvent {
    /// The window was asked to close.
    Quit,
    KeyDown(Key),
    KeyUp(Key),
    /// Anything else (other keys, mouse, window events).
    Other,
}

/// Whether the main loop goes on after a frame.
#[derive(PartialEq, Eq, Structural, Clone, Copy, Debug)]
pub enum LoopStatus {
    Continue,
    Terminate,
}

/// How far the repeat counter of a held space bar drops after a shot; the
/// next shot comes on the twelfth key-down repeat after it.
pub const SPACE_REPEAT_GAP: i128 = 12;

/// The state of the keyboard as the game sees it. `space_spacer` counts the
/// key-down repeats of a held space bar, so that holding it fires on the
/// first press and then on every twelfth repeat.
#[derive(PartialEq, Eq, Structural, Clone, Copy, Debug)]
pub struct Controls {
    pub one: bool,
    pub two: bool,
    pub three: bool,
    pub four: bool,
    pub left: bool,
    pub right: bool,
    pub up: bool,
    pub down: bool,
    pub forward: bool,
    pub backward: bool,
    pub space: bool,
    pub space_spacer: i128,
}

impl Controls {
    /// The repeat counter stays between -12 and 0.
    pub open spec fn wf(&self) -> bool {
        -SPACE_REPEAT_GAP <= self.space_spacer <= 0
    }

    /// The counter is in range, and opposite directions are never held at once.
    pub open spec fn consistent(&self) -> bool {
        &&& self.wf()
        &&& !(self.left && self.right)
        &&& !(self.up && self.down)
    }

    /// No key held.
    pub fn new() -> (c: Controls)
        ensures
            c == Controls::released(),
            c.consistent(),
    {
        Controls {
            one: false,
            two: false,
            three: false,
            four: false,
            left: false,
            right: false,
            up: false,
            down: false,
            forward: false,
            backward: false,
            space: false,
            space_spacer: 0,
        }
    }

    pub open spec fn released() -> Controls {
        Controls {
            one: false,
            two: false,
            three: false,
            four: false,
            left: false,
            right: false,
            up: false,
            down: false,
            forward: false,
            backward: false,
            space: false,
            space_spacer: 0,
        }
    }
}

/// The controls after a key is pressed (or its press repeats).
pub open spec fn key_down(c: Controls, k: Key) -> Controls {
    match k {
        Key::Escape => c,
        Key::Left => Controls { left: true, right: false, ..c },
        Key::Right => Controls { right: true, left: false, ..c },
        Key::Up => Controls { up: true, down: false, ..c },
        Key::Down => Controls { down: true, up: false, ..c },
        Key::LShift => Controls { forward: true, ..c },
        Key::RShift => Controls { backward: true, ..c },
        Key::Space => if c.space_spacer + 1 >= 0 {
            Controls { space: true, space_spacer: (-SPACE_REPEAT_GAP) as i128, ..c }
        } else {
            Controls { space: false, space_spacer: (c.space_spacer + 1) as i128, ..c }
        },
        Key::Num1 => Controls { one: true, ..c },
        Key::Num2 => Controls { two: true, ..c },
        Key::Num3 => Controls { three: true, ..c },
        Key::Num4 => Controls { four: true, ..c },
    }
}

/// The controls after a key is released.
pub open spec fn key_up(c: Controls, k: Key) -> Controls {
    match k {
        Key::Escape => c,
        Key::Left => Controls { left: false, ..c },
        Key::Right => Controls { right: false, ..c },
        Key::Up => Controls { up: false, ..c },
        Key::Down => Controls { down: false, ..c },
        Key::LShift => Controls { forward: false, ..c },
        Key::RShift => Controls { backward: false, ..c },
        Key::Space => Controls { space: false, space_spacer: 0, ..c },
        Key::Num1 => Controls { one: false, ..c },
        Key::Num2 => Controls { two: false, ..c },
        Key::Num3 => Controls { three: false, ..c },
        Key::Num4 => Controls { four: false, ..c },
    }
}

/// The controls after one event.
pub open spec fn step(c: Controls, e: InputEvent) -> Controls {
    match e {
        InputEvent::KeyDown(k) => key_down(c, k),
        InputEvent::KeyUp(k) => key_up(c, k),
        _ => c,
    }
}

/// Whether an event ends the game: closing the window or pressing Escape.
pub open spec fn ends_game(e: InputEvent) -> bool {
    e == InputEvent::Quit || e == InputEvent::KeyDown(Key::Escape)
}

/// The controls after the events `es`, taken in order.
pub open spec fn steps(c: Controls, es: Seq<InputEvent>) -> Controls
    decreases es.len(),
{
    if es.len() == 0 {
        c
    } else {
        step(steps(c, es.drop_last()), es.last())
    }
}

/// Whether any of the events `es` ends the game.
pub open spec fn any_ends_game(es: Seq<InputEvent>) -> bool {
    exists|i: int| 0 <= i < es.len() && ends_game(#[trigger] es[i])
}

impl Controls {
    /// A key is pressed, or its press repeats.
    fn press(&mut self, k: Key)
        requires
            old(self).space_spacer < i128::MAX,
        ensures
            *final(self) == key_down(*old(self), k),
    {
        let c = *self;
        *self = match k {
            Key::Escape => c,
            Key::Left => Controls { left: true, right: false, ..c },
            Key::Right => Controls { right: true, left: false, ..c },
            Key::Up => Controls { up: true, down: false, ..c },
            Key::Down => Controls { down: true, up: false, ..c },
            Key::LShift => Controls { forward: true, ..c },
            Key::RShift => Controls { backward: true, ..c },
            Key::Space => {
                let space_spacer = c.space_spacer + 1;
                if space_spacer >= 0 {
                    Controls { space: true, space_spacer: -SPACE_REPEAT_GAP, ..c }
                } else {
                    Controls { space: false, space_spacer, ..c }
                }
            },
            Key::Num1 => Controls { one: true, ..c },
            Key::Num2 => Controls { two: true, ..c },
            Key::Num3 => Controls { three: true, ..c },
            Key::Num4 => Controls { four: true, ..c },
        };
    }

    /// A key is released.
    fn release(&mut self, k: Key)
        ensures
            *final(self) == key_up(*old(self), k),
    {
        let c = *self;
        *self = match k {
            Key::Escape => c,
            Key::Left => Controls { left: false, ..c },
            Key::Right => Controls { right: false, ..c },
            Key::Up => Controls { up: false, ..c },
            Key::Down => Controls { down: false, ..c },
            Key::LShift => Controls { forward: false, ..c },
            Key::RShift => Controls { backward: false, ..c },
            Key::Space => Controls { space: false, space_spacer: 0, ..c },
            Key::Num1 => Controls { one: false, ..c },
            Key::Num2 => Controls { two: false, ..c },
            Key::Num3 => Controls { three: false, ..c },
            Key::Num4 => Controls { four: false, ..c },
        };
    }

    /// Applies one event; tells whether the game should end.
    pub fn apply(&mut self, event: InputEvent) -> (status: LoopStatus)
        requires
            old(self).space_spacer < i128::MAX,
        ensures
            *final(self) == step(*old(self), event),
            final(self).space_spacer < i128::MAX,
            old(self).wf() ==> final(self).wf(),
            old(self).consistent() ==> final(self).consistent(),
            status == (if ends_game(event) { LoopStatus::Terminate } else { LoopStatus::Continue }),
    {
        match event {
            InputEvent::Quit => LoopStatus::Terminate,
            InputEvent::KeyDown(Key::Escape) => LoopStatus::Terminate,
            InputEvent::KeyDown(k) => {
                self.press(k);
                LoopStatus::Continue
            },
            InputEvent::KeyUp(k) => {
                self.release(k);
                LoopStatus::Continue
            },
            InputEvent::Other => LoopStatus::Continue,
        }
    }

    /// Applies the events polled for one frame, in order; the game ends when
    /// any of them asks it to.
    pub fn handle_keyboard(&mut self, events: &Vec<InputEvent>) -> (status: LoopStatus)
        requires
            old(self).space_spacer < i128::MAX,
        ensures
            *final(self) == steps(*old(self), events@),
            final(self).space_spacer < i128::MAX,
            old(self).wf() ==> final(self).wf(),
            old(self).consistent() ==> final(self).consistent(),
            status == (if any_ends_game(events@) { LoopStatus::Terminate } else { LoopStatus::Continue }),
    {
        let ghost start = *self;
        let mut return_status = LoopStatus::Continue;
        let mut i: usize = 0;
        while i < events.len()
            invariant
                i <= events.len(),
                self.space_spacer < i128::MAX,
                start.wf() ==> self.wf(),
                start.consistent() ==> self.consistent(),
                *self == steps(start, events@.take(i as int)),
                return_status == (if any_ends_game(events@.take(i as int)) {
                    LoopStatus::Terminate
                } else {
                    LoopStatus::Continue
                }),
            decreases events.len() - i,
        {
            let s = self.apply(events[i]);
            proof {
                let t = events@.take(i + 1);
                assert(t.drop_last() =~= events@.take(i as int));
                assert(t.last() == events@[i as int]);
                if any_ends_game(t) {
                    let j = choose|j: int| 0 <= j < t.len() && ends_game(#[trigger] t[j]);
                    if j < i {
                        assert(events@.take(i as int)[j] == t[j]);
                    }
                }
                if any_ends_game(events@.take(i as int)) {
                    let j = choose|j: int|
                        0 <= j < events@.take(i as int).len() && ends_game(#[trigger] events@.take(i as int)[j]);
                    assert(t[j] == events@.take(i as int)[j]);
                }
                if ends_game(events@[i as int]) {
                    assert(t[i as int] == events@[i as int]);
                }
            }
            if s == LoopStatus::Terminate {
                return_status = LoopStatus::Terminate;
            }
            i = i + 1;
        }
        assert(events@.take(events.len() as int) =~= events@);
        return_status
    }
}

/// Whether key `k` counts as held in `c` (Escape is never held).
pub open spec fn held(c: Controls, k: Key) -> bool {
    match k {
        Key::Escape => false,
        Key::Left => c.left,
        Key::Right => c.right,
        Key::Up => c.up,
        Key::Down => c.down,
        Key::LShift => c.forward,
        Key::RShift => c.backward,
        Key::Space => c.space,
        Key::Num1 => c.one,
        Key::Num2 => c.two,
        Key::Num3 => c.three,
        Key::Num4 => c.four,
    }
}

/// The controls after `n` key-down events of the space bar.
pub open spec fn hold_space(c: Controls, n: nat) -> Controls
    decreases n,
{
    if n == 0 {
        c
    } else {
        key_down(hold_space(c, (n - 1) as nat), Key::Space)
    }
}

/// Releasing a key lets go of it, and pressing any key but the space bar
/// and Escape holds it.
pub proof fn law_press_holds_and_release_lets_go(c: Controls, k: Key)
    ensures
        !held(key_up(c, k), k),
        k != Key::Space && k != Key::Escape ==> held(key_down(c, k), k),
{
}

/// Whatever events come, the repeat counter stays in range and opposite
/// arrow keys are never held together.
pub proof fn law_controls_stay_consistent(c: Controls, es: Seq<InputEvent>)
    requires
        c.consistent(),
    ensures
        steps(c, es).consistent(),
    decreases es.len(),
{
    if es.len() > 0 {
        law_controls_stay_consistent(c, es.drop_last());
    }
}

/// Holding the space bar from released fires on the first press and then on
/// every twelfth repeat: after `n` presses the shot flag is set exactly when
/// `n - 1` is a multiple of 12.
pub proof fn law_held_space_fires_every_twelfth_repeat(c: Controls, n: nat)
    requires
        c.space_spacer == 0,
        n > 0,
    ensures
        hold_space(c, n).space <==> (n - 1) % 12 == 0,
        hold_space(c, n).space_spacer == -12 + (n - 1) % 12,
    decreases n,
{
    let m = (n - 1) as nat;
    if n == 1 {
        assert(hold_space(c, 0) == c);
    } else {
        law_held_space_fires_every_twelfth_repeat(c, m);
        let r: int = (m - 1) % 12;
        assert(0 <= r < 12);
        if r == 11 {
            assert((n - 1) % 12 == 0) by {
                assert(n - 1 == (m - 1) + 1);
            }
        } else {
            assert((n - 1) % 12 == r + 1) by {
                assert(n - 1 == (m - 1) + 1);
            }
        }
    }
}

/// Pressing the space bar `i` times and then `m` times more is pressing it
/// `i + m` times.
proof fn lemma_hold_space_compose(c: Controls, i: nat, m: nat)
    ensures
        hold_space(c, i + m) == hold_space(hold_space(c, i), m),
    decreases m,
{
    if m > 0 {
        lemma_hold_space_compose(c, i, (m - 1) as nat);
        assert(hold_space(c, i + m) == key_down(hold_space(c, (i + m - 1) as nat), Key::Space));
    }
}

/// Right after a shot the next eleven presses do not fire.
proof fn lemma_quiet_after_shot(d: Controls, m: nat)
    requires
        d.space_spacer == -SPACE_REPEAT_GAP,
        1 <= m < 12,
    ensures
        hold_space(d, m).space_spacer == -12 + m,
        !hold_space(d, m).space,
    decreases m,
{
    if m > 1 {
        lemma_quiet_after_shot(d, (m - 1) as nat);
    } else {
        assert(hold_space(d, 0) == d);
    }
}

/// Whatever state the controls are in, of any twelve successive presses of
/// the space bar (with no release between them) at most one fires.
pub proof fn law_space_fires_at_most_once_in_twelve_presses(c: Controls, i: nat, j: nat)
    requires
        1 <= i < j < i + 12,
    ensures
        !(hold_space(c, i).space && hold_space(c, j).space),
{
    if hold_space(c, i).space {
        assert(hold_space(c, i) == key_down(hold_space(c, (i - 1) as nat), Key::Space));
        assert(hold_space(c, i).space_spacer == -SPACE_REPEAT_GAP);
        lemma_hold_space_compose(c, i, (j - i) as nat);
        lemma_quiet_after_shot(hold_space(c, i), (j - i) as nat);
    }
}

/// The frame rate the main loop aims at.
pub const TARGET_FPS: u128 = 30;

/// What the main loop does in one call.
#[derive(PartialEq, Eq, Structural, Clone, Copy, Debug)]
pub struct FramePlan {
    /// Whether a frame is drawn at all; when not, the loop just continues.
    pub render: bool,
    /// Milliseconds since the last drawn frame.
    pub elapsed_ms: u128,
    /// Whether the frame-rate text is refreshed.
    pub refresh_rate_text: bool,
    /// Whether the page is told that the game has started.
    pub call_start_game: bool,
    /// Whether the font is loaded now.
    pub load_text: bool,
    /// Whether the current screen is run.
    pub run_screen: bool,
}

/// The main loop's pacing state: calls so far, the time of the last drawn
/// frame, and whether the page has been told that the game started.
pub struct FrameClock {
    pub tick: u128,
    pub last_time_called: u128,
    pub javascript_start_game_called: bool,
}

impl FrameClock {
    pub fn new() -> (c: FrameClock)
        ensures
            c.tick == 0,
            c.last_time_called == 0,
            !c.javascript_start_game_called,
    {
        FrameClock { tick: 0, last_time_called: 0, javascript_start_game_called: false }
    }

    /// Plans one call of the main loop at `time_now` milliseconds after the
    /// start, with `text_loaded` telling whether the font is there. A frame
    /// is drawn only when at least 1000 / 30 ms passed since the last one.
    pub fn plan_frame(&mut self, time_now: u128, text_loaded: bool) -> (plan: FramePlan)
        requires
            old(self).tick < u128::MAX,
            old(self).last_time_called <= time_now,
        ensures
            final(self).tick == old(self).tick + 1,
            plan.elapsed_ms == time_now - old(self).last_time_called,
            plan.render == (time_now - old(self).last_time_called >= 1000u128 / TARGET_FPS),
            !plan.render ==> {
                &&& final(self).last_time_called == old(self).last_time_called
                &&& final(self).javascript_start_game_called == old(self).javascript_start_game_called
                &&& !plan.refresh_rate_text && !plan.call_start_game && !plan.load_text && !plan.run_screen
            },
            plan.render ==> {
                &&& final(self).last_time_called == time_now
                &&& plan.refresh_rate_text == (final(self).tick % 20 <= 1)
                &&& plan.call_start_game == (!old(self).javascript_start_game_called && text_loaded)
                &&& final(self).javascript_start_game_called == (
                old(self).javascript_start_game_called || text_loaded)
                &&& plan.load_text == (final(self).tick > 2 && !text_loaded)
                &&& plan.run_screen == (final(self).tick > 3)
            },
    {
        self.tick = self.tick + 1;
        let diff = time_now - self.last_time_called;
        if diff < 1000 / TARGET_FPS {
            return FramePlan {
                render: false,
                elapsed_ms: diff,
                refresh_rate_text: false,
                call_start_game: false,
                load_text: false,
                run_screen: false,
            };
        }
        self.last_time_called = time_now;
        let refresh_rate_text = self.tick % 20 <= 1;
        let mut call_start_game = false;
        if !self.javascript_start_game_called && text_loaded {
            self.javascript_start_game_called = true;
            call_start_game = true;
        }
        let load_text = self.tick > 2 && !text_loaded;
        let run_screen = self.tick > 3;
        FramePlan { render: true, elapsed_ms: diff, refresh_rate_text, call_start_game, load_text, run_screen }
    }
}

/// The controls once the pending shot has been taken as a command.
pub open spec fn shot_used(c: Controls) -> Controls {
    Controls { space: false, ..c }
}

/// The screen the game shows.
#[derive(PartialEq, Eq, Structural, Clone, Copy, Debug)]
pub enum Screen {
    Start,
    Main,
    End,
}

/// Points for shooting down a plane.
pub const PLANE_HIT_SCORE: i32 = 10;

/// The score after a frame that starts at `s0`, collects `picked` prizes
/// (`add_pickups`) and shoots down `hits` planes (`plane_shot_down` each).
pub open spec fn frame_score(s0: int, picked: int, hits: nat) -> int {
    s0 + picked + PLANE_HIT_SCORE * hits
}

/// Each plane shot down adds its points to the frame's score, and the score
/// never falls within a frame.
pub proof fn law_score_never_falls_in_a_frame(s0: int, picked: int, hits: nat)
    requires
        picked >= 0,
    ensures
        frame_score(s0, picked, 0) == s0 + picked,
        frame_score(s0, picked, hits + 1) == frame_score(s0, picked, hits) + PLANE_HIT_SCORE,
        frame_score(s0, picked, hits) >= s0,
{
    assert(PLANE_HIT_SCORE * hits >= 0) by (nonlinear_arith)
        requires
            hits >= 0,
    ;
    assert(PLANE_HIT_SCORE * (hits + 1) == PLANE_HIT_SCORE * hits + PLANE_HIT_SCORE) by (nonlinear_arith);
}

/// The screen shown and the score.
pub struct Game {
    pub screen: Screen,
    pub score: i32,
}

impl Game {
    pub fn new() -> (g: Game)
        ensures
            g.screen == Screen::Start,
            g.score == 0,
    {
        Game { screen: Screen::Start, score: 0 }
    }

    /// On the start screen, the space bar starts a game: the score goes back
    /// to 0, the main screen comes up and the shot is used up. Tells whether
    /// a game started, so that the caller resets the shields and the player.
    pub fn start_screen(&mut self, controls: &mut Controls) -> (started: bool)
        requires
            old(self).screen == Screen::Start,
        ensures
            started == old(controls).space,
            started ==> final(self).screen == Screen::Main && final(self).score == 0
                && *final(controls) == shot_used(*old(controls)),
            !started ==> final(self).screen == old(self).screen && final(self).score == old(self).score
                && *final(controls) == *old(controls),
    {
        if controls.space {
            self.score = 0;
            self.screen = Screen::Main;
            controls.space = false;
            true
        } else {
            false
        }
    }

    /// On the game-over screen, the space bar goes back to the start screen,
    /// using up the shot.
    pub fn end_screen(&mut self, controls: &mut Controls) -> (restarted: bool)
        requires
            old(self).screen == Screen::End,
        ensures
            restarted == old(controls).space,
            restarted ==> final(self).screen == Screen::Start
                && *final(controls) == shot_used(*old(controls)),
            !restarted ==> final(self).screen == old(self).screen && *final(controls) == *old(controls),
            final(self).score == old(self).score,
    {
        if controls.space {
            controls.space = false;
            self.screen = Screen::Start;
            true
        } else {
            false
        }
    }

    /// The shields ran out: the game is over.
    pub fn shields_depleted(&mut self)
        requires
            old(self).screen == Screen::Main,
        ensures
            final(self).screen == Screen::End,
            final(self).score == old(self).score,
    {
        self.screen = Screen::End;
    }

    /// Adds the points of the pickups collected this frame.
    pub fn add_pickups(&mut self, picked_up: i32)
        requires
            0 <= picked_up,
            old(self).score + picked_up <= i32::MAX,
        ensures
            final(self).score == old(self).score + picked_up,
            final(self).screen == old(self).screen,
    {
        self.score = self.score + picked_up;
    }

    /// A plane was shot down.
    pub fn plane_shot_down(&mut self)
        requires
            old(self).score + PLANE_HIT_SCORE <= i32::MAX,
        ensures
            final(self).score == old(self).score + PLANE_HIT_SCORE,
            final(self).screen == old(self).screen,
    {
        self.score = self.score + PLANE_HIT_SCORE;
    }
}

} // verus!
