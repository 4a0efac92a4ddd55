use terrain::runtime::{Controls, FrameClock, Game, InputEvent, Key, LoopStatus, Screen};

#[test]
fn new_controls_hold_nothing() {
    let c = Controls::new();
    assert!(!c.left && !c.right && !c.up && !c.down && !c.forward && !c.backward && !c.space);
    assert!(!c.one && !c.two && !c.three && !c.four);
    assert_eq!(c.space_spacer, 0);
}

#[test]
fn arrows_cancel_their_opposites() {
    let mut c = Controls::new();
    assert_eq!(c.apply(InputEvent::KeyDown(Key::Left)), LoopStatus::Continue);
    assert!(c.left && !c.right);
    c.apply(InputEvent::KeyDown(Key::Right));
    assert!(c.right && !c.left);
    c.apply(InputEvent::KeyDown(Key::Up));
    c.apply(InputEvent::KeyDown(Key::Down));
    assert!(c.down && !c.up);
    c.apply(InputEvent::KeyUp(Key::Down));
    assert!(!c.down && !c.up);
}

#[test]
fn release_lets_go_of_each_key() {
    let keys = [
        Key::Left, Key::Right, Key::Up, Key::Down, Key::LShift, Key::RShift, Key::Num1, Key::Num2, Key::Num3,
        Key::Num4,
    ];
    for k in keys.iter() {
        let mut c = Controls::new();
        c.apply(InputEvent::KeyDown(*k));
        c.apply(InputEvent::KeyUp(*k));
        assert_eq!(c, Controls::new());
    }
}

#[test]
fn shifts_and_numbers_set_their_flags() {
    let mut c = Controls::new();
    c.apply(InputEvent::KeyDown(Key::LShift));
    c.apply(InputEvent::KeyDown(Key::RShift));
    c.apply(InputEvent::KeyDown(Key::Num1));
    c.apply(InputEvent::KeyDown(Key::Num4));
    assert!(c.forward && c.backward && c.one && c.four && !c.two && !c.three);
}

#[test]
fn held_space_fires_on_first_press_then_every_twelfth() {
    let mut c = Controls::new();
    let mut fired = vec![];
    for n in 1..=30 {
        c.apply(InputEvent::KeyDown(Key::Space));
        if c.space {
            fired.push(n);
        }
    }
    assert_eq!(fired, vec![1, 13, 25]);
    assert_eq!(c.space_spacer, -12 + 29 % 12);
}

#[test]
fn releasing_space_resets_the_repeat_counter() {
    let mut c = Controls::new();
    c.apply(InputEvent::KeyDown(Key::Space));
    c.apply(InputEvent::KeyDown(Key::Space));
    assert!(!c.space);
    assert_eq!(c.space_spacer, -11);
    c.apply(InputEvent::KeyUp(Key::Space));
    assert!(!c.space);
    assert_eq!(c.space_spacer, 0);
    c.apply(InputEvent::KeyDown(Key::Space));
    assert!(c.space);
}

#[test]
fn escape_and_quit_end_the_game() {
    let mut c = Controls::new();
    assert_eq!(c.apply(InputEvent::KeyDown(Key::Escape)), LoopStatus::Terminate);
    assert_eq!(c.apply(InputEvent::Quit), LoopStatus::Terminate);
    assert_eq!(c.apply(InputEvent::KeyUp(Key::Escape)), LoopStatus::Continue);
    assert_eq!(c.apply(InputEvent::Other), LoopStatus::Continue);
    assert_eq!(c, Controls::new());
}

#[test]
fn handle_keyboard_applies_all_events_in_order() {
    let mut c = Controls::new();
    let events = vec![
        InputEvent::KeyDown(Key::Left),
        InputEvent::KeyDown(Key::Escape),
        InputEvent::KeyDown(Key::Up),
        InputEvent::KeyUp(Key::Left),
    ];
    assert_eq!(c.handle_keyboard(&events), LoopStatus::Terminate);
    assert!(!c.left && c.up);
    let events = vec![InputEvent::KeyDown(Key::Right), InputEvent::Other];
    assert_eq!(c.handle_keyboard(&events), LoopStatus::Continue);
    assert!(c.right);
    assert_eq!(c.handle_keyboard(&vec![]), LoopStatus::Continue);
}

#[test]
fn frames_are_paced_at_thirty_per_second() {
    let mut clock = FrameClock::new();
    let plan = clock.plan_frame(10, false);
    assert!(!plan.render);
    assert_eq!(plan.elapsed_ms, 10);
    assert_eq!(clock.tick, 1);
    assert_eq!(clock.last_time_called, 0);
    let plan = clock.plan_frame(33, false);
    assert!(plan.render);
    assert_eq!(plan.elapsed_ms, 33);
    assert_eq!(clock.tick, 2);
    assert_eq!(clock.last_time_called, 33);
    assert!(!plan.refresh_rate_text);
    assert!(!plan.load_text && !plan.run_screen && !plan.call_start_game);
}

#[test]
fn font_loads_from_third_tick_and_screens_run_from_fourth() {
    let mut clock = FrameClock::new();
    let p1 = clock.plan_frame(100, false);
    let p2 = clock.plan_frame(200, false);
    let p3 = clock.plan_frame(300, false);
    assert!(p1.render && p2.render && p3.render);
    assert!(!p1.load_text && !p2.load_text && p3.load_text);
    assert!(p1.refresh_rate_text && !p2.refresh_rate_text);
    assert!(!p3.run_screen);
    let p4 = clock.plan_frame(400, true);
    assert!(p4.run_screen && !p4.load_text);
    assert!(p4.call_start_game);
    assert!(clock.javascript_start_game_called);
    let p5 = clock.plan_frame(500, true);
    assert!(!p5.call_start_game);
    assert!(!p4.refresh_rate_text);
}

#[test]
fn space_starts_a_game_and_resets_the_score() {
    let mut g = Game::new();
    assert_eq!(g.screen, Screen::Start);
    let mut c = Controls::new();
    assert!(!g.start_screen(&mut c));
    assert_eq!(g.screen, Screen::Start);
    c.apply(InputEvent::KeyDown(Key::Space));
    g.score = 55;
    assert!(g.start_screen(&mut c));
    assert_eq!(g.screen, Screen::Main);
    assert_eq!(g.score, 0);
    assert!(!c.space);
}

#[test]
fn score_counts_pickups_and_planes() {
    let mut g = Game::new();
    g.screen = Screen::Main;
    g.add_pickups(3);
    g.plane_shot_down();
    g.plane_shot_down();
    assert_eq!(g.score, 23);
    g.add_pickups(0);
    assert_eq!(g.score, 23);
}

#[test]
fn game_over_and_back_to_start() {
    let mut g = Game::new();
    g.screen = Screen::Main;
    g.score = 40;
    g.shields_depleted();
    assert_eq!(g.screen, Screen::End);
    let mut c = Controls::new();
    assert!(!g.end_screen(&mut c));
    assert_eq!(g.screen, Screen::End);
    c.space = true;
    assert!(g.end_screen(&mut c));
    assert_eq!(g.screen, Screen::Start);
    assert_eq!(g.score, 40);
    assert!(!c.space);
}

#[test]
fn twelve_space_presses_fire_at_most_once_from_any_counter() {
    for start in -12i128..=0 {
        let mut c = Controls::new();
        c.space_spacer = start;
        let mut fired = vec![];
        for _ in 0..24 {
            c.apply(InputEvent::KeyDown(Key::Space));
            fired.push(c.space);
        }
        for i in 0..fired.len() {
            for j in (i + 1)..fired.len().min(i + 12) {
                assert!(!(fired[i] && fired[j]), "start {} presses {} and {}", start, i, j);
            }
        }
        assert_eq!(fired.iter().filter(|f| **f).count(), 2);
    }
}

#[test]
fn the_score_never_falls_in_a_frame() {
    let mut g = Game::new();
    g.add_pickups(4);
    let start = g.score;
    g.add_pickups(2);
    g.plane_shot_down();
    g.plane_shot_down();
    assert_eq!(g.score, start + 2 + 20);
    assert!(g.score >= start);
}
