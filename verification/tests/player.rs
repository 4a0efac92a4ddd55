use std::collections::VecDeque;
use terrain::player::{update_camera, PlayerAction, PlayerStatus};

#[test]
fn hits_count_only_when_close_and_not_frozen() {
    let mut p = PlayerStatus::new();
    assert!(!p.been_hit(false));
    assert!(p.been_hit(true));
    assert_eq!(p.been_hit, 1);
    p.rollback();
    assert!(!p.been_hit(true));
    assert_eq!(p.been_hit, 1);
}

#[test]
fn crash_freezes_for_sixty_frames() {
    let mut p = PlayerStatus::new();
    assert_eq!(p.update_player(), PlayerAction::Update);
    p.rollback();
    assert!(p.player_reset);
    assert_eq!(p.player_reset_countdown, 60);
    for n in 1..60 {
        assert_eq!(p.update_player(), PlayerAction::Wait);
        assert_eq!(p.player_reset_countdown, 60 - n);
    }
    assert_eq!(p.update_player(), PlayerAction::Reset);
    assert!(!p.player_reset);
    assert_eq!(p.update_player(), PlayerAction::Update);
}

#[test]
fn reset_unfreezes() {
    let mut p = PlayerStatus::new();
    p.rollback();
    p.reset();
    assert!(!p.player_reset);
    assert_eq!(p.update_player(), PlayerAction::Update);
}

#[test]
fn camera_takes_the_oldest_queued_direction() {
    let mut q: VecDeque<u32> = VecDeque::new();
    assert_eq!(update_camera(&mut q), None);
    q.push_back(1);
    q.push_back(2);
    assert_eq!(update_camera(&mut q), Some(1));
    assert_eq!(q.iter().cloned().collect::<Vec<_>>(), vec![2]);
}

#[test]
fn camera_queue_is_cut_to_thirty() {
    let mut q: VecDeque<u32> = (0..40).collect();
    assert_eq!(update_camera(&mut q), Some(0));
    assert_eq!(q.len(), 30);
    assert_eq!(q.front(), Some(&10));
    assert_eq!(q.back(), Some(&39));
}

#[test]
fn sixty_updates_after_a_crash_fly_again() {
    let mut p = PlayerStatus::new();
    p.rollback();
    for k in 1..60 {
        assert_eq!(p.update_player(), PlayerAction::Wait);
        assert!(p.player_reset);
        assert_eq!(p.player_reset_countdown, 60 - k);
    }
    assert_eq!(p.update_player(), PlayerAction::Reset);
    assert!(!p.player_reset);
    assert_eq!(p.update_player(), PlayerAction::Update);
}
