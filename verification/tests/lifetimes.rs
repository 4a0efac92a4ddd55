use terrain::bullet::{age_bullets, BulletInstance, BULLET_LIFE, FINISHED_CLICKS};
use terrain::pickup::{pickup_key, Pickup, PICKUP_TIME};
use terrain::special_effects::{age_effects, explosion_ticks, SpecialInstance};

fn bullet(clicks: i32, enemy: bool) -> BulletInstance<u8> {
    let mut b = BulletInstance::new(1, 2, 3, enemy);
    b.clicks = clicks;
    b
}

#[test]
fn new_bullet_is_fresh() {
    let b = BulletInstance::new(1u8, 2, 3, true);
    assert_eq!((b.direction, b.position, b.colour, b.clicks, b.enemy), (1, 2, 3, 0, true));
}

#[test]
fn bullets_age_and_leave_after_eighty_frames() {
    let mut v = vec![bullet(0, false), bullet(80, true), bullet(79, false)];
    age_bullets(&mut v);
    assert_eq!(v.iter().map(|b| b.clicks).collect::<Vec<_>>(), vec![1, 80]);
    assert_eq!(v.iter().map(|b| b.enemy).collect::<Vec<_>>(), vec![false, false]);
}

#[test]
fn a_bullet_lives_eighty_updates() {
    let mut v = vec![bullet(0, false)];
    for _ in 0..BULLET_LIFE {
        age_bullets(&mut v);
    }
    assert_eq!(v.len(), 1);
    age_bullets(&mut v);
    assert!(v.is_empty());
}

#[test]
fn finished_bullet_leaves_at_next_update() {
    let mut v = vec![bullet(3, false), bullet(5, true)];
    v[0].mark_finished();
    assert_eq!(v[0].clicks, FINISHED_CLICKS);
    age_bullets(&mut v);
    assert_eq!(v.len(), 1);
    assert!(v[0].enemy);
}

#[test]
fn pickup_keys() {
    assert_eq!(pickup_key(0, 0), 0);
    assert_eq!(pickup_key(3, -5), 3067);
    assert_eq!(pickup_key(-2, 7), -2041);
}

#[test]
fn a_prize_is_placed_once_per_key() {
    let mut p: Pickup<u8> = Pickup::new(4, 9);
    p.new_instance(1, 2, 10, 20);
    p.new_instance(1, 2, 11, 21);
    assert_eq!(p.onmap.len(), 1);
    let prize = &p.onmap[&1026];
    assert_eq!((prize.position, prize.colour, prize.clicks, prize.picked_up), (10, 20, PICKUP_TIME, false));
    assert_eq!((p.vao, p.texture), (4, 9));
}

#[test]
fn close_prizes_are_taken_once() {
    let mut p: Pickup<u8> = Pickup::new(0, 0);
    p.new_instance(0, 1, 0, 0);
    p.new_instance(0, 2, 0, 0);
    p.new_instance(0, 3, 0, 0);
    assert_eq!(p.update_pickups(&vec![1, 3, 99]), 2);
    assert!(!p.onmap.contains_key(&1) && !p.onmap.contains_key(&3));
    assert_eq!(p.onmap.len(), 1);
    assert!(!p.onmap[&2].picked_up);
    assert_eq!(p.onmap[&2].clicks, PICKUP_TIME - 1);
    assert_eq!(p.update_pickups(&vec![1, 2, 3]), 1);
    assert!(p.onmap.is_empty());
    assert_eq!(p.update_pickups(&vec![1, 2, 3]), 0);
}

#[test]
fn a_taken_prize_can_be_placed_again() {
    let mut p: Pickup<u8> = Pickup::new(0, 0);
    p.new_instance(0, 1, 7, 0);
    assert_eq!(p.update_pickups(&vec![1]), 1);
    p.new_instance(0, 1, 8, 0);
    assert_eq!(p.onmap[&1].clicks, PICKUP_TIME);
    assert_eq!(p.onmap[&1].position, 8);
}

#[test]
fn prizes_leave_after_their_time() {
    let mut p: Pickup<u8> = Pickup::new(0, 0);
    p.new_instance(5, 5, 0, 0);
    for _ in 0..PICKUP_TIME {
        p.update_pickups(&vec![]);
    }
    assert_eq!(p.onmap.len(), 1);
    assert_eq!(p.onmap[&5125].clicks, 0);
    p.update_pickups(&vec![]);
    assert!(p.onmap.is_empty());
}

#[test]
fn prize_decrease_counts_down() {
    let mut p: Pickup<u8> = Pickup::new(0, 0);
    p.new_instance(0, 0, 0, 0);
    let prize = p.onmap.get_mut(&0).unwrap();
    assert_eq!(prize.decrease(), PICKUP_TIME - 1);
    assert_eq!(prize.clicks, PICKUP_TIME - 1);
}

fn fragment(ticks: i32) -> SpecialInstance<u8, u8> {
    SpecialInstance { position: 0, direction: 0, scale: 1, ticks, speed: 1, tex_index: 0 }
}

#[test]
fn fragments_age_and_leave() {
    let mut v = vec![fragment(1), fragment(3), fragment(2)];
    age_effects(&mut v);
    assert_eq!(v.iter().map(|f| f.ticks).collect::<Vec<_>>(), vec![2, 1]);
    assert_eq!(v.iter().map(|f| f.tex_index).collect::<Vec<_>>(), vec![1, 1]);
    age_effects(&mut v);
    age_effects(&mut v);
    assert!(v.is_empty());
}

#[test]
fn fragment_colours_cycle() {
    let mut f = fragment(5);
    let colours: Vec<usize> = (0..5).map(|_| f.next_colour(3)).collect();
    assert_eq!(colours, vec![0, 1, 2, 0, 1]);
    assert_eq!(f.tex_index, 5);
}

#[test]
fn explosion_has_a_core_and_thirty_fragments() {
    let mut rng = rand::thread_rng();
    for _ in 0..10 {
        let t = explosion_ticks(&mut rng);
        assert_eq!(t.len(), 31);
        assert_eq!(t[0], 8);
        assert!(t[1..].iter().all(|x| (20..30).contains(x)));
    }
}

#[test]
fn explosion_fragments_are_gone_after_twenty_nine_frames() {
    let mut v: Vec<SpecialInstance<u8, u8>> = (1..=29).map(fragment).collect();
    for _ in 0..28 {
        age_effects(&mut v);
    }
    assert_eq!(v.len(), 1);
    assert_eq!(v[0].ticks, 1);
    age_effects(&mut v);
    assert!(v.is_empty());
}
