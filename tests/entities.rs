use whale_simulator::entity::{
    Boat, Direction, Harpoon, Krill, Player, HARPOON_ROW, RATIO_BAD, RATIO_GOOD, WHALE_ALIVE,
    WHALE_DEAD,
};
use whale_simulator::score::{ratio_string, thousandths};

const FIELD: (u16, u16) = (20, 15);

#[test]
fn player_starts_centred_below_the_middle() {
    let p = Player::new(&FIELD, 0);
    assert_eq!(*p.position(), (10, 10));
    assert_eq!(p.harpoon_count, 0);
    assert_eq!(p.krill_eaten, 0);
    assert!(!p.is_disabled(0));
    assert_eq!(p.emoji(0), WHALE_ALIVE);
}

#[test]
fn player_moves_by_two_columns_and_one_row() {
    let mut p = Player::new(&FIELD, 0);
    p.migrate(&FIELD, Direction::Left, 0);
    assert_eq!(*p.position(), (8, 10));
    p.migrate(&FIELD, Direction::Right, 0);
    p.migrate(&FIELD, Direction::Right, 0);
    assert_eq!(*p.position(), (12, 10));
    p.migrate(&FIELD, Direction::Up, 0);
    assert_eq!(*p.position(), (12, 9));
    p.migrate(&FIELD, Direction::Down, 0);
    p.migrate(&FIELD, Direction::Down, 0);
    assert_eq!(*p.position(), (12, 11));
}

#[test]
fn player_never_leaves_the_playable_area() {
    let directions = [Direction::Up, Direction::Down, Direction::Left, Direction::Right];
    for d in directions {
        let mut p = Player::new(&FIELD, 0);
        for _ in 0..40 {
            p.migrate(&FIELD, d, 0);
            let (x, y) = *p.position();
            assert!(x < FIELD.0);
            assert!(y >= 6 && y < FIELD.1);
        }
    }
    let mut p = Player::new(&FIELD, 0);
    for _ in 0..40 {
        p.migrate(&FIELD, Direction::Up, 0);
    }
    assert_eq!(p.position().1, 6);
    for _ in 0..40 {
        p.migrate(&FIELD, Direction::Down, 0);
    }
    assert_eq!(p.position().1, 14);
    for _ in 0..40 {
        p.migrate(&FIELD, Direction::Right, 0);
    }
    assert_eq!(p.position().0, 18);
    for _ in 0..40 {
        p.migrate(&FIELD, Direction::Left, 0);
    }
    assert_eq!(p.position().0, 0);
}

#[test]
fn harpooned_player_cannot_move() {
    let mut p = Player::new(&FIELD, 0);
    p.harpoon(100);
    assert_eq!(p.harpoon_count, 1);
    assert!(p.is_disabled(100));
    assert!(p.is_disabled(2_099));
    assert!(!p.is_disabled(2_100));
    assert_eq!(p.emoji(100), WHALE_DEAD);
    for d in [Direction::Up, Direction::Down, Direction::Left, Direction::Right] {
        p.migrate(&FIELD, d, 500);
        assert_eq!(*p.position(), (10, 10));
    }
    p.migrate(&FIELD, Direction::Left, 2_100);
    assert_eq!(*p.position(), (8, 10));
}

#[test]
fn second_harpoon_restarts_the_wait() {
    let mut p = Player::new(&FIELD, 0);
    p.harpoon(0);
    p.harpoon(1_500);
    assert_eq!(p.harpoon_count, 2);
    assert!(p.is_disabled(3_000));
    assert!(!p.is_disabled(3_500));
}

#[test]
fn ratio_is_undefined_without_harpoons() {
    let mut p = Player::new(&FIELD, 0);
    assert_eq!(p.ratio(), "\u{221E}");
    p.krill_eaten = 5;
    assert_eq!(p.ratio(), "\u{221E}");
    assert_eq!(p.ratio_emoji(), RATIO_GOOD);
}

#[test]
fn ratio_of_nine_krill_to_three_harpoons() {
    let mut p = Player::new(&FIELD, 0);
    p.krill_eaten = 9;
    p.harpoon_count = 3;
    assert_eq!(p.ratio(), "3.000");
    assert_eq!(p.ratio_emoji(), RATIO_GOOD);
}

#[test]
fn ratio_rounds_to_three_places() {
    assert_eq!(ratio_string(1, 3), "0.333");
    assert_eq!(ratio_string(2, 3), "0.667");
    assert_eq!(ratio_string(0, 4), "0.000");
    assert_eq!(ratio_string(10, 1), "10.000");
    assert_eq!(ratio_string(1234, 1), "1234.000");
    assert_eq!(ratio_string(1, 16), "0.062");
    assert_eq!(ratio_string(3, 16), "0.188");
    assert_eq!(thousandths(9, 3), 3_000);
    assert_eq!(thousandths(1, 7), 143);
}

#[test]
fn ratio_emoji_turns_bad_with_more_harpoons_than_krill() {
    let mut p = Player::new(&FIELD, 0);
    p.harpoon_count = 2;
    p.krill_eaten = 1;
    assert_eq!(p.ratio_emoji(), RATIO_BAD);
}

#[test]
fn krill_appear_on_even_columns_below_the_waves() {
    for _ in 0..500 {
        let k = Krill::new(FIELD);
        let (x, y) = *k.position();
        assert!(x < FIELD.0);
        assert_eq!(x % 2, 0);
        assert!(y >= 7 && y < FIELD.1);
    }
    assert_eq!(*Krill::at((4, 9)).position(), (4, 9));
}

#[test]
fn boats_enter_left_and_schedule_a_harpoon() {
    for _ in 0..200 {
        let b = Boat::new(1_000);
        assert_eq!(b.position(), 0);
        assert!(b.next_harpoon_spawn >= 6_000 && b.next_harpoon_spawn < 11_000);
    }
}

#[test]
fn boat_fires_once_its_time_comes() {
    let mut b = Boat::new(0);
    let due = b.next_harpoon_spawn;
    assert!(!b.harpoon_time(due - 1));
    assert_eq!(b.next_harpoon_spawn, due);
    assert!(b.harpoon_time(due));
    assert!(b.next_harpoon_spawn >= due + 5_000 && b.next_harpoon_spawn < due + 10_000);
    b.migrate();
    b.migrate();
    assert_eq!(b.position(), 4);
}

#[test]
fn harpoons_drop_under_their_boat_and_fall() {
    let mut b = Boat::new(0);
    b.migrate();
    let mut h = Harpoon::new(&b);
    assert_eq!(*h.position(), (2, HARPOON_ROW));
    h.migrate();
    assert_eq!(*h.position(), (2, HARPOON_ROW + 1));
    assert_eq!(*Harpoon::at((3, 12)).position(), (3, 12));
}
