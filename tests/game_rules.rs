use whale_simulator::entity::{Boat, Direction, Harpoon, Krill};
use whale_simulator::game::{Command, GameState, SetupError};
use whale_simulator::pacing::{rest_after, round_continues, Args};

const FAR: u64 = 1_000_000_000;

fn game() -> GameState {
    GameState::new((20, 15), 0).unwrap()
}

/// A game whose timers are all far off, so that nothing spawns or moves.
fn quiet_game() -> GameState {
    let mut g = game();
    g.next_boat_move = FAR;
    g.next_boat_spawn = FAR;
    g.next_harpoon_move = FAR;
    g.next_krill = FAR;
    g
}

#[test]
fn small_fields_are_refused() {
    assert_eq!(GameState::new((19, 15), 0).err(), Some(SetupError::TooSmall { width: 19, height: 15 }));
    assert_eq!(GameState::new((20, 14), 0).err(), Some(SetupError::TooSmall { width: 20, height: 14 }));
    let g = GameState::new((20, 15), 7).unwrap();
    assert!(g.alive);
    assert_eq!(g.size, (20, 15));
    assert_eq!(g.player.position, (10, 10));
    assert!(g.boats.is_empty() && g.harpoons.is_empty() && g.krill.is_empty());
    assert_eq!(g.max_krill(), 3);
}

#[test]
fn harpoon_on_the_whale_hits_it() {
    let mut g = game();
    let at = *g.player.position();
    assert_eq!(at, (10, 10));
    g.harpoons.push(Harpoon::at(at));
    assert!(g.tick(0, &vec![]));
    assert_eq!(g.player.harpoon_count, 1);
    assert!(g.player.is_disabled(0));
    assert!(g.harpoons.iter().all(|h| *h.position() != at));
}

#[test]
fn two_harpoons_at_once_count_as_one_hit() {
    let mut g = quiet_game();
    let at = g.player.position;
    g.harpoons.push(Harpoon::at(at));
    g.harpoons.push(Harpoon::at((0, 7)));
    g.harpoons.push(Harpoon::at(at));
    g.think(10);
    assert_eq!(g.player.harpoon_count, 1);
    assert!(g.player.is_disabled(10));
    assert_eq!(g.harpoons.len(), 1);
    assert_eq!(g.harpoons[0].position, (0, 7));
}

#[test]
fn harpoon_is_checked_after_the_moves_of_the_tick() {
    let mut g = quiet_game();
    g.harpoons.push(Harpoon::at((10, 10)));
    g.tick(5, &vec![Command::Move(Direction::Left)]);
    assert_eq!(g.player.harpoon_count, 0);
    assert_eq!(g.player.position, (8, 10));
    assert_eq!(g.harpoons.len(), 1);
}

#[test]
fn krill_on_the_whale_are_eaten() {
    let mut g = quiet_game();
    let at = g.player.position;
    g.krill.push(Krill::at(at));
    g.krill.push(Krill::at((2, 8)));
    g.krill.push(Krill::at(at));
    g.tick(3, &vec![]);
    assert_eq!(g.player.krill_eaten, 2);
    assert_eq!(g.player.harpoon_count, 0);
    assert!(!g.player.is_disabled(3));
    assert_eq!(g.krill.len(), 1);
    assert_eq!(g.krill[0].position, (2, 8));
}

#[test]
fn krill_stop_at_the_field_cap() {
    let mut g = game();
    for _ in 0..3 {
        g.krill.push(Krill::at((0, 14)));
    }
    g.spawn_krill_with(0, Krill::at((2, 9)), 700);
    assert_eq!(g.krill.len(), 3);
    assert_eq!(g.next_krill, 700);
    g.krill.pop();
    g.spawn_krill_with(700, Krill::at((2, 9)), 800);
    assert_eq!(g.krill.len(), 3);
    assert_eq!(g.krill[2].position, (2, 9));
    assert_eq!(g.next_krill, 1_500);
    g.spawn_krill_with(1_499, Krill::at((4, 9)), 800);
    assert_eq!(g.krill.len(), 3);
    assert_eq!(g.next_krill, 1_500);
}

#[test]
fn random_krill_never_pass_the_cap() {
    let mut g = game();
    for t in 0..200u64 {
        g.spawn_krill(t * 5_000);
        assert!(g.krill.len() <= g.max_krill());
    }
    assert_eq!(g.krill.len(), 3);
}

#[test]
fn boats_leave_before_crossing_the_right_edge() {
    let mut g = quiet_game();
    g.boats.push(Boat { next_harpoon_spawn: FAR, position: 16 });
    g.boats.push(Boat { next_harpoon_spawn: FAR, position: 17 });
    g.boats.push(Boat { next_harpoon_spawn: FAR, position: 18 });
    g.next_boat_move = 100;
    g.move_boats(99);
    assert_eq!(g.boats.len(), 3);
    g.move_boats(100);
    assert_eq!(g.boats.len(), 2);
    assert_eq!(g.boats[0].position, 18);
    assert_eq!(g.boats[1].position, 19);
    assert_eq!(g.next_boat_move, 1_100);
    g.move_boats(1_100);
    assert!(g.boats.is_empty());
}

#[test]
fn harpoons_leave_before_crossing_the_bottom_edge() {
    let mut g = quiet_game();
    g.harpoons.push(Harpoon::at((4, 13)));
    g.harpoons.push(Harpoon::at((6, 14)));
    g.next_harpoon_move = 50;
    g.move_harpoons(50);
    assert_eq!(g.harpoons.len(), 1);
    assert_eq!(g.harpoons[0].position, (4, 14));
    assert_eq!(g.next_harpoon_move, 300);
    g.move_harpoons(300);
    assert!(g.harpoons.is_empty());
}

#[test]
fn entities_stay_inside_the_field_over_many_ticks() {
    let mut g = game();
    for t in 0..3_000u64 {
        g.tick(t * 33, &vec![]);
        for b in &g.boats {
            assert!(b.position() < 20);
        }
        for h in &g.harpoons {
            assert!(h.position().0 < 20 && h.position().1 < 15);
        }
        assert!(g.krill.len() <= 3);
    }
}

#[test]
fn boats_spawn_and_drop_harpoons() {
    let mut g = quiet_game();
    g.next_boat_spawn = 10;
    g.spawn_boat_with(10, 20, 3_000);
    assert_eq!(g.boats.len(), 1);
    assert_eq!(g.boats[0].position, 0);
    assert_eq!(g.next_boat_spawn, 3_010);
    g.spawn_boat(3_009);
    assert_eq!(g.boats.len(), 1);
    g.launch(19);
    assert!(g.harpoons.is_empty());
    g.launch(20);
    assert_eq!(g.harpoons.len(), 1);
    assert_eq!(g.harpoons[0].position, (0, 6));
    assert!(g.boats[0].next_harpoon_spawn >= 5_020 && g.boats[0].next_harpoon_spawn < 10_020);
    g.spawn_boat(3_010);
    assert_eq!(g.boats.len(), 2);
    assert!(g.next_boat_spawn >= 5_510 && g.next_boat_spawn < 8_010);
}

#[test]
fn one_harpoon_on_a_fresh_field() {
    let mut g = GameState::new((20, 15), 0).unwrap();
    let start = g.player.position;
    g.harpoons.push(Harpoon::at(start));
    assert!(g.tick(0, &vec![]));
    assert_eq!(g.player.harpoon_count, 1);
    assert!(g.player.is_disabled(0));
    assert!(!g.harpoons.iter().any(|h| h.position == start));
}

#[test]
fn quiet_ticks_change_nothing() {
    let mut g = quiet_game();
    let start = g.player.position;
    for t in 0..500u64 {
        assert!(g.tick(t * 10, &vec![]));
        assert_eq!(g.player.position, start);
        assert_eq!(g.player.harpoon_count, 0);
        assert_eq!(g.player.krill_eaten, 0);
        assert!(g.krill.is_empty() && g.boats.is_empty() && g.harpoons.is_empty());
    }
    g.tick(FAR, &vec![]);
    assert_eq!(g.krill.len(), 1);
    assert_eq!(g.boats.len(), 1);
}

#[test]
fn commands_apply_in_order_and_quit_ends_the_game() {
    let mut g = quiet_game();
    let cmds = vec![
        Command::Move(Direction::Up),
        Command::Move(Direction::Right),
        Command::Quit,
        Command::Move(Direction::Up),
    ];
    assert!(!g.tick(1, &cmds));
    assert!(!g.alive);
    assert_eq!(g.player.position, (12, 8));
    g.harpoons.push(Harpoon::at((12, 8)));
    assert!(!g.tick(2, &vec![Command::Move(Direction::Down)]));
    assert_eq!(g.player.position, (12, 8));
    assert_eq!(g.player.harpoon_count, 0);
}

#[test]
fn stuck_whale_ignores_commands() {
    let mut g = quiet_game();
    g.player.harpoon(0);
    g.steer(&vec![Command::Move(Direction::Up), Command::Move(Direction::Left)], 100);
    assert_eq!(g.player.position, (10, 10));
    assert!(g.alive);
}

#[test]
fn end_reports_the_totals() {
    let mut g = quiet_game();
    g.player.krill_eaten = 9;
    g.player.harpoon_count = 3;
    let (krill, harpoons, ratio) = g.end();
    assert!(!g.alive);
    assert_eq!((krill, harpoons), (9, 3));
    assert_eq!(ratio, "3.000");
    let (_, _, undefined) = quiet_game().end();
    assert_eq!(undefined, "\u{221E}");
}

#[test]
fn ticks_are_paced_by_the_rate() {
    let args = Args { round_length: 600, tick_rate: 30 };
    assert_eq!(args.tick_length_ns(), Some(33_333_333));
    assert_eq!(Args { round_length: 1, tick_rate: 0 }.tick_length_ns(), None);
    assert_eq!(args.round_length_ms(), 600_000);
    assert_eq!(Args { round_length: u64::MAX, tick_rate: 1 }.round_length_ms(), u64::MAX);
    assert_eq!(rest_after(33, 10), 23);
    assert_eq!(rest_after(33, 33), 0);
    assert_eq!(rest_after(33, 50), 0);
    assert!(round_continues(true, 5, 6));
    assert!(!round_continues(true, 6, 6));
    assert!(!round_continues(false, 0, 6));
}
