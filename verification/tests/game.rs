use dinoclone::{
    round_tenths, Game, INITIAL_AIR_TIME, INITIAL_SPEED, MAX_SPEED, SPEED_CHANGE_INTERVAL,
    SPEED_MULT_UNIT,
};

#[test]
fn new_game_starts_at_the_initial_difficulty() {
    let g = Game::new();
    assert!(g.playing);
    assert!(!g.pause);
    assert_eq!(g.score, 0);
    assert_eq!(g.speed, 100);
    assert_eq!(g.speed, INITIAL_SPEED);
    assert_eq!(g.max_air_time, 7);
    assert_eq!(g.max_air_time, INITIAL_AIR_TIME);
    assert_eq!(g.speed_mult, 10);
    assert_eq!(g.speed_mult, SPEED_MULT_UNIT);
}

#[test]
fn difficulty_constants() {
    assert_eq!(MAX_SPEED, 40);
    assert_eq!(SPEED_CHANGE_INTERVAL, 300);
}

#[test]
fn score_counts_one_per_tick() {
    let mut g = Game::new();
    for expected in 1..=5 {
        g.update_score();
        assert_eq!(g.score, expected);
    }
    assert_eq!(g.speed, 100);
    assert_eq!(g.max_air_time, 7);
    assert!(g.playing);
}

#[test]
fn tenths_round_to_the_nearest_with_halves_up() {
    assert_eq!(round_tenths(0), 0);
    assert_eq!(round_tenths(4), 0);
    assert_eq!(round_tenths(5), 1);
    assert_eq!(round_tenths(7), 1);
    assert_eq!(round_tenths(16), 2);
    assert_eq!(round_tenths(27), 3);
    assert_eq!(round_tenths(40), 4);
    assert_eq!(round_tenths(54), 5);
    assert_eq!(round_tenths(55), 6);
    assert_eq!(round_tenths(78), 8);
    assert_eq!(round_tenths(900), 90);
}

#[test]
fn score_300_raises_the_difficulty() {
    let mut g = Game::new();
    g.score = 300;
    g.update_speed();
    assert_eq!(g.speed_mult, 9);
    assert_eq!(g.speed, 90);
    assert_eq!(g.max_air_time, 8);
    assert_eq!(g.score, 300);
    assert!(g.playing);
    assert!(!g.pause);
}

#[test]
fn difficulty_is_untouched_between_multiples_of_the_interval() {
    for score in [1, 2, 150, 299, 301, 599, 601, 4_000_000_001] {
        let mut g = Game::new();
        g.score = score;
        g.update_speed();
        assert_eq!(g.speed, 100);
        assert_eq!(g.max_air_time, 7);
        assert_eq!(g.speed_mult, 10);
        g.update_speed();
        assert_eq!(g.speed, 100);
        assert_eq!(g.max_air_time, 7);
        assert_eq!(g.speed_mult, 10);
        assert_eq!(g.score, score);
    }
}

#[test]
fn difficulty_rises_in_steps_down_to_the_floor() {
    let mut g = Game::new();
    let speeds = [90, 80, 70, 60, 50, 40];
    let air_times = [8, 9, 10, 11, 13, 15];
    for step in 0..6 {
        let before = (g.speed, g.max_air_time);
        g.score = 300 * (step as u32 + 1);
        g.update_speed();
        assert_eq!(g.speed, speeds[step]);
        assert_eq!(g.max_air_time, air_times[step]);
        assert_eq!(g.speed_mult, 9 - step as i64);
        assert!(g.speed < before.0);
        assert!(g.max_air_time >= before.1);
    }
    // At the floor nothing changes any more.
    for score in [2100, 2400, 3000] {
        g.score = score;
        g.update_speed();
        assert_eq!(g.speed, 40);
        assert_eq!(g.max_air_time, 15);
        assert_eq!(g.speed_mult, 4);
    }
}

#[test]
fn a_whole_run_speeds_up_every_300_ticks() {
    let mut g = Game::new();
    let mut last = (g.speed, g.max_air_time);
    for tick in 1..=2500u32 {
        g.update_score();
        g.update_speed();
        assert_eq!(g.score, tick);
        if tick % 300 == 0 && last.0 > 40 {
            assert_eq!(g.speed, last.0 - 10);
        } else {
            assert_eq!(g.speed, last.0);
            assert_eq!(g.max_air_time, last.1);
        }
        assert!(g.speed >= 40);
        assert!(g.max_air_time >= last.1);
        last = (g.speed, g.max_air_time);
    }
    assert_eq!(last, (40, 15));
}
