use dinoclone::player::PlayerState;
use dinoclone::session::{classify_key, Command, Frame, Input, Phase, Session, KEY_NONE};
use dinoclone::terrain::{Roll, Terrain, TerrainType, TERRAIN_LEN};
use dinoclone::{IY, KEY_JUMP, KEY_PAUSE, KEY_QUIT};

/// Dice that ask for a flat unit without an obstacle.
fn quiet() -> Roll {
    Roll { kind: 99, obstacle: 99 }
}

/// A running session on the flat start followed by the units of `rolls`.
fn running(rolls: &Vec<Roll>) -> Session {
    let (s, command) = Session::generated(rolls).handle_key('x' as i32);
    assert_eq!(command, Command::Continue);
    assert_eq!(s.phase(), Phase::Running);
    s
}

fn tick(s: Session) -> Session {
    let (s, frame) = s.on_timer_with(quiet());
    assert_eq!(frame, Frame::Scene);
    s
}

fn key(s: Session, code: i32) -> Session {
    let (s, command) = s.handle_key(code);
    assert_eq!(command, Command::Continue);
    s
}

#[test]
fn keys_are_told_apart() {
    assert_eq!(KEY_QUIT, 'q' as i32);
    assert_eq!(KEY_PAUSE, 'p' as i32);
    assert_eq!(KEY_JUMP, 'j' as i32);
    assert_eq!(KEY_NONE, -1);
    assert_eq!(classify_key('q' as i32), Input::Quit);
    assert_eq!(classify_key('p' as i32), Input::Pause);
    assert_eq!(classify_key('j' as i32), Input::Jump);
    assert_eq!(classify_key(-1), Input::Nothing);
    assert_eq!(classify_key('w' as i32), Input::Other);
    assert_eq!(classify_key(0), Input::Other);
    assert_eq!(classify_key(i32::MAX), Input::Other);
    assert_eq!(classify_key(-2), Input::Other);
}

#[test]
fn new_session_waits_for_a_key() {
    let s = Session::new();
    assert_eq!(s.phase(), Phase::Waiting);
    assert_eq!(s.player().state, PlayerState::Idle);
    assert_eq!(s.player().y_pos, IY);
    assert_eq!(s.game().score, 0);
    assert_eq!(s.game().speed, 100);
    assert_eq!(s.terrain().vec.len(), TERRAIN_LEN);
    assert!(!s.live());
}

#[test]
fn any_key_but_quit_starts_the_run() {
    for code in ['x' as i32, ' ' as i32, KEY_JUMP, KEY_PAUSE, 0, 10, 259] {
        let (s, command) = Session::new().handle_key(code);
        assert_eq!(command, Command::Continue);
        assert_eq!(s.phase(), Phase::Running);
        assert_eq!(s.player().state, PlayerState::Running);
        assert_eq!(s.player().y_pos, IY);
        assert_eq!(s.player().air_dist, 0);
        assert!(!s.game().pause);
        assert!(s.live());
    }
}

#[test]
fn waiting_session_ignores_silence_and_the_clock() {
    let (s, command) = Session::generated(&Vec::new()).handle_key(KEY_NONE);
    assert_eq!(command, Command::Continue);
    assert_eq!(s.phase(), Phase::Waiting);
    let (s, frame) = s.on_timer_with(Roll { kind: 0, obstacle: 0 });
    assert_eq!(frame, Frame::Still);
    assert_eq!(s.phase(), Phase::Waiting);
    assert_eq!(s.game().score, 0);
    assert_eq!(s.terrain().vec, Terrain::start().vec);
    let (s, frame) = s.on_timer();
    assert_eq!(frame, Frame::Still);
    assert_eq!(s.game().score, 0);
}

#[test]
fn clock_comes_round_after_a_tick_interval() {
    let s = Session::generated(&Vec::new());
    assert_eq!(s.game().speed, 100);
    assert!(!s.due(0));
    assert!(!s.due(99));
    assert!(s.due(100));
    assert!(s.due(101));
    assert!(s.due(i64::MAX));
    assert!(!s.due(-1));

    let mut s = running(&Vec::new());
    for _ in 0..300 {
        s = tick(s);
    }
    assert!(!s.due(89));
    assert!(s.due(90));
}

#[test]
fn quit_leaves_before_the_run() {
    let (s, command) = Session::new().handle_key(KEY_QUIT);
    assert_eq!(command, Command::Exit);
    assert_eq!(s.phase(), Phase::Waiting);
}

#[test]
fn tick_scrolls_moves_and_counts() {
    let s = running(&Vec::new());
    let (s, frame) = s.on_timer_with(Roll { kind: 0, obstacle: 0 });
    assert_eq!(frame, Frame::Scene);
    assert_eq!(s.game().score, 1);
    assert_eq!(s.game().speed, 100);
    assert_eq!(s.terrain().vec.len(), 40);
    assert_eq!(s.terrain().vec[39].unit_type, TerrainType::Up);
    assert_eq!(s.terrain().last_incline_dist, 0);
    assert_eq!(s.player().state, PlayerState::Running);
    assert_eq!(s.player().y_pos, IY);
}

#[test]
fn thrown_dice_keep_the_session_in_order() {
    let mut s = running(&Vec::new());
    let mut ticks: u32 = 0;
    while s.live() && ticks < 5000 {
        assert!(s.within_limits());
        let (next, frame) = s.on_timer();
        s = next;
        assert_eq!(frame, Frame::Scene);
        ticks += 1;
        assert_eq!(s.game().score, ticks);
        assert_eq!(s.terrain().vec.len(), 40);
        assert!(s.terrain().roffset_y.abs() <= 1);
    }
    assert!(ticks >= 17);
}

#[test]
fn jump_key_lifts_the_player_to_the_apex_in_three_ticks() {
    let s = key(running(&Vec::new()), KEY_JUMP);
    assert_eq!(s.player().state, PlayerState::Jumping);
    let s = tick(tick(tick(s)));
    assert_eq!(s.player().state, PlayerState::MaxHeight);
    assert_eq!(s.player().air_dist, 3);
    assert_eq!(s.player().y_pos, 3);
    // Four more ticks of the seven at the apex, then the fall.
    let s = tick(tick(tick(s)));
    assert_eq!(s.player().state, PlayerState::MaxHeight);
    let s = tick(s);
    assert_eq!(s.player().state, PlayerState::Falling);
    let s = tick(tick(tick(tick(s))));
    assert_eq!(s.player().state, PlayerState::Running);
    assert_eq!(s.player().y_pos, IY);
    assert_eq!(s.player().air_dist, 0);
    assert_eq!(s.game().score, 11);
}

#[test]
fn second_jump_key_in_the_air_is_ignored() {
    let s = tick(key(running(&Vec::new()), KEY_JUMP));
    let before = *s.player();
    let s = key(s, KEY_JUMP);
    assert_eq!(*s.player(), before);
}

#[test]
fn pause_freezes_the_simulation() {
    let s = tick(running(&Vec::new()));
    let s = key(s, KEY_PAUSE);
    assert!(s.game().pause);
    assert!(!s.live());
    assert_eq!(s.phase(), Phase::Running);

    let terrain = s.terrain().vec.clone();
    let (s, frame) = s.on_timer_with(Roll { kind: 0, obstacle: 0 });
    assert_eq!(frame, Frame::Pause);
    let (s, frame) = s.on_timer();
    assert_eq!(frame, Frame::Pause);
    assert_eq!(s.game().score, 1);
    assert_eq!(s.terrain().vec, terrain);

    // No jumps while paused.
    let s = key(s, KEY_JUMP);
    assert_eq!(s.player().state, PlayerState::Running);

    let s = key(s, KEY_PAUSE);
    assert!(!s.game().pause);
    let s = tick(s);
    assert_eq!(s.game().score, 2);
}

#[test]
fn quit_ends_the_run_and_then_leaves() {
    let s = tick(running(&Vec::new()));
    let (s, command) = s.handle_key(KEY_QUIT);
    assert_eq!(command, Command::Continue);
    assert_eq!(s.phase(), Phase::Over);
    assert!(!s.game().playing);

    let (s, frame) = s.on_timer_with(quiet());
    assert_eq!(frame, Frame::Still);
    assert_eq!(s.game().score, 1);

    let (s, command) = s.handle_key('x' as i32);
    assert_eq!(command, Command::Continue);
    let (s, command) = s.handle_key(KEY_PAUSE);
    assert_eq!(command, Command::Continue);
    assert!(!s.game().pause);
    let (s, command) = s.handle_key(KEY_JUMP);
    assert_eq!(command, Command::Restart);
    let (s, command) = s.handle_key(KEY_QUIT);
    assert_eq!(command, Command::Exit);
    assert_eq!(s.phase(), Phase::Over);
}

#[test]
fn running_into_an_obstacle_ends_the_run() {
    // The obstacle enters at index 40 and reaches column 23 on tick 17.
    let mut s = running(&vec![Roll { kind: 99, obstacle: 0 }]);
    assert!(s.terrain().vec[40].obstacle);
    for _ in 0..16 {
        s = tick(s);
        assert_eq!(s.player().state, PlayerState::Running);
    }
    s = tick(s);
    assert_eq!(s.player().state, PlayerState::Dead);
    assert_eq!(s.game().score, 17);
    assert_eq!(s.phase(), Phase::Running);
    assert!(!s.live());

    // A dead player cannot pause.
    let s = key(s, KEY_PAUSE);
    assert!(!s.game().pause);

    let (s, frame) = s.on_timer_with(quiet());
    assert_eq!(frame, Frame::Dead);
    assert_eq!(s.phase(), Phase::Over);
    assert_eq!(s.game().score, 17);
    assert_eq!(s.player().state, PlayerState::Dead);

    let (_, command) = s.handle_key(KEY_JUMP);
    assert_eq!(command, Command::Restart);
}

#[test]
fn jumping_in_time_clears_the_obstacle() {
    let mut s = running(&vec![Roll { kind: 99, obstacle: 0 }]);
    for _ in 0..13 {
        s = tick(s);
    }
    s = key(s, KEY_JUMP);
    for _ in 0..4 {
        s = tick(s);
    }
    // Tick 17: the obstacle is under the player, who holds the apex.
    assert_eq!(s.game().score, 17);
    assert_eq!(s.player().state, PlayerState::MaxHeight);
    assert_eq!(s.player().y_pos, 3);
    for _ in 0..8 {
        s = tick(s);
    }
    assert_eq!(s.player().state, PlayerState::Running);
    assert_eq!(s.player().y_pos, IY);
}

#[test]
fn jump_on_an_upslope_waits_for_its_end() {
    // The upslope enters at index 40 and is under the player after tick 17.
    let mut s = running(&vec![Roll { kind: 0, obstacle: 99 }]);
    for _ in 0..17 {
        s = tick(s);
    }
    assert_eq!(s.terrain().vec[23].unit_type, TerrainType::Up);
    assert_eq!(s.terrain().roffset_y, 1);
    s = key(s, KEY_JUMP);
    assert!(s.player().remember_jump);
    assert_eq!(s.player().state, PlayerState::Running);
    s = tick(s);
    assert_eq!(s.player().state, PlayerState::Jumping);
    assert!(!s.player().remember_jump);
    assert_eq!(s.terrain().offset_y, 1);
    assert_eq!(s.terrain().roffset_y, 0);
}

#[test]
fn difficulty_rises_at_score_300() {
    let mut s = running(&Vec::new());
    for _ in 0..299 {
        s = tick(s);
    }
    assert_eq!(s.game().score, 299);
    assert_eq!((s.game().speed, s.game().max_air_time, s.game().speed_mult), (100, 7, 10));
    s = tick(s);
    assert_eq!(s.game().score, 300);
    assert_eq!((s.game().speed, s.game().max_air_time, s.game().speed_mult), (90, 8, 9));
    s = tick(s);
    assert_eq!((s.game().speed, s.game().max_air_time, s.game().speed_mult), (90, 8, 9));
    assert_eq!(s.terrain().vec.len(), 40);
}
