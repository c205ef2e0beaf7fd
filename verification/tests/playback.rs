use imgseq::playback::{frames_per_tick, AnimState, Direction, Playback, PlaybackError};

#[test]
fn frames_per_tick_exact() {
    assert_eq!(frames_per_tick(128, 8), 16);
    assert_eq!(frames_per_tick(16, 8), 2);
    assert_eq!(frames_per_tick(1000, 8), 125);
}

#[test]
fn frames_per_tick_guarded_minimum() {
    assert_eq!(frames_per_tick(0, 8), 1);
    assert_eq!(frames_per_tick(1, 8), 1);
    assert_eq!(frames_per_tick(7, 8), 1);
    assert_eq!(frames_per_tick(8, 8), 1);
    assert_eq!(frames_per_tick(9, 8), 1);
    assert_eq!(frames_per_tick(5, 1000), 1);
}

#[test]
fn advance_forward_wraps() {
    let mut state = AnimState { speed: 128, direction: Direction::Forward, cur_image: 4 };
    state.advance(5);
    assert_eq!(state.cur_image, 0);
}

#[test]
fn advance_backward_wraps() {
    let mut state = AnimState { speed: 128, direction: Direction::Backward, cur_image: 0 };
    state.advance(5);
    assert_eq!(state.cur_image, 4);
}

#[test]
fn advance_steps_between_neighbours() {
    let mut forward = AnimState { speed: 128, direction: Direction::Forward, cur_image: 1 };
    forward.advance(5);
    assert_eq!(forward.cur_image, 2);

    let mut backward = AnimState { speed: 128, direction: Direction::Backward, cur_image: 3 };
    backward.advance(5);
    assert_eq!(backward.cur_image, 2);
}

#[test]
fn forward_cycle_returns_to_start() {
    let mut state = AnimState { speed: 128, direction: Direction::Forward, cur_image: 2 };
    for _ in 0..5 {
        state.advance(5);
    }
    assert_eq!(state.cur_image, 2);
}

#[test]
fn backward_cycle_returns_to_start() {
    let mut state = AnimState { speed: 128, direction: Direction::Backward, cur_image: 3 };
    for _ in 0..5 {
        state.advance(5);
    }
    assert_eq!(state.cur_image, 3);
}

#[test]
fn single_frame_sequence_stays_put() {
    let mut forward = AnimState { speed: 128, direction: Direction::Forward, cur_image: 0 };
    forward.advance(1);
    assert_eq!(forward.cur_image, 0);

    let mut backward = AnimState { speed: 128, direction: Direction::Backward, cur_image: 0 };
    backward.advance(1);
    assert_eq!(backward.cur_image, 0);
}

#[test]
fn empty_sequence_is_refused_with_a_diagnostic() {
    let result = Playback::new(0, 128, Direction::Forward);
    assert_eq!(result, Err(PlaybackError::EmptySequence));
    assert!(!result.unwrap_err().message().is_empty());
}

#[test]
fn playback_starts_at_the_first_frame() {
    let playback = Playback::new(5, 128, Direction::Forward).unwrap();
    assert_eq!(playback.anim.cur_image, 0);
    assert_eq!(playback.anim.speed, 128);
    assert_eq!(playback.anim.direction, Direction::Forward);
    assert_eq!(playback.tick_counter, 0);
    assert_eq!(playback.frame_count, 5);
}

#[test]
fn sixteen_ticks_advance_exactly_once() {
    let mut playback = Playback::new(5, 128, Direction::Forward).unwrap();
    for tick in 1..16 {
        assert!(!playback.tick());
        assert_eq!(playback.tick_counter, tick);
        assert_eq!(playback.anim.cur_image, 0);
    }
    assert!(playback.tick());
    assert_eq!(playback.tick_counter, 0);
    assert_eq!(playback.anim.cur_image, 1);
}

#[test]
fn fast_speed_advances_every_tick() {
    let mut playback = Playback::new(3, 1, Direction::Forward).unwrap();
    assert!(playback.tick());
    assert_eq!(playback.anim.cur_image, 1);
    assert!(playback.tick());
    assert_eq!(playback.anim.cur_image, 2);
    assert!(playback.tick());
    assert_eq!(playback.anim.cur_image, 0);
}
