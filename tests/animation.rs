use core::time::Duration;
use player_sprite::animation::{Blinking, Indices, State, Timer};
use player_sprite::heading::Heading;
use player_sprite::resources::AnimationIndices;
use player_sprite::systems::{
    advance_frame, animate_sprite, animation_indices, animation_state, animation_timer,
    timer_period_nanos, ACTIVE_NANOS, BLINK_NANOS, IDLE_NANOS,
};

#[test]
fn indices_defaults_and_conversions() {
    assert_eq!(Indices::default(), Indices { first: 0, last: 0 });
    assert_eq!(Indices::from(4usize), Indices { first: 4, last: 4 });
    assert_eq!(Indices::from(1..5), Indices { first: 1, last: 5 });
    assert_eq!(AnimationIndices::default(), AnimationIndices(Indices { first: 0, last: 2 }));
    assert_eq!(State::default(), State::Idle);
    assert_eq!(Blinking::default(), Blinking(false));
}

#[test]
fn frame_steps_and_wraps() {
    let walk = Indices { first: 0, last: 9 };
    assert_eq!(advance_frame(3, walk, false), 3);
    assert_eq!(advance_frame(3, walk, true), 4);
    assert_eq!(advance_frame(8, walk, true), 9);
    assert_eq!(advance_frame(9, walk, false), 0);
    assert_eq!(advance_frame(9, walk, true), 1);
    assert_eq!(advance_frame(42, walk, false), 0);
}

#[test]
fn frame_below_first_starts_over() {
    let range = Indices { first: 2, last: 5 };
    assert_eq!(advance_frame(0, range, false), 2);
    assert_eq!(advance_frame(1, range, true), 3);
    assert_eq!(advance_frame(3, range, true), 4);
}

#[test]
fn single_frame_range_stays_put() {
    let still = Indices { first: 0, last: 0 };
    assert_eq!(advance_frame(0, still, true), 0);
    assert_eq!(advance_frame(5, still, true), 0);
}

#[test]
fn frame_index_stays_in_range() {
    let idle = Indices { first: 0, last: 2 };
    let mut index = 7usize;
    for step in 0..20 {
        index = advance_frame(index, idle, step % 3 != 0);
        assert!(index <= 2);
    }
}

#[test]
fn timer_periods() {
    assert_eq!(timer_period_nanos(State::Idle, Blinking(true), 9), BLINK_NANOS);
    assert_eq!(timer_period_nanos(State::Active, Blinking(true), 9), 80_000_000);
    assert_eq!(timer_period_nanos(State::Active, Blinking(false), 9), ACTIVE_NANOS);
    assert_eq!(timer_period_nanos(State::Idle, Blinking(false), 0), IDLE_NANOS);
    assert_eq!(timer_period_nanos(State::Idle, Blinking(false), 255), 1_003_900_000);
    assert_eq!(timer_period_nanos(State::Idle, Blinking(false), 128), 1_001_957_647);
}

#[test]
fn timer_keeps_its_period() {
    let timer = Timer::repeating(50_000_000);
    assert_eq!(timer.0.duration(), Duration::from_millis(50));
    let mut timer = timer;
    timer.set_nanos(30_000_000);
    assert_eq!(timer.0.duration(), Duration::from_millis(30));
}

#[test]
fn animation_timer_sets_period() {
    let mut timer = Timer::repeating(50_000_000);
    animation_timer(&mut timer, State::Active, Blinking(false), 0);
    assert_eq!(timer.0.duration(), Duration::from_millis(30));
    animation_timer(&mut timer, State::Idle, Blinking(true), 0);
    assert_eq!(timer.0.duration(), Duration::from_millis(80));
    animation_timer(&mut timer, State::Idle, Blinking(false), 255);
    assert_eq!(timer.0.duration(), Duration::from_nanos(1_003_900_000));
}

#[test]
fn timer_tick_reports_finished_period() {
    let mut timer = Timer::repeating(50_000_000);
    assert!(!timer.tick(10_000_000));
    assert_eq!(timer.0.elapsed(), Duration::from_millis(10));
    assert!(timer.tick(45_000_000));
    assert_eq!(timer.0.elapsed(), Duration::from_millis(5));
    assert!(!timer.tick(10_000_000));
    assert_eq!(timer.0.elapsed(), Duration::from_millis(15));
    assert_eq!(timer.0.duration(), Duration::from_millis(50));
}

#[test]
fn timer_tick_over_several_periods_keeps_remainder() {
    let mut timer = Timer::repeating(10_000_000);
    assert!(timer.tick(35_000_000));
    assert_eq!(timer.0.elapsed(), Duration::from_millis(5));
    assert_eq!(timer.0.mode(), bevy::time::TimerMode::Repeating);
    assert!(!timer.0.paused());
}

#[test]
fn new_period_keeps_elapsed_time() {
    let mut timer = Timer::repeating(50_000_000);
    assert!(!timer.tick(20_000_000));
    timer.set_nanos(30_000_000);
    assert_eq!(timer.0.elapsed(), Duration::from_millis(20));
    assert_eq!(timer.0.mode(), bevy::time::TimerMode::Repeating);
    assert!(timer.tick(10_000_000));
    assert_eq!(timer.0.elapsed(), Duration::ZERO);
}

#[test]
fn animate_sprite_moves_on_when_period_ends() {
    let indices = AnimationIndices(Indices { first: 0, last: 2 });
    let mut timer = Timer::repeating(50_000_000);
    let mut index = 1usize;
    assert!(!animate_sprite(&indices, 10_000_000, &mut timer, &mut index));
    assert_eq!(index, 1);
    assert!(animate_sprite(&indices, 45_000_000, &mut timer, &mut index));
    assert_eq!(index, 2);
    assert!(animate_sprite(&indices, 1_000_000, &mut timer, &mut index));
    assert_eq!(index, 0);
}

#[test]
fn animate_sprite_brings_low_index_into_range() {
    let indices = AnimationIndices(Indices { first: 2, last: 5 });
    let mut timer = Timer::repeating(50_000_000);
    let mut index = 0usize;
    assert!(animate_sprite(&indices, 1_000_000, &mut timer, &mut index));
    assert_eq!(index, 2);
    let mut index = 0usize;
    assert!(animate_sprite(&indices, 60_000_000, &mut timer, &mut index));
    assert_eq!(index, 3);
}

#[test]
fn blinking_follows_frame_state_and_heading() {
    let mut b = Blinking(false);
    animation_state(&mut b, 1, State::Idle, Heading::South);
    assert_eq!(b, Blinking(true));
    animation_state(&mut b, 0, State::Idle, Heading::East);
    assert_eq!(b, Blinking(false));
    animation_state(&mut b, 0, State::Idle, Heading::North);
    assert_eq!(b, Blinking(true));
    animation_state(&mut b, 3, State::Active, Heading::West);
    assert_eq!(b, Blinking(false));
}

#[test]
fn frame_range_per_heading_and_state() {
    let mut ai = AnimationIndices::default();
    animation_indices(&mut ai, Heading::North, State::Idle);
    assert_eq!(ai.0, Indices { first: 0, last: 0 });
    animation_indices(&mut ai, Heading::West, State::Idle);
    assert_eq!(ai.0, Indices { first: 0, last: 2 });
    animation_indices(&mut ai, Heading::North, State::Active);
    assert_eq!(ai.0, Indices { first: 0, last: 9 });
    animation_indices(&mut ai, Heading::South, State::Active);
    assert_eq!(ai.0, Indices { first: 0, last: 9 });
}

#[test]
fn animation_indices_reach_their_range() {
    let mut ai = AnimationIndices::default();
    assert_eq!(ai.first, 0);
    assert_eq!(ai.last, 2);
    ai.last = 9;
    assert_eq!(ai.0, Indices { first: 0, last: 9 });
}
