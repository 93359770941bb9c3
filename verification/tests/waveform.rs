use action_tape::{build_tape, Action, ActionTape, Arena, Level, HEAP_SIZE, STEP_DELAY_MS};

fn arena_of(size: usize) -> Arena {
    let mut arena = Arena::empty();
    arena.init(0x2000_0000, size);
    arena
}

fn default_tape() -> ActionTape {
    let mut arena = arena_of(HEAP_SIZE);
    build_tape(&mut arena).unwrap()
}

#[test]
fn default_period_is_fifteen_hundred_milliseconds() {
    let tape = default_tape();
    assert_eq!(tape.period_ms(STEP_DELAY_MS), Some(1500));
    assert_eq!(tape.period_ms(0), Some(0));
    assert_eq!(tape.period_ms(u32::MAX), Some(6 * u64::from(u32::MAX)));
}

#[test]
fn period_of_an_empty_tape_is_zero() {
    let mut arena = arena_of(HEAP_SIZE);
    let empty: [Action; 0] = [];
    let tape = ActionTape::record(&mut arena, &empty).unwrap();
    assert_eq!(tape.period_ms(STEP_DELAY_MS), Some(0));
}

#[test]
fn level_at_the_step_times_follows_the_pattern() {
    let tape = default_tape();
    let expected = [
        (0, Level::High),
        (250, Level::Low),
        (500, Level::High),
        (750, Level::Low),
        (1000, Level::Low),
        (1250, Level::Low),
        (1500, Level::High),
        (1750, Level::Low),
        (2000, Level::High),
    ];
    for (t_ms, level) in expected {
        assert_eq!(tape.level_at_ms(STEP_DELAY_MS, t_ms), Some(level));
    }
}

#[test]
fn level_holds_until_the_next_step() {
    let tape = default_tape();
    assert_eq!(tape.level_at_ms(250, 1), Some(Level::High));
    assert_eq!(tape.level_at_ms(250, 249), Some(Level::High));
    assert_eq!(tape.level_at_ms(250, 250), Some(Level::Low));
    assert_eq!(tape.level_at_ms(250, 499), Some(Level::Low));
    assert_eq!(tape.level_at_ms(250, 500), Some(Level::High));
    assert_eq!(tape.level_at_ms(250, 749), Some(Level::High));
    assert_eq!(tape.level_at_ms(250, 1499), Some(Level::Low));
}

#[test]
fn level_is_the_same_one_period_later() {
    let tape = default_tape();
    let period = tape.period_ms(STEP_DELAY_MS).unwrap();
    for t_ms in (0..4000).step_by(37) {
        assert_eq!(
            tape.level_at_ms(STEP_DELAY_MS, t_ms + period),
            tape.level_at_ms(STEP_DELAY_MS, t_ms)
        );
    }
}

#[test]
fn level_at_the_largest_time_is_still_defined() {
    // u64::MAX / 250 = 73_786_976_294_838_206, which leaves 2 when divided by 6.
    let tape = default_tape();
    assert_eq!(u64::MAX / 250 % 6, 2);
    assert_eq!(tape.level_at_ms(250, u64::MAX), Some(Level::High));
    assert_eq!(tape.level_at_ms(1, u64::MAX), Some(Level::Low));
}

#[test]
fn no_waveform_without_a_delay_or_without_entries() {
    let tape = default_tape();
    assert_eq!(tape.level_at_ms(0, 0), None);
    assert_eq!(tape.level_at_ms(0, 1000), None);
    let mut arena = arena_of(HEAP_SIZE);
    let empty: [Action; 0] = [];
    let blank = ActionTape::record(&mut arena, &empty).unwrap();
    assert_eq!(blank.level_at_ms(250, 0), None);
}

#[test]
fn level_of_another_tape_at_another_delay() {
    let mut arena = arena_of(HEAP_SIZE);
    let tape = ActionTape::record(&mut arena, &[Action::Low, Action::High]).unwrap();
    assert_eq!(tape.period_ms(10), Some(20));
    assert_eq!(tape.level_at_ms(10, 0), Some(Level::Low));
    assert_eq!(tape.level_at_ms(10, 9), Some(Level::Low));
    assert_eq!(tape.level_at_ms(10, 10), Some(Level::High));
    assert_eq!(tape.level_at_ms(10, 20), Some(Level::Low));
    assert_eq!(tape.level_at_ms(1, 7), Some(Level::High));
}
