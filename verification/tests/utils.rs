use starfield::star_render::{Frame, StarRender};
use starfield::utils::{
    parse_log_level, random_range, range_from_draw, same_text, EmptySky, LogLevel, RandomSource,
    ReplaySource, DRAW_SPAN,
};

#[test]
fn a_draw_selects_a_point_of_the_interval() {
    assert_eq!(DRAW_SPAN, 1u64 << 32);
    assert_eq!(range_from_draw(0, -1_000_000, 1_000_000), -1_000_000);
    assert_eq!(range_from_draw(0x8000_0000, -1_000_000, 1_000_000), 0);
    assert_eq!(range_from_draw(0xC000_0000, -1_000_000, 1_000_000), 500_000);
    assert_eq!(range_from_draw(0x4000_0000, 1_000, 3_000), 1_500);
    assert_eq!(range_from_draw(u32::MAX, 0, 1_000_000), 999_999);
    assert_eq!(range_from_draw(u32::MAX, 0, 5), 4);
    assert_eq!(range_from_draw(0, 0, 5), 0);
}

#[test]
fn the_upper_end_is_never_reached() {
    for draw in [0u32, 1, 77, 0x7fff_ffff, 0x8000_0000, u32::MAX - 1, u32::MAX] {
        let r = range_from_draw(draw, 200_000, 1_000_000);
        assert!(200_000 <= r && r < 1_000_000);
    }
}

#[test]
fn an_interval_may_run_downward() {
    assert_eq!(range_from_draw(0, 10, 0), 10);
    assert_eq!(range_from_draw(0x8000_0000, 10, 0), 5);
    assert_eq!(range_from_draw(1, 10, 0), 9);
    assert_eq!(range_from_draw(u32::MAX, 10, 0), 0);
    assert_eq!(range_from_draw(0x8000_0000, 0, -1_000), -500);
    assert_eq!(range_from_draw(1, 0, -1_000), -1);
}

#[test]
fn an_empty_interval_gives_its_only_point() {
    assert_eq!(range_from_draw(0, 7, 7), 7);
    assert_eq!(range_from_draw(u32::MAX, 7, 7), 7);
}

#[test]
fn the_widest_interval_does_not_overflow() {
    assert_eq!(range_from_draw(0, i64::MIN, i64::MAX), i64::MIN);
    assert_eq!(range_from_draw(0x8000_0000, i64::MIN, i64::MAX), -1);
    assert_eq!(range_from_draw(u32::MAX, i64::MIN, i64::MAX), i64::MAX - (1i64 << 32));
    assert_eq!(range_from_draw(u32::MAX, i64::MAX, i64::MIN), i64::MIN + (1i64 << 32) - 1);
}

#[test]
fn a_replay_source_hands_out_its_draws_in_turn() {
    let mut source = ReplaySource::new(vec![3, 1, 4]);
    assert_eq!(source.next_draw(), 3);
    assert_eq!(source.next_draw(), 1);
    assert_eq!(source.next_draw(), 4);
    assert_eq!(source.next_draw(), 3);
    assert_eq!(source.next_draw(), 1);
}

#[test]
fn a_replay_source_without_draws_hands_out_zero() {
    let mut source = ReplaySource::new(Vec::new());
    assert_eq!(source.next_draw(), 0);
    assert_eq!(source.next_draw(), 0);
}

#[test]
fn random_range_takes_one_draw() {
    let mut source = ReplaySource::new(vec![0x8000_0000, 0]);
    assert_eq!(random_range(&mut source, 0, 100), 50);
    assert_eq!(random_range(&mut source, 0, 100), 0);
    assert_eq!(random_range(&mut source, -100, 100), 0);
}

#[test]
fn log_levels_are_read_by_name() {
    assert_eq!(parse_log_level("debug"), LogLevel::Debug);
    assert_eq!(parse_log_level("info"), LogLevel::Info);
    assert_eq!(parse_log_level("warn"), LogLevel::Warn);
    assert_eq!(parse_log_level("error"), LogLevel::Error);
}

#[test]
fn an_unknown_log_level_means_warn() {
    assert_eq!(parse_log_level(""), LogLevel::Warn);
    assert_eq!(parse_log_level("trace"), LogLevel::Warn);
    assert_eq!(parse_log_level("Debug"), LogLevel::Warn);
    assert_eq!(parse_log_level("debug "), LogLevel::Warn);
    assert_eq!(parse_log_level("errors"), LogLevel::Warn);
}

#[test]
fn texts_are_compared_as_a_whole() {
    assert!(same_text("", ""));
    assert!(same_text("warn", "warn"));
    assert!(!same_text("warn", "warm"));
    assert!(!same_text("warn", "warning"));
    assert!(!same_text("é", "e"));
    assert!(same_text("é", "é"));
}

#[test]
fn an_empty_sky_does_nothing() {
    let mut sky = EmptySky {};
    let mut source = ReplaySource::new(vec![1, 2, 3]);
    sky.add_stars(10, &mut source);
    sky.remove_stars(3);
    sky.resize(640, 480);
    assert_eq!(sky.get_num_stars(), 0);
    assert!(matches!(sky.update_and_render(16_000, &mut source), Frame::Blank));
    assert_eq!(source.next_draw(), 1);
}
