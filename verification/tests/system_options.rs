use starfield::fixed::ONE;
use starfield::system_options::{
    default_clear_color, default_fade_speed, default_log_level, default_star_count,
    default_star_size, default_use_advanced, StarSystemOptions,
};

#[test]
fn each_option_has_its_default() {
    assert_eq!(default_log_level(), "warn");
    assert_eq!(default_star_count(), 1000);
    assert_eq!(default_clear_color(), "#000000");
    assert_eq!(default_fade_speed(), 1_000);
    assert!(default_use_advanced());
    assert_eq!(default_star_size(), ONE);
}

#[test]
fn default_options_hold_the_defaults() {
    let options = StarSystemOptions::default();
    assert_eq!(options.log_level, "warn");
    assert_eq!(options.star_count, 1000);
    assert_eq!(options.clear_color, "#000000");
    assert_eq!(options.fade_speed, 1_000);
    assert!(options.use_advanced);
    assert_eq!(options.star_size, 1_000_000);
}
