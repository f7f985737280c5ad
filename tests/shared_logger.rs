use log::{Level, Log, Metadata, Record};
use shared_logger::{Backend, ColorChoice, FilterLevel, InitError, SharedLogger, WriteStyle};

fn metadata(level: Level) -> Metadata<'static> {
    Metadata::builder().level(level).target("shared_logger_tests").build()
}

fn style_of(handle: &SharedLogger) -> WriteStyle {
    handle.current_config().write_style
}

#[test]
fn color_choice_selects_write_style() {
    assert_eq!(ColorChoice::Always.write_style(), WriteStyle::Always);
    assert_eq!(ColorChoice::CargoAuto.write_style(), WriteStyle::Auto);
    assert_eq!(ColorChoice::Never.write_style(), WriteStyle::Never);
}

#[test]
fn build_uses_requested_write_style() {
    assert_eq!(Backend::build(ColorChoice::Always).write_style(), WriteStyle::Always);
    assert_eq!(Backend::build(ColorChoice::CargoAuto).write_style(), WriteStyle::Auto);
    assert_eq!(Backend::build(ColorChoice::Never).write_style(), WriteStyle::Never);
}

#[test]
fn build_twice_gives_same_config() {
    for choice in [ColorChoice::Always, ColorChoice::CargoAuto, ColorChoice::Never] {
        let a = Backend::build(choice);
        let b = Backend::build(choice);
        assert_eq!(a.config(), b.config());
        assert_eq!(a.filter_level(), b.filter_level());
        assert_eq!(a.write_style(), b.write_style());
    }
}

#[test]
fn backend_config_matches_getters() {
    let backend = Backend::build(ColorChoice::CargoAuto);
    let config = backend.config();
    assert_eq!(config.filter_level, backend.filter_level());
    assert_eq!(config.write_style, WriteStyle::Auto);
}

#[test]
fn new_holds_requested_style() {
    assert_eq!(style_of(&SharedLogger::new(ColorChoice::Always)), WriteStyle::Always);
    assert_eq!(style_of(&SharedLogger::new(ColorChoice::CargoAuto)), WriteStyle::Auto);
    assert_eq!(style_of(&SharedLogger::new(ColorChoice::Never)), WriteStyle::Never);
}

#[test]
fn default_never_colours() {
    assert_eq!(style_of(&SharedLogger::default()), WriteStyle::Never);
}

#[test]
fn set_color_choice_is_seen_by_next_read() {
    let handle = SharedLogger::new(ColorChoice::Never);
    handle.set_color_choice(ColorChoice::Always);
    assert_eq!(style_of(&handle), WriteStyle::Always);
    handle.set_color_choice(ColorChoice::CargoAuto);
    assert_eq!(style_of(&handle), WriteStyle::Auto);
}

#[test]
fn clones_share_one_slot() {
    let handle = SharedLogger::new(ColorChoice::Never);
    let other = handle.clone();
    other.set_color_choice(ColorChoice::Always);
    assert_eq!(style_of(&handle), WriteStyle::Always);
    drop(other);
    handle.set_color_choice(ColorChoice::CargoAuto);
    assert_eq!(style_of(&handle), WriteStyle::Auto);
}

#[test]
fn last_swap_wins() {
    let handle = SharedLogger::new(ColorChoice::Always);
    let swaps = [
        ColorChoice::Never,
        ColorChoice::Always,
        ColorChoice::CargoAuto,
        ColorChoice::Always,
        ColorChoice::Never,
    ];
    for choice in swaps {
        handle.set_color_choice(choice);
    }
    assert_eq!(style_of(&handle), WriteStyle::Never);
}

#[test]
fn many_swaps_keep_reads_valid() {
    let handle = SharedLogger::new(ColorChoice::Never);
    let choices = [ColorChoice::Always, ColorChoice::CargoAuto, ColorChoice::Never];
    let trace = metadata(Level::Trace);
    for i in 0..10_000usize {
        let choice = choices[i % 3];
        handle.set_color_choice(choice);
        assert_eq!(style_of(&handle), choice.write_style());
        handle.enabled(&trace);
    }
}

#[test]
fn enabled_follows_backend_filter() {
    let handle = SharedLogger::new(ColorChoice::Never);
    let level = handle.current_config().filter_level;
    if level != FilterLevel::Trace {
        assert!(!handle.enabled(&metadata(Level::Trace)));
    }
    if level == FilterLevel::Off {
        assert!(!handle.enabled(&metadata(Level::Error)));
    }
}

#[test]
fn log_and_flush_after_swap() {
    let handle = SharedLogger::new(ColorChoice::Never);
    let record = Record::builder()
        .level(Level::Trace)
        .target("shared_logger_tests")
        .build();
    handle.log(&record);
    handle.set_color_choice(ColorChoice::Always);
    handle.log(&record);
    handle.flush();
}

#[test]
fn second_init_fails_and_logging_goes_on() {
    let first = SharedLogger::new(ColorChoice::Never);
    let second = SharedLogger::new(ColorChoice::Always);
    assert_eq!(first.init(), Ok(()));
    assert_eq!(second.init(), Err(InitError::AlreadyRegistered));
    assert_eq!(first.init(), Err(InitError::AlreadyRegistered));
    let level = first.current_config().filter_level;
    let expected = match level {
        FilterLevel::Off => log::LevelFilter::Off,
        FilterLevel::Error => log::LevelFilter::Error,
        FilterLevel::Warn => log::LevelFilter::Warn,
        FilterLevel::Info => log::LevelFilter::Info,
        FilterLevel::Debug => log::LevelFilter::Debug,
        FilterLevel::Trace => log::LevelFilter::Trace,
    };
    assert_eq!(log::max_level(), expected);
    log::logger().flush();
    first.set_color_choice(ColorChoice::Always);
    assert_eq!(style_of(&first), WriteStyle::Always);
}

#[test]
fn registration_answer_maps_to_init_result() {
    assert_eq!(InitError::from_registration(true), Ok(()));
    assert_eq!(InitError::from_registration(false), Err(InitError::AlreadyRegistered));
}
