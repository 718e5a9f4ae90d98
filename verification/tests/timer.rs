use silica::app::{App, AppState};
use silica::args::{DigitSize, SilicaArgs};

fn timer(seconds: u64) -> App {
    App::new(SilicaArgs::new(seconds))
}

#[test]
fn default_configuration() {
    let args = SilicaArgs::new(90);
    assert_eq!(args.time, 90);
    assert_eq!(args.text, None);
    assert_eq!(args.post_text, None);
    assert_eq!(args.digit_size, DigitSize::Medium);
    assert_eq!(args.digit_color, 2);
    assert_eq!(args.text_color, 7);
    assert_eq!(args.ascii_color, 7);
    assert_eq!(args.blink_color, 1);
    assert!(!args.noblink);
    assert!(!args.noascii);
    assert_eq!(DigitSize::default(), DigitSize::Medium);
}

#[test]
fn digit_size_dimensions() {
    assert_eq!((DigitSize::Small.width(), DigitSize::Small.height()), (1, 1));
    assert_eq!((DigitSize::Medium.width(), DigitSize::Medium.height()), (4, 3));
    assert_eq!((DigitSize::Large.width(), DigitSize::Large.height()), (6, 5));
}

#[test]
fn new_takes_over_the_configuration() {
    let mut args = SilicaArgs::new(300);
    args.text = Some(String::from("tea"));
    args.post_text = Some(String::from("drink"));
    args.digit_size = DigitSize::Large;
    args.digit_color = 3;
    args.text_color = 4;
    args.ascii_color = 5;
    args.blink_color = 6;
    args.noblink = true;
    args.noascii = true;
    let app = App::new(args);
    assert_eq!(app.state, AppState::Counting);
    assert!(!app.quit);
    assert_eq!(app.time, 300);
    assert_eq!(app.text, "tea");
    assert_eq!(app.post_text, Some(String::from("drink")));
    assert!(!app.blink);
    assert!(app.noblink);
    assert!(app.noascii);
    assert_eq!(app.digit_size, DigitSize::Large);
    assert_eq!(app.digit_color, 3);
    assert_eq!(app.text_color, 4);
    assert_eq!(app.ascii_color, 5);
    assert_eq!(app.blink_color, 6);
}

#[test]
fn new_without_text_has_empty_text() {
    let app = timer(5);
    assert_eq!(app.text, "");
    assert_eq!(app.post_text, None);
}

#[test]
fn tick_takes_one_second_off() {
    let mut app = timer(10);
    app.on_tick();
    assert_eq!(app.time, 9);
    assert_eq!(app.state, AppState::Counting);
    app.on_tick();
    assert_eq!(app.time, 8);
    assert_eq!(app.state, AppState::Counting);
}

#[test]
fn last_second_elapses() {
    let mut app = timer(1);
    app.on_tick();
    assert_eq!(app.time, 0);
    assert_eq!(app.state, AppState::Elapsed);
    assert!(!app.blink);
}

#[test]
fn tick_at_zero_elapses_at_once() {
    let mut app = timer(0);
    assert_eq!(app.state, AppState::Counting);
    app.on_tick();
    assert_eq!(app.state, AppState::Elapsed);
    assert_eq!(app.time, 0);
}

#[test]
fn elapsed_never_counts_again() {
    let mut app = timer(3);
    for _ in 0..3 {
        app.on_tick();
    }
    assert_eq!(app.state, AppState::Elapsed);
    for _ in 0..50 {
        app.on_tick();
        assert_eq!(app.state, AppState::Elapsed);
        assert_eq!(app.time, 0);
    }
}

#[test]
fn blink_stays_off_when_disabled() {
    let mut args = SilicaArgs::new(1);
    args.noblink = true;
    let mut app = App::new(args);
    app.on_tick();
    assert_eq!(app.state, AppState::Elapsed);
    for _ in 0..20 {
        app.on_tick();
        assert!(!app.blink);
    }
}

#[test]
fn blink_is_forced_off_when_disabled() {
    let mut args = SilicaArgs::new(0);
    args.noblink = true;
    let mut app = App::new(args);
    app.state = AppState::Elapsed;
    app.blink = true;
    app.on_tick();
    assert!(!app.blink);
    app.on_tick();
    assert!(!app.blink);
}

#[test]
fn blink_alternates_when_enabled() {
    let mut app = timer(1);
    app.on_tick();
    assert!(!app.blink);
    let mut expected = false;
    for _ in 0..20 {
        app.on_tick();
        expected = !expected;
        assert_eq!(app.blink, expected);
    }
}

#[test]
fn blink_does_not_move_while_counting() {
    let mut app = timer(5);
    for _ in 0..4 {
        app.on_tick();
        assert!(!app.blink);
        assert_eq!(app.state, AppState::Counting);
    }
}

#[test]
fn tick_leaves_the_configuration_alone() {
    let mut args = SilicaArgs::new(2);
    args.text = Some(String::from("rice"));
    args.post_text = Some(String::from("done"));
    args.digit_size = DigitSize::Small;
    let mut app = App::new(args);
    app.quit = true;
    for _ in 0..5 {
        app.on_tick();
    }
    assert!(app.quit);
    assert_eq!(app.text, "rice");
    assert_eq!(app.post_text, Some(String::from("done")));
    assert_eq!(app.digit_size, DigitSize::Small);
    assert_eq!(app.digit_color, 2);
    assert_eq!(app.text_color, 7);
    assert_eq!(app.ascii_color, 7);
    assert_eq!(app.blink_color, 1);
    assert!(!app.noblink);
    assert!(!app.noascii);
}

#[test]
fn caption_without_second_text_stays() {
    let mut args = SilicaArgs::new(1);
    args.text = Some(String::from("eggs"));
    let mut app = App::new(args);
    assert_eq!(app.caption(), "eggs");
    app.on_tick();
    assert_eq!(app.state, AppState::Elapsed);
    assert_eq!(app.caption(), "eggs");
    app.on_tick();
    assert_eq!(app.caption(), "eggs");
}

#[test]
fn caption_switches_when_the_timer_elapses() {
    let mut args = SilicaArgs::new(2);
    args.text = Some(String::from("eggs"));
    args.post_text = Some(String::from("ready"));
    let mut app = App::new(args);
    assert_eq!(app.caption(), "eggs");
    app.on_tick();
    assert_eq!(app.state, AppState::Counting);
    assert_eq!(app.caption(), "eggs");
    app.on_tick();
    assert_eq!(app.state, AppState::Elapsed);
    assert_eq!(app.caption(), "ready");
    app.on_tick();
    assert_eq!(app.caption(), "ready");
}

#[test]
fn caption_with_only_a_second_text() {
    let mut args = SilicaArgs::new(1);
    args.post_text = Some(String::from("over"));
    let mut app = App::new(args);
    assert_eq!(app.caption(), "");
    app.on_tick();
    assert_eq!(app.caption(), "over");
}

#[test]
fn two_second_timer_end_to_end() {
    let mut app = timer(2);
    app.on_tick();
    app.on_tick();
    assert_eq!(app.state, AppState::Elapsed);
    assert_eq!(app.time, 0);
    assert!(!app.blink);
    app.on_tick();
    assert!(app.blink);
}
