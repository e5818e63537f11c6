use ws2812_pulse::color_wheel::ColorWheel;
use ws2812_pulse::rgb::Rgb8;
use ws2812_pulse::stepper::Stepper;
use ws2812_pulse::wifi::{select_channel, validate_credentials, AccessPoint, WifiError};

#[test]
fn wheel_arc_endpoints() {
    let mut w = ColorWheel::new();
    assert_eq!(w.next_color(), Rgb8 { r: 255, g: 0, b: 0 });
    assert_eq!(w.next_color(), Rgb8 { r: 252, g: 0, b: 3 });
    let mut w = ColorWheel { pos: 84 };
    assert_eq!(w.next_color(), Rgb8 { r: 3, g: 0, b: 252 });
    assert_eq!(w.next_color(), Rgb8 { r: 0, g: 0, b: 255 });
    let mut w = ColorWheel { pos: 170 };
    assert_eq!(w.next_color(), Rgb8 { r: 0, g: 255, b: 0 });
    let mut w = ColorWheel { pos: 255 };
    assert_eq!(w.next_color(), Rgb8 { r: 255, g: 0, b: 0 });
}

#[test]
fn wheel_wraps_after_a_full_byte() {
    let mut w = ColorWheel { pos: 255 };
    let _ = w.next_color();
    assert_eq!(w.pos, 0);
    let first = w.next_color();
    assert_eq!(first, Rgb8 { r: 255, g: 0, b: 0 });
    assert_eq!(w.pos, 1);
}

#[test]
fn stepper_cycles_through_the_four_coils() {
    let mut s = Stepper::new();
    assert_eq!(s.levels(), (false, false, false, false));
    s.step(0);
    assert_eq!(s.levels(), (true, false, false, false));
    s.step(1);
    assert_eq!(s.levels(), (false, true, false, false));
    s.step(2);
    assert_eq!(s.levels(), (false, false, true, false));
    s.step(3);
    assert_eq!(s.levels(), (false, false, false, true));
    s.step(4);
    assert_eq!(s.levels(), (true, false, false, false));
    s.step(7);
    assert_eq!(s.levels(), (false, false, false, true));
}

#[test]
fn stepper_handles_negative_positions() {
    // stepping backwards from zero continues the same cycle
    let mut s = Stepper::new();
    s.step(-1);
    assert_eq!(s.levels(), (false, false, false, true));
    s.step(-2);
    assert_eq!(s.levels(), (false, false, true, false));
    s.step(-5);
    assert_eq!(s.levels(), (false, false, false, true));
}

#[test]
fn stepper_stop_releases_all_coils() {
    let mut s = Stepper::new();
    s.step(2);
    s.stop();
    assert_eq!(s.levels(), (false, false, false, false));
}

#[test]
fn credentials_must_be_nonempty() {
    assert_eq!(validate_credentials("", ""), Err(WifiError::MissingSsid));
    assert_eq!(validate_credentials("", "hunter2"), Err(WifiError::MissingSsid));
    assert_eq!(validate_credentials("home", ""), Err(WifiError::MissingPassword));
    assert_eq!(validate_credentials("home", "hunter2"), Ok(()));
}

#[test]
fn channel_of_first_matching_access_point() {
    let aps = vec![
        AccessPoint { ssid: "guest".to_owned(), channel: 1 },
        AccessPoint { ssid: "home".to_owned(), channel: 6 },
        AccessPoint { ssid: "home".to_owned(), channel: 11 },
    ];
    assert_eq!(select_channel(&"home".to_owned(), &aps), Some(6));
    assert_eq!(select_channel(&"guest".to_owned(), &aps), Some(1));
    assert_eq!(select_channel(&"work".to_owned(), &aps), None);
    assert_eq!(select_channel(&"home".to_owned(), &Vec::new()), None);
}
