use esp_demos::button::{handler, Blinker, LedStep};

#[test]
fn first_press_reports_one() {
    let mut count: u32 = 0;
    let mut blinker = Blinker::new();
    assert_eq!(handler(&mut count, &mut blinker), 1);
    assert_eq!(count, 1);
}

#[test]
fn every_press_is_counted_once() {
    let mut count: u32 = 0;
    let mut blinker = Blinker::new();
    for expected in 1..=1000u32 {
        let shown = handler(&mut count, &mut blinker);
        assert_eq!(shown, expected);
        assert_eq!(count, expected);
    }
}

#[test]
fn press_just_below_the_limit_reaches_it() {
    let mut count: u32 = u32::MAX - 1;
    let mut blinker = Blinker::new();
    assert_eq!(handler(&mut count, &mut blinker), u32::MAX);
    assert_eq!(count, u32::MAX);
}

#[test]
fn led_blinks_at_start_up() {
    let blinker = Blinker::new();
    assert_eq!(blinker.tick(), LedStep::Toggle);
    assert_eq!(blinker.tick(), LedStep::Toggle);
}

#[test]
fn each_press_switches_the_blinking() {
    let mut count: u32 = 0;
    let mut blinker = Blinker::new();
    handler(&mut count, &mut blinker);
    assert_eq!(blinker.tick(), LedStep::Hold);
    handler(&mut count, &mut blinker);
    assert_eq!(blinker.tick(), LedStep::Toggle);
    for presses in 3..=20u32 {
        handler(&mut count, &mut blinker);
        let expected = if presses % 2 == 0 { LedStep::Toggle } else { LedStep::Hold };
        assert_eq!(blinker.tick(), expected);
    }
}
