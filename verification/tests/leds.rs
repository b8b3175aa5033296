use presto::leds::{Leds, Rgb8, NUM_LEDS};

const ORANGE: Rgb8 = Rgb8 { r: 200, g: 100, b: 3 };
const BLACK: Rgb8 = Rgb8 { r: 0, g: 0, b: 0 };

#[test]
fn new_leds_are_off() {
    let leds = Leds::new();
    assert_eq!(leds.lights, [BLACK; NUM_LEDS]);
    assert_eq!(Rgb8::default(), BLACK);
}

#[test]
fn set_light_changes_only_its_led() {
    let mut leds = Leds::new();
    leds.set_light(3, ORANGE);
    for i in 0..NUM_LEDS {
        assert_eq!(leds.lights[i], if i == 3 { ORANGE } else { BLACK });
    }
}

#[test]
fn full_brightness_keeps_colour() {
    let leds = Leds::new();
    assert_eq!(leds.get_color_brightness(ORANGE, 255), ORANGE);
}

#[test]
fn zero_brightness_gives_black() {
    let leds = Leds::new();
    assert_eq!(leds.get_color_brightness(Rgb8 { r: 255, g: 255, b: 255 }, 0), BLACK);
}

#[test]
fn half_brightness_rounds_down() {
    let leds = Leds::new();
    assert_eq!(
        leds.get_color_brightness(ORANGE, 127),
        Rgb8 { r: 100, g: 50, b: 1 }
    );
    assert_eq!(
        leds.get_color_brightness(ORANGE, 128),
        Rgb8 { r: 100, g: 50, b: 1 }
    );
}

#[test]
fn brightness_never_brightens_and_grows_with_level() {
    let leds = Leds::new();
    let mut previous = BLACK;
    for level in 0..=255u8 {
        let c = leds.get_color_brightness(ORANGE, level);
        assert!(c.r <= ORANGE.r && c.g <= ORANGE.g && c.b <= ORANGE.b);
        assert!(c.r >= previous.r && c.g >= previous.g && c.b >= previous.b);
        previous = c;
    }
}

#[test]
fn set_light_with_brightness_scales_colour() {
    let mut leds = Leds::new();
    leds.set_light_with_brightness(6, ORANGE, 63);
    assert_eq!(leds.lights[6], Rgb8 { r: 50, g: 25, b: 0 });
    assert_eq!(leds.lights[5], BLACK);
}

#[test]
fn set_light_brightness_scales_current_colour() {
    let mut leds = Leds::new();
    leds.set_light(0, ORANGE);
    leds.set_light_brightness(0, 127);
    assert_eq!(leds.lights[0], Rgb8 { r: 100, g: 50, b: 1 });
    leds.set_light_brightness(0, 127);
    assert_eq!(leds.lights[0], Rgb8 { r: 50, g: 25, b: 0 });
}

#[test]
fn off_turns_one_led_black() {
    let mut leds = Leds::new();
    leds.set_light(1, ORANGE);
    leds.set_light(2, ORANGE);
    leds.off(1);
    assert_eq!(leds.lights[1], BLACK);
    assert_eq!(leds.lights[2], ORANGE);
}
