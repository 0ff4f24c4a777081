use rudo::status::{show_all, Led, Rgb, Status};

#[test]
fn palette_colors() {
    assert_eq!(Status::Booting.as_color(), Rgb { r: 0xB8, g: 0x86, b: 0x0B });
    assert_eq!(Status::BootFailure.as_color(), Rgb { r: 0xDC, g: 0x14, b: 0x3C });
    assert_eq!(Status::Working.as_color(), Rgb { r: 0x00, g: 0x80, b: 0x00 });
    assert_eq!(Status::Sleeping.as_color(), Rgb { r: 0x00, g: 0x00, b: 0xFF });
    assert_eq!(Status::Failure.as_color(), Rgb { r: 0xFF, g: 0x00, b: 0x00 });
}

#[test]
fn led_scales_to_brightness() {
    let mut led = Led::new(10);
    // 255 * 11 / 256 = 10, 128 * 11 / 256 = 5
    assert_eq!(led.set_status(Status::Failure), Rgb { r: 10, g: 0, b: 0 });
    assert_eq!(led.set_status(Status::Working), Rgb { r: 0, g: 5, b: 0 });
    assert_eq!(led.brightness(), 10);
}

#[test]
fn led_full_brightness_keeps_palette() {
    let mut led = Led::new(255);
    assert_eq!(led.set_status(Status::BootFailure), Status::BootFailure.as_color());
}

#[test]
fn same_status_twice_same_color() {
    let mut led = Led::new(10);
    let history = vec![Status::Sleeping, Status::Failure, Status::Working, Status::Sleeping];
    let colors = show_all(&mut led, &history);
    assert_eq!(colors.len(), 4);
    assert_eq!(colors[0], colors[3]);
    assert_eq!(colors[0], Rgb { r: 0, g: 0, b: 10 });
    assert_eq!(colors[1], Rgb { r: 10, g: 0, b: 0 });
    assert_eq!(led.brightness(), 10);
}
