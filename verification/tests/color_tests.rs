use st7306::color::col_to_bright;
use st7306::Color565;

#[test]
fn channels_of_primary_colors() {
    let red = Color565::new(0xF800);
    assert_eq!(red.r(), 31);
    assert_eq!(red.g(), 0);
    assert_eq!(red.b(), 0);

    let green = Color565::new(0x07E0);
    assert_eq!(green.r(), 0);
    assert_eq!(green.g(), 63);
    assert_eq!(green.b(), 0);

    let blue = Color565::new(0x001F);
    assert_eq!(blue.r(), 0);
    assert_eq!(blue.g(), 0);
    assert_eq!(blue.b(), 31);
}

#[test]
fn brightness_formula_exact() {
    // red + green + blue / 3
    assert_eq!(col_to_bright(Color565::new(0x0000)), 0);
    assert_eq!(col_to_bright(Color565::new(0xFFFF)), 31 + 63 + 31 / 3);
    assert_eq!(col_to_bright(Color565::new(0xF800)), 31);
    assert_eq!(col_to_bright(Color565::new(0x07E0)), 63);
    assert_eq!(col_to_bright(Color565::new(0x001F)), 31 / 3);
}
