use kernelspace_rust::vgacolor::{make_color, VgaColor};

#[test]
fn make_color_light_green_on_black() {
    assert_eq!(make_color(VgaColor::LightGREEN, VgaColor::Black), 0x0A);
}

#[test]
fn make_color_white_on_black_is_default_attribute() {
    assert_eq!(make_color(VgaColor::White, VgaColor::Black), 0x0F);
}

#[test]
fn make_color_puts_background_in_high_nibble() {
    assert_eq!(make_color(VgaColor::White, VgaColor::Blue), 0x1F);
    assert_eq!(make_color(VgaColor::Black, VgaColor::LightRED), 0xC0);
    assert_eq!(make_color(VgaColor::LightBROWN, VgaColor::White), 0xFE);
}

#[test]
fn palette_indices_skip_four() {
    assert_eq!(VgaColor::Red.index(), 3);
    assert_eq!(VgaColor::Magenta.index(), 5);
    assert_eq!(VgaColor::Brown.index(), 6);
    assert_eq!(VgaColor::DarkGREY.index(), 8);
    assert_eq!(VgaColor::White.index(), 15);
}

#[test]
fn make_color_nibbles_decode() {
    let colors = [
        VgaColor::Black,
        VgaColor::Blue,
        VgaColor::Green,
        VgaColor::Red,
        VgaColor::Magenta,
        VgaColor::Brown,
        VgaColor::LightGREY,
        VgaColor::DarkGREY,
        VgaColor::LightBLUE,
        VgaColor::LightGREEN,
        VgaColor::LightCYAN,
        VgaColor::LightRED,
        VgaColor::LightMAGENTA,
        VgaColor::LightBROWN,
        VgaColor::White,
    ];
    for fg in colors.iter() {
        for bg in colors.iter() {
            let c = make_color(*fg, *bg);
            assert_eq!(c & 0x0F, fg.index());
            assert_eq!(c >> 4, bg.index());
        }
    }
}
