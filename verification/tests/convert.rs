use rgb::alt::{Gray, GrayAlpha, ARGB, ARGB8, BGR, BGR8, BGRA, BGRA8, GRB, GRB8};
use rgb::{ComponentMap, RGB, RGB8, RGBA, RGBA8};

#[test]
fn convert_array() {
    assert_eq!(RGB8::from([1, 2, 3]), RGB8::new(1, 2, 3));
    assert_eq!(Into::<[u8; 3]>::into(RGB8::new(1, 2, 3)), [1, 2, 3]);
    assert_eq!(RGBA8::from([1, 2, 3, 4]), RGBA8::new(1, 2, 3, 4));
    assert_eq!(Into::<[u8; 4]>::into(RGBA8::new(1, 2, 3, 4)), [1, 2, 3, 4]);
    // The colour with red 1, green 2 and blue 3 is blue-first in an array.
    assert_eq!(BGR8::from([3, 2, 1]), BGR8 { r: 1, g: 2, b: 3 });
    assert_eq!(Into::<[u8; 3]>::into(BGR8 { r: 1, g: 2, b: 3 }), [3, 2, 1]);
    assert_eq!(BGRA8::from([3, 2, 1, 4]), BGRA8 { r: 1, g: 2, b: 3, a: 4 });
    assert_eq!(Into::<[u8; 4]>::into(BGRA8 { r: 1, g: 2, b: 3, a: 4 }), [3, 2, 1, 4]);
}

#[test]
fn grb_test() {
    let grb = GRB { g: 1, r: 2, b: 3 }.map(|c| c * 2) + 1;

    let rgb: RGB8 = grb.into();

    assert_eq!(rgb, RGB::new(5, 3, 7));
}

#[test]
fn constructors_take_the_declared_order() {
    assert_eq!(RGB::new(1, 2, 3), RGB { r: 1, g: 2, b: 3 });
    assert_eq!(BGR::new(1, 2, 3), BGR { b: 1, g: 2, r: 3 });
    assert_eq!(GRB::new(1, 2, 3), GRB { g: 1, r: 2, b: 3 });
    assert_eq!(RGBA::new(1, 2, 3, 4u16), RGBA { r: 1, g: 2, b: 3, a: 4u16 });
    assert_eq!(BGRA::new(1, 2, 3, 4u16), BGRA { b: 1, g: 2, r: 3, a: 4u16 });
    assert_eq!(ARGB::new(1u16, 2, 3, 4), ARGB { a: 1u16, r: 2, g: 3, b: 4 });
    assert_eq!(rgb::alt::ABGR::new(1u16, 2, 3, 4), rgb::alt::ABGR { a: 1u16, b: 2, g: 3, r: 4 });
    assert_eq!(Gray::new(9), Gray(9));
    assert_eq!(GrayAlpha::new(9, 1u16), GrayAlpha(9, 1u16));
}

#[test]
fn rgb_array_scenario() {
    assert_eq!(RGB::from([1, 2, 3]), RGB { r: 1, g: 2, b: 3 });
    let array: [i32; 3] = RGB { r: 1, g: 2, b: 3 }.into();
    assert_eq!(array, [1, 2, 3]);
}

#[test]
fn bgr_array_is_blue_first() {
    let px = BGR::from([3, 2, 1]);
    assert_eq!(px, BGR { b: 3, g: 2, r: 1 });
    assert_eq!((px.r, px.g, px.b), (1, 2, 3));
    let array: [i32; 3] = px.into();
    assert_eq!(array, [3, 2, 1]);
}

#[test]
fn bgra_array_scenario() {
    assert_eq!(BGRA::from([3, 2, 1, 4]), BGRA { b: 3, g: 2, r: 1, a: 4 });
    let array: [u8; 4] = BGRA8 { b: 3, g: 2, r: 1, a: 4 }.into();
    assert_eq!(array, [3, 2, 1, 4]);
}

#[test]
fn argb_array_is_alpha_first() {
    assert_eq!(ARGB8::from([4, 1, 2, 3]), ARGB { a: 4, r: 1, g: 2, b: 3 });
    let array: [u8; 4] = ARGB8 { a: 4, r: 1, g: 2, b: 3 }.into();
    assert_eq!(array, [4, 1, 2, 3]);
}

#[test]
fn array_round_trip_gives_the_pixel_again() {
    let px = RGB8::new(7, 8, 9);
    assert_eq!(RGB8::from(<[u8; 3]>::from(px)), px);
    let px = RGBA8::new(7, 8, 9, 10);
    assert_eq!(RGBA8::from(<[u8; 4]>::from(px)), px);
    let px = ARGB8::new(7, 8, 9, 10);
    assert_eq!(ARGB8::from(<[u8; 4]>::from(px)), px);
    let px = BGR8::new(7, 8, 9);
    assert_eq!(BGR8::from(<[u8; 3]>::from(px)), px);
    let px = BGRA8::new(7, 8, 9, 10);
    assert_eq!(BGRA8::from(<[u8; 4]>::from(px)), px);
    let once = BGRA8::from(<[u8; 4]>::from(px));
    assert_eq!(BGRA8::from(<[u8; 4]>::from(once)), once);
}

#[test]
fn grb_and_rgb_keep_each_channel_under_its_name() {
    let rgb: RGB8 = GRB8 { g: 1, r: 2, b: 3 }.into();
    assert_eq!(rgb, RGB { r: 2, g: 1, b: 3 });
    let grb: GRB8 = RGB8 { r: 2, g: 1, b: 3 }.into();
    assert_eq!(grb, GRB { g: 1, r: 2, b: 3 });
}

#[test]
fn gray_to_gray_alpha_is_opaque() {
    let px: GrayAlpha<u8> = Gray(200u8).into();
    assert_eq!(px, GrayAlpha(200, 0xFF));
    let px: GrayAlpha<u16, u16> = Gray(200u16).into();
    assert_eq!(px, GrayAlpha(200, 0xFFFF));
    let px: GrayAlpha<i32, u8> = Gray(-5).into();
    assert_eq!(px, GrayAlpha(-5, 255u8));
    let px: GrayAlpha<i32, u16> = Gray(-5).into();
    assert_eq!(px, GrayAlpha(-5, 65535u16));
}

#[test]
fn gray_from_brightness() {
    let px: Gray<u8> = 17u8.into();
    assert_eq!(px, Gray(17));
    assert_eq!(*px, 17);
}

#[test]
fn alpha_appends_to_the_colour_channels() {
    assert_eq!(RGB8::new(1, 2, 3).alpha(4), RGBA8 { r: 1, g: 2, b: 3, a: 4 });
    assert_eq!(RGB8::new(1, 2, 3).new_alpha(400u16), RGBA { r: 1u8, g: 2, b: 3, a: 400u16 });
    assert_eq!(BGR8::new(1, 2, 3).alpha(4), BGRA8 { b: 1, g: 2, r: 3, a: 4 });
    assert_eq!(BGR8::new(1, 2, 3).new_alpha(400u16), BGRA { b: 1u8, g: 2, r: 3, a: 400u16 });
}

#[test]
fn from_iter_takes_the_first_three() {
    assert_eq!(RGB::from_iter(vec![1, 2, 3].into_iter()), RGB { r: 1, g: 2, b: 3 });
    assert_eq!(RGB::from_iter(vec![1, 2, 3, 4, 5].into_iter()), RGB { r: 1, g: 2, b: 3 });
    assert_eq!(RGB::from_iter(10u8..), RGB { r: 10, g: 11, b: 12 });
}

#[test]
fn default_is_the_all_zero_pixel() {
    assert_eq!(RGB8::default(), RGB { r: 0, g: 0, b: 0 });
    assert_eq!(BGR8::default(), BGR { b: 0, g: 0, r: 0 });
    assert_eq!(GRB8::default(), GRB { g: 0, r: 0, b: 0 });
    assert_eq!(RGBA::<u8, i16>::default(), RGBA { r: 0, g: 0, b: 0, a: 0 });
    assert_eq!(BGRA8::default(), BGRA { b: 0, g: 0, r: 0, a: 0 });
    assert_eq!(ARGB8::default(), ARGB { a: 0, r: 0, g: 0, b: 0 });
    assert_eq!(rgb::alt::ABGR8::default(), rgb::alt::ABGR { a: 0, b: 0, g: 0, r: 0 });
    assert_eq!(Gray::<u16>::default(), Gray(0));
    assert_eq!(GrayAlpha::<u16, u8>::default(), GrayAlpha(0, 0));
}
