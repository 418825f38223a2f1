use rgb::alt::{Gray, GrayAlpha};

#[test]
fn gray_derefs_to_its_brightness() {
    let gray = Gray(1);
    let v = *gray;
    assert_eq!(gray.0, v);
}

#[test]
fn gray_of_gray_alpha_leaves_alpha_out() {
    assert_eq!(GrayAlpha(3u8, 200u16).gray(), Gray(3u8));
}

#[test]
fn gray_mut_writes_the_brightness_only() {
    let mut px = GrayAlpha(3u8, 200u16);
    assert_eq!(*px.gray_mut(), 3);
    *px.gray_mut() = 4;
    assert_eq!(px, GrayAlpha(4, 200));
}

#[test]
fn alpha_replaces_alpha_only() {
    assert_eq!(GrayAlpha(3u8, 200u16).alpha(100), GrayAlpha(3u8, 100u16));
}

#[test]
fn map_alpha_maps_alpha_only() {
    assert_eq!(GrayAlpha(3u8, 200u16).map_alpha(|a| a / 2), GrayAlpha(3u8, 100u16));
    assert_eq!(GrayAlpha(3u8, 200u16).map_alpha(|a| a > 100), GrayAlpha(3u8, true));
}

#[test]
fn map_gray_maps_brightness_and_converts_alpha() {
    let px: GrayAlpha<u16, u32> = GrayAlpha(3u8, 200u16).map_gray(|g| u16::from(g) * 1000);
    assert_eq!(px, GrayAlpha(3000u16, 200u32));
    let px: GrayAlpha<i8, u16> = GrayAlpha(3u8, 200u16).map_gray(|g| -(g as i8));
    assert_eq!(px, GrayAlpha(-3i8, 200u16));
}
