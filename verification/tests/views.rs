use rgb::alt::{Gray, GrayAlpha, ABGR, ARGB, BGR, BGRA, GRB};
use rgb::{ComponentBytes, ComponentSlice, RGB, RGB8, RGBA};

#[test]
fn flat_view_of_two_rgb8() {
    let pixels = [RGB8 { r: 1, g: 2, b: 3 }, RGB8 { r: 4, g: 5, b: 6 }];
    assert_eq!(ComponentSlice::as_slice(&pixels[..]), vec![1, 2, 3, 4, 5, 6]);
}

#[test]
fn flat_view_of_one_pixel_is_in_declared_order() {
    assert_eq!(RGB { r: 1, g: 2, b: 3 }.as_slice(), vec![1, 2, 3]);
    assert_eq!(BGR { r: 1, g: 2, b: 3 }.as_slice(), vec![3, 2, 1]);
    assert_eq!(GRB { r: 1, g: 2, b: 3 }.as_slice(), vec![2, 1, 3]);
    assert_eq!(RGBA { r: 1, g: 2, b: 3, a: 4 }.as_slice(), vec![1, 2, 3, 4]);
    assert_eq!(BGRA { r: 1, g: 2, b: 3, a: 4 }.as_slice(), vec![3, 2, 1, 4]);
    assert_eq!(ARGB { r: 1, g: 2, b: 3, a: 4 }.as_slice(), vec![4, 1, 2, 3]);
    assert_eq!(ABGR { r: 1, g: 2, b: 3, a: 4 }.as_slice(), vec![4, 3, 2, 1]);
    assert_eq!(Gray(7).as_slice(), vec![7]);
    assert_eq!(GrayAlpha(7, 8).as_slice(), vec![7, 8]);
}

#[test]
fn flat_view_has_arity_times_count_channels() {
    let rgb = vec![RGB { r: 0u16, g: 1, b: 2 }; 5];
    let flat = ComponentSlice::as_slice(&rgb[..]);
    assert_eq!(flat.len(), 5 * 3);
    for (k, c) in flat.iter().enumerate() {
        assert_eq!(*c, rgb[k / 3].as_slice()[k % 3]);
    }
    let rgba = [RGBA { r: 1u8, g: 2, b: 3, a: 4 }, RGBA { r: 5, g: 6, b: 7, a: 8 }, RGBA { r: 9, g: 10, b: 11, a: 12 }];
    assert_eq!(ComponentSlice::as_slice(&rgba[..]), vec![1, 2, 3, 4, 5, 6, 7, 8, 9, 10, 11, 12]);
    let abgr = [ABGR { r: 1u8, g: 2, b: 3, a: 4 }, ABGR { r: 5, g: 6, b: 7, a: 8 }];
    assert_eq!(ComponentSlice::as_slice(&abgr[..]), vec![4, 3, 2, 1, 8, 7, 6, 5]);
    let argb = [ARGB { r: 1u8, g: 2, b: 3, a: 4 }, ARGB { r: 5, g: 6, b: 7, a: 8 }];
    assert_eq!(ComponentSlice::as_slice(&argb[..]), vec![4, 1, 2, 3, 8, 5, 6, 7]);
    let bgra = [BGRA { r: 1u8, g: 2, b: 3, a: 4 }, BGRA { r: 5, g: 6, b: 7, a: 8 }];
    assert_eq!(ComponentSlice::as_slice(&bgra[..]), vec![3, 2, 1, 4, 7, 6, 5, 8]);
    let bgr = [BGR { r: 1u8, g: 2, b: 3 }, BGR { r: 4, g: 5, b: 6 }];
    assert_eq!(ComponentSlice::as_slice(&bgr[..]), vec![3, 2, 1, 6, 5, 4]);
    let grb = [GRB { r: 1u8, g: 2, b: 3 }, GRB { r: 4, g: 5, b: 6 }];
    assert_eq!(ComponentSlice::as_slice(&grb[..]), vec![2, 1, 3, 5, 4, 6]);
    let gray = [Gray(1u8), Gray(2), Gray(3)];
    assert_eq!(ComponentSlice::as_slice(&gray[..]), vec![1, 2, 3]);
    let gray_alpha = [GrayAlpha(1u8, 2), GrayAlpha(3, 4)];
    assert_eq!(ComponentSlice::as_slice(&gray_alpha[..]), vec![1, 2, 3, 4]);
}

#[test]
fn flat_view_of_no_pixels_is_empty() {
    let none: [RGB8; 0] = [];
    assert_eq!(ComponentSlice::as_slice(&none[..]), Vec::<u8>::new());
    let mut none: [RGB8; 0] = [];
    assert!(ComponentSlice::as_mut_slice(&mut none[..]).is_empty());
    assert!(ComponentBytes::as_bytes(&none[..]).is_empty());
}

#[test]
fn mutable_flat_view_writes_the_pixel() {
    let mut px = BGR { b: 1, g: 2, r: 3 };
    {
        let flat = px.as_mut_slice();
        assert_eq!(flat.len(), 3);
        assert_eq!(*flat[0], 1);
        for c in flat {
            *c += 10;
        }
    }
    assert_eq!(px, BGR { b: 11, g: 12, r: 13 });

    let mut px = ARGB { a: 1, r: 2, g: 3, b: 4 };
    {
        let mut flat = px.as_mut_slice();
        *flat[0] = 100;
        *flat[3] = 40;
    }
    assert_eq!(px, ARGB { a: 100, r: 2, g: 3, b: 40 });

    let mut px = GrayAlpha(1, 2);
    *px.as_mut_slice()[1] = 9;
    assert_eq!(px, GrayAlpha(1, 9));
    let mut px = Gray(1);
    *px.as_mut_slice()[0] = 9;
    assert_eq!(px, Gray(9));
}

#[test]
fn mutable_flat_view_of_a_run_writes_the_right_pixel() {
    let mut pixels = [RGB8 { r: 1, g: 2, b: 3 }, RGB8 { r: 4, g: 5, b: 6 }, RGB8 { r: 7, g: 8, b: 9 }];
    {
        let mut flat = ComponentSlice::as_mut_slice(&mut pixels[..]);
        assert_eq!(flat.len(), 9);
        assert_eq!(*flat[4], 5);
        *flat[4] = 50;
        *flat[8] = 90;
        *flat[0] = 10;
    }
    assert_eq!(pixels, [RGB8 { r: 10, g: 2, b: 3 }, RGB8 { r: 4, g: 50, b: 6 }, RGB8 { r: 7, g: 8, b: 90 }]);

    let mut pixels = [GrayAlpha(1u8, 2u8), GrayAlpha(3, 4)];
    *ComponentSlice::as_mut_slice(&mut pixels[..])[3] = 40;
    assert_eq!(pixels, [GrayAlpha(1, 2), GrayAlpha(3, 40)]);

    let mut pixels = [ABGR { a: 1u8, b: 2, g: 3, r: 4 }, ABGR { a: 5, b: 6, g: 7, r: 8 }];
    *ComponentSlice::as_mut_slice(&mut pixels[..])[5] = 60;
    assert_eq!(pixels[1], ABGR { a: 5, b: 60, g: 7, r: 8 });
    assert_eq!(pixels[0], ABGR { a: 1, b: 2, g: 3, r: 4 });
}

#[test]
fn byte_view_has_size_times_count_bytes() {
    let px8 = [RGB8 { r: 1, g: 2, b: 3 }, RGB8 { r: 4, g: 5, b: 6 }];
    assert_eq!(ComponentBytes::as_bytes(&px8[..]), vec![1, 2, 3, 4, 5, 6]);
    let px16 = [RGB { r: 1u16, g: 2, b: 3 }, RGB { r: 4, g: 5, b: 6 }];
    let bytes = ComponentBytes::as_bytes(&px16[..]);
    assert_eq!(bytes.len(), 6 * 2);
    let px32 = [GrayAlpha(1u32, 2u32), GrayAlpha(3, 4), GrayAlpha(5, 6)];
    assert_eq!(ComponentBytes::as_bytes(&px32[..]).len(), 6 * 4);
    let px64 = [Gray(1i64)];
    assert_eq!(ComponentBytes::as_bytes(&px64[..]).len(), 8);
    let px128 = [BGRA { b: 1u128, g: 2, r: 3, a: 4 }];
    assert_eq!(ComponentBytes::as_bytes(&px128[..]).len(), 4 * 16);
}

#[test]
fn byte_view_is_in_native_order() {
    let px16 = [RGB { r: 0x0102u16, g: 0x0304, b: 0x0506 }];
    let mut expected = Vec::new();
    expected.extend_from_slice(&0x0102u16.to_ne_bytes());
    expected.extend_from_slice(&0x0304u16.to_ne_bytes());
    expected.extend_from_slice(&0x0506u16.to_ne_bytes());
    assert_eq!(ComponentBytes::as_bytes(&px16[..]), expected);
}

#[test]
fn mutable_byte_view_writes_the_channels() {
    let mut pixels = [RGB { r: 0u16, g: 0, b: 0 }, RGB { r: 0, g: 0, b: 0 }];
    {
        let mut chunks = ComponentBytes::as_mut_bytes(&mut pixels[..]);
        assert_eq!(chunks.len(), 6);
        for chunk in chunks.iter() {
            assert_eq!(chunk.len(), 2);
        }
        chunks[4].copy_from_slice(&0x1234u16.to_ne_bytes());
        chunks[0][0] = 1;
        chunks[0][1] = 1;
    }
    assert_eq!(pixels, [RGB { r: 0x0101, g: 0, b: 0 }, RGB { r: 0, g: 0x1234, b: 0 }]);

    let mut pixels = [Gray(5u8), Gray(6)];
    {
        let mut chunks = ComponentBytes::as_mut_bytes(&mut pixels[..]);
        assert_eq!(chunks.len(), 2);
        assert_eq!(chunks[1].len(), 1);
        chunks[1][0] = 60;
    }
    assert_eq!(pixels, [Gray(5), Gray(60)]);
}

#[test]
fn iter_yields_the_channels_in_declared_order() {
    assert_eq!(RGB { r: 1, g: 2, b: 3 }.iter().collect::<Vec<i32>>(), vec![1, 2, 3]);
    assert_eq!(BGR { r: 1, g: 2, b: 3 }.iter().collect::<Vec<i32>>(), vec![3, 2, 1]);
    assert_eq!(GRB { r: 1, g: 2, b: 3 }.iter().collect::<Vec<i32>>(), vec![2, 1, 3]);
}
