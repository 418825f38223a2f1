use rgb::alt::{Gray, GrayAlpha, ABGR, ARGB, BGR, BGRA, GRB};
use rgb::{ColorComponentMap, ComponentMap, RGB, RGB8, RGBA};

#[test]
fn gray_scenarios() {
    assert_eq!(Gray(5) + Gray(3), Gray(8));
    assert_eq!(Gray(5) - 1, Gray(4));
}

#[test]
fn pixel_arithmetic_is_per_channel() {
    let lhs = RGB { r: 10, g: 20, b: 30 };
    let rhs = RGB { r: 1, g: 2, b: 3 };
    assert_eq!(lhs + rhs, RGB { r: 11, g: 22, b: 33 });
    assert_eq!(lhs - rhs, RGB { r: 9, g: 18, b: 27 });
    assert_eq!(lhs * rhs, RGB { r: 10, g: 40, b: 90 });
    let sum = lhs + rhs;
    assert_eq!((sum.r, sum.g, sum.b), (lhs.r + rhs.r, lhs.g + rhs.g, lhs.b + rhs.b));

    let lhs = GRB { g: 10, r: 20, b: 30 };
    let rhs = GRB { g: 1, r: 2, b: 3 };
    assert_eq!(lhs + rhs, GRB { g: 11, r: 22, b: 33 });
    assert_eq!(lhs - rhs, GRB { g: 9, r: 18, b: 27 });
    assert_eq!(lhs * rhs, GRB { g: 10, r: 40, b: 90 });

    assert_eq!(Gray(6) * Gray(7), Gray(42));
    assert_eq!(Gray(6) - Gray(7), Gray(-1));
}

#[test]
fn alpha_pixel_arithmetic_takes_alpha_along() {
    let lhs = RGBA { r: 10u8, g: 20, b: 30, a: 400u16 };
    let rhs = RGBA { r: 1u8, g: 2, b: 3, a: 4u16 };
    assert_eq!(lhs + rhs, RGBA { r: 11, g: 22, b: 33, a: 404 });
    assert_eq!(lhs - rhs, RGBA { r: 9, g: 18, b: 27, a: 396 });

    let lhs = ARGB { a: 400u16, r: 10u8, g: 20, b: 30 };
    let rhs = ARGB { a: 4u16, r: 1u8, g: 2, b: 3 };
    assert_eq!(lhs + rhs, ARGB { a: 404, r: 11, g: 22, b: 33 });
    assert_eq!(lhs - rhs, ARGB { a: 396, r: 9, g: 18, b: 27 });

    assert_eq!(GrayAlpha(5u8, 500u16) + GrayAlpha(1, 2), GrayAlpha(6, 502));
    assert_eq!(GrayAlpha(5u8, 500u16) - GrayAlpha(1, 2), GrayAlpha(4, 498));
}

#[test]
fn assigning_operators_change_the_left_side() {
    let mut px = RGB { r: 10, g: 20, b: 30 };
    px += RGB { r: 1, g: 2, b: 3 };
    assert_eq!(px, RGB { r: 11, g: 22, b: 33 });
    px -= RGB { r: 1, g: 1, b: 1 };
    assert_eq!(px, RGB { r: 10, g: 21, b: 32 });
    px *= RGB { r: 2, g: 1, b: 0 };
    assert_eq!(px, RGB { r: 20, g: 21, b: 0 });

    let mut px = GRB { g: 1, r: 2, b: 3 };
    px += GRB { g: 1, r: 1, b: 1 };
    px *= GRB { g: 2, r: 2, b: 2 };
    px -= GRB { g: 1, r: 0, b: 0 };
    assert_eq!(px, GRB { g: 3, r: 6, b: 8 });

    let mut px = Gray(5);
    px += Gray(3);
    px *= Gray(2);
    px -= Gray(1);
    assert_eq!(px, Gray(15));

    let mut px = RGBA { r: 1, g: 2, b: 3, a: 4 };
    px += RGBA { r: 10, g: 10, b: 10, a: 10 };
    px -= RGBA { r: 1, g: 1, b: 1, a: 2 };
    assert_eq!(px, RGBA { r: 10, g: 11, b: 12, a: 12 });

    let mut px = ARGB { a: 4, r: 1, g: 2, b: 3 };
    px += ARGB { a: 10, r: 10, g: 10, b: 10 };
    px -= ARGB { a: 2, r: 1, g: 1, b: 1 };
    assert_eq!(px, ARGB { a: 12, r: 10, g: 11, b: 12 });

    let mut px = GrayAlpha(1, 2);
    px += GrayAlpha(10, 20);
    px -= GrayAlpha(1, 1);
    assert_eq!(px, GrayAlpha(10, 21));
}

#[test]
fn scalar_arithmetic_reaches_every_channel() {
    let px = RGB { r: 10, g: 20, b: 30 };
    assert_eq!(px + 1, RGB { r: 11, g: 21, b: 31 });
    assert_eq!(px - 1, RGB { r: 9, g: 19, b: 29 });
    assert_eq!(px * 2, RGB { r: 20, g: 40, b: 60 });
    assert_eq!(px / 10, RGB { r: 1, g: 2, b: 3 });

    let px = GRB { g: 10, r: 20, b: 30 };
    assert_eq!(px + 1, GRB { g: 11, r: 21, b: 31 });
    assert_eq!(px - 1, GRB { g: 9, r: 19, b: 29 });
    assert_eq!(px * 2, GRB { g: 20, r: 40, b: 60 });
    assert_eq!(px / 10, GRB { g: 1, r: 2, b: 3 });

    assert_eq!(Gray(7) + 1, Gray(8));
    assert_eq!(Gray(7) * 3, Gray(21));
    assert_eq!(Gray(7) / 2, Gray(3));
    assert_eq!(Gray(-7) / 2, Gray(-3));
}

#[test]
fn scalar_arithmetic_reaches_alpha_too() {
    let px = RGBA { r: 10, g: 20, b: 30, a: 40 };
    assert_eq!(px + 1, RGBA { r: 11, g: 21, b: 31, a: 41 });
    assert_eq!(px - 1, RGBA { r: 9, g: 19, b: 29, a: 39 });
    assert_eq!(px * 2, RGBA { r: 20, g: 40, b: 60, a: 80 });
    assert_eq!(px / 10, RGBA { r: 1, g: 2, b: 3, a: 4 });

    let px = ARGB { a: 40, r: 10, g: 20, b: 30 };
    assert_eq!(px + 1, ARGB { a: 41, r: 11, g: 21, b: 31 });
    assert_eq!(px - 1, ARGB { a: 39, r: 9, g: 19, b: 29 });
    assert_eq!(px * 2, ARGB { a: 80, r: 20, g: 40, b: 60 });
    assert_eq!(px / 10, ARGB { a: 4, r: 1, g: 2, b: 3 });

    let px = GrayAlpha(10, 40);
    assert_eq!(px + 1, GrayAlpha(11, 41));
    assert_eq!(px - 1, GrayAlpha(9, 39));
    assert_eq!(px * 2, GrayAlpha(20, 80));
    assert_eq!(px / 10, GrayAlpha(1, 4));
}

#[test]
fn assigning_scalar_operators_change_the_left_side() {
    let mut px = RGB { r: 10, g: 20, b: 30 };
    px += 2;
    px *= 3;
    px -= 6;
    px /= 2;
    assert_eq!(px, RGB { r: 15, g: 30, b: 45 });

    let mut px = RGBA { r: 10, g: 20, b: 30, a: 40 };
    px += 2;
    px *= 3;
    px -= 6;
    px /= 2;
    assert_eq!(px, RGBA { r: 15, g: 30, b: 45, a: 60 });

    let mut px = ARGB { a: 40, r: 10, g: 20, b: 30 };
    px += 2;
    px *= 3;
    px -= 6;
    px /= 2;
    assert_eq!(px, ARGB { a: 60, r: 15, g: 30, b: 45 });

    let mut px = GRB { g: 10, r: 20, b: 30 };
    px += 2;
    px *= 3;
    px -= 6;
    px /= 2;
    assert_eq!(px, GRB { g: 15, r: 30, b: 45 });

    let mut px = Gray(10);
    px += 2;
    px *= 3;
    px -= 6;
    px /= 2;
    assert_eq!(px, Gray(15));

    let mut px = GrayAlpha(10, 40);
    px += 2;
    px *= 3;
    px -= 6;
    px /= 2;
    assert_eq!(px, GrayAlpha(15, 60));
}

#[test]
fn map_reaches_every_channel() {
    assert_eq!(RGB { r: 1u8, g: 2, b: 3 }.map(|c| u16::from(c) * 100), RGB { r: 100u16, g: 200, b: 300 });
    assert_eq!(BGR { b: 1, g: 2, r: 3 }.map(|c| c + 1), BGR { b: 2, g: 3, r: 4 });
    assert_eq!(GRB { g: 1, r: 2, b: 3 }.map(|c| c * 2), GRB { g: 2, r: 4, b: 6 });
    assert_eq!(RGBA { r: 1, g: 2, b: 3, a: 4 }.map(|c| c * 2), RGBA { r: 2, g: 4, b: 6, a: 8 });
    assert_eq!(BGRA { b: 1, g: 2, r: 3, a: 4 }.map(|c| c * 2), BGRA { b: 2, g: 4, r: 6, a: 8 });
    assert_eq!(ARGB { a: 1, r: 2, g: 3, b: 4 }.map(|c| c * 2), ARGB { a: 2, r: 4, g: 6, b: 8 });
    assert_eq!(ABGR { a: 1, b: 2, g: 3, r: 4 }.map(|c| c * 2), ABGR { a: 2, b: 4, g: 6, r: 8 });
    assert_eq!(Gray(4).map(|c| c * 2), Gray(8));
    assert_eq!(GrayAlpha(4, 5).map(|c| c * 2), GrayAlpha(8, 10));
}

#[test]
fn map_calls_in_declared_order() {
    let mut seen = Vec::new();
    let out = ABGR { a: 1, b: 2, g: 3, r: 4 }.map(|c| {
        seen.push(c);
        c
    });
    assert_eq!(out, ABGR { a: 1, b: 2, g: 3, r: 4 });
    assert_eq!(seen, vec![1, 2, 3, 4]);
    let mut seen = Vec::new();
    let _ = BGRA { b: 2, g: 3, r: 4, a: 1u8 }.map_c(|c: i32| {
        seen.push(c);
        c
    });
    assert_eq!(seen, vec![2, 3, 4]);
}

#[test]
fn map_c_keeps_alpha() {
    assert_eq!(RGBA { r: 1u8, g: 2, b: 3, a: 4u8 }.map_c(|c| u16::from(c) * 100), RGBA { r: 100u16, g: 200, b: 300, a: 4u8 });
    assert_eq!(BGRA { b: 1, g: 2, r: 3, a: 4u8 }.map_c(|c: i32| c * 2), BGRA { b: 2, g: 4, r: 6, a: 4u8 });
    assert_eq!(ARGB { a: 1u8, r: 2, g: 3, b: 4 }.map_c(|c: i32| c * 2), ARGB { a: 1u8, r: 4, g: 6, b: 8 });
    assert_eq!(ABGR { a: 1u8, b: 2, g: 3, r: 4 }.map_c(|c: i32| c * 2), ABGR { a: 1u8, b: 4, g: 6, r: 8 });
    assert_eq!(GrayAlpha(4, 5u8).map_c(|c: i32| c * 2), GrayAlpha(8, 5u8));
}

#[test]
fn map_c_without_alpha_is_map() {
    assert_eq!(RGB { r: 1, g: 2, b: 3 }.map_c(|c| c * 2), RGB { r: 2, g: 4, b: 6 });
    assert_eq!(BGR { b: 1, g: 2, r: 3 }.map_c(|c| c * 2), BGR { b: 2, g: 4, r: 6 });
    assert_eq!(GRB { g: 1, r: 2, b: 3 }.map_c(|c| c * 2), GRB { g: 2, r: 4, b: 6 });
    assert_eq!(Gray(4).map_c(|c| c * 2), Gray(8));
}

#[test]
fn sum_of_none_is_the_zero_pixel() {
    let none: Vec<RGB8> = Vec::new();
    assert_eq!(none.into_iter().sum::<RGB8>(), RGB { r: 0, g: 0, b: 0 });
    let none: Vec<GrayAlpha<u8, u16>> = Vec::new();
    assert_eq!(none.into_iter().sum::<GrayAlpha<u8, u16>>(), GrayAlpha(0, 0));
}

#[test]
fn sum_of_one_is_that_pixel() {
    let p = RGB8 { r: 1, g: 2, b: 3 };
    assert_eq!(vec![p].into_iter().sum::<RGB8>(), p);
    let p = ARGB { a: 1u8, r: 2i32, g: 3, b: 4 };
    assert_eq!(vec![p].into_iter().sum::<ARGB<i32, u8>>(), p);
}

#[test]
fn sum_of_two_is_their_sum() {
    let lhs = RGB8 { r: 1, g: 2, b: 3 };
    let rhs = RGB8 { r: 10, g: 20, b: 30 };
    assert_eq!(vec![lhs, rhs].into_iter().sum::<RGB8>(), lhs + rhs);
    assert_eq!(vec![lhs, rhs].into_iter().sum::<RGB8>(), RGB { r: 11, g: 22, b: 33 });
}

#[test]
fn sum_of_each_summable_type() {
    assert_eq!(vec![GRB { g: 1, r: 2, b: 3 }, GRB { g: 1, r: 1, b: 1 }, GRB { g: 5, r: 5, b: 5 }].into_iter().sum::<GRB<i32>>(), GRB { g: 7, r: 8, b: 9 });
    assert_eq!(vec![Gray(1u8), Gray(2), Gray(3)].into_iter().sum::<Gray<u8>>(), Gray(6));
    assert_eq!(vec![RGBA { r: 1, g: 2, b: 3, a: 4u8 }, RGBA { r: 1, g: 1, b: 1, a: 1 }].into_iter().sum::<RGBA<i32, u8>>(), RGBA { r: 2, g: 3, b: 4, a: 5 });
    assert_eq!(vec![ARGB { a: 4u8, r: 1, g: 2, b: 3 }, ARGB { a: 1, r: 1, g: 1, b: 1 }].into_iter().sum::<ARGB<i32, u8>>(), ARGB { a: 5, r: 2, g: 3, b: 4 });
    assert_eq!(vec![GrayAlpha(1, 4u8), GrayAlpha(1, 1)].into_iter().sum::<GrayAlpha<i32, u8>>(), GrayAlpha(2, 5));
    assert_eq!(rgb::sum::fold_sum(Gray(100), vec![Gray(1), Gray(2)].into_iter()), Gray(103));
}
