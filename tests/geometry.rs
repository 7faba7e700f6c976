use tabula::geometry::{fit_image, split_point, PointError, Position, Scale, Size};

#[test]
fn position_and_size_constructors() {
    let p = Position::new(3, -4);
    assert_eq!((p.x, p.y), (3, -4));
    assert_eq!(Position::from((1u32, 2u32)), Position::new(1, 2));
    let s = Size::new(800u32, 600u32);
    assert_eq!((s.width, s.height), (800, 600));
    assert_eq!(Size::from((5u32, 6u32)), Size::new(5, 6));
}

#[test]
fn fit_wide_viewport_scales_by_width_ratio() {
    // Width ratio 2.4, height ratio 1.8: the larger ratio wins.
    let fit = fit_image(Size::new(1920, 1080), Size::new(800, 600));
    assert_eq!(fit.scale, 1920);
    assert_eq!(fit.denominator, 800);
    assert_eq!(fit.width / fit.denominator, 1920);
    assert_eq!(fit.height / fit.denominator, 1440);
    assert_eq!(fit.overflow_x, 0);
    assert_eq!(fit.overflow_y / fit.denominator, 360);
    // Focus 0.5 moves the image up by half the overflow.
    let offset = -(fit.overflow_y as f64 / fit.denominator as f64) * 0.5;
    assert_eq!(offset, -180.0);
}

#[test]
fn fit_tall_viewport_scales_by_height_ratio() {
    let fit = fit_image(Size::new(1080, 1920), Size::new(800, 600));
    assert_eq!((fit.scale, fit.denominator), (1920, 600));
    assert_eq!(fit.height, 1920 * 600);
    assert_eq!(fit.overflow_y, 0);
    // 800 * 3.2 = 2560 wide, 1480 beyond the viewport.
    assert_eq!(fit.width / fit.denominator, 2560);
    assert_eq!(fit.overflow_x / fit.denominator, 1480);
}

#[test]
fn fit_offsets_span_zero_to_overflow() {
    let fit = fit_image(Size::new(1920, 1080), Size::new(800, 600));
    let max = fit.overflow_y as f64 / fit.denominator as f64;
    for focus in [0.0f64, 0.25, 0.5, 1.0] {
        let offset = max * focus;
        assert!(offset >= 0.0 && offset <= max);
    }
    assert_eq!(max * 0.0, 0.0);
    assert_eq!(max * 1.0, max);
}

#[test]
fn fit_same_aspect_has_no_overflow() {
    let fit = fit_image(Size::new(1600, 1200), Size::new(800, 600));
    assert_eq!((fit.overflow_x, fit.overflow_y), (0, 0));
    assert_eq!(fit.width / fit.denominator, 1600);
}

#[test]
fn scaled_size_rounds_to_nearest() {
    let logical = Size::new(1001u32, 333u32);
    assert_eq!(logical.scaled(Scale::unit()), logical);
    assert_eq!(logical.scaled(Scale::from_integer(2)), Size::new(2002, 666));
    // 1.5x: 1501.5 rounds up, 499.5 rounds up.
    assert_eq!(logical.scaled(Scale::from_fractional(180)), Size::new(1502, 500));
    // 1.25x of 1001 is 1251.25.
    assert_eq!(Size::new(1001u32, 4).scaled(Scale::from_fractional(150)), Size::new(1251, 5));
    assert_eq!(logical.scaled(Scale::from_integer(-3)), Size::new(0, 0));
    assert_eq!(Size::new(u32::MAX, 1).scaled(Scale::from_integer(2)), Size::new(u32::MAX, 2));
}

#[test]
fn scale_constructors() {
    assert_eq!(Scale::unit().per120, 120);
    assert_eq!(Scale::from_integer(3).per120, 360);
    assert_eq!(Scale::from_integer(0).per120, 0);
    assert_eq!(Scale::from_fractional(150).per120, 150);
}

#[test]
fn empty_sizes() {
    assert!(Size::new(0u32, 5).is_empty());
    assert!(Size::new(5u32, 0).is_empty());
    assert!(!Size::new(5u32, 5).is_empty());
}

#[test]
fn point_split_at_plus() {
    let (x, y) = split_point("0.5+0.5").unwrap();
    assert_eq!((x, y), ("0.5", "0.5"));
    assert_eq!(x.parse::<f32>().unwrap(), 0.5);
    assert_eq!(y.parse::<f32>().unwrap(), 0.5);
    assert_eq!(split_point("1+2+3").unwrap(), ("1", "2+3"));
    assert_eq!(split_point("+").unwrap(), ("", ""));
}

#[test]
fn point_without_plus_is_rejected() {
    assert_eq!(split_point("0.5,0.5"), Err(PointError::MissingSeparator));
    assert_eq!(split_point("0.5 0.5"), Err(PointError::MissingSeparator));
    assert_eq!(split_point(""), Err(PointError::MissingSeparator));
    assert_eq!(PointError::MissingSeparator.message(), "X and Y must be separated by `+`");
}

#[test]
fn point_with_non_numeric_part_fails_to_parse() {
    let (x, y) = split_point("abc+0.5").unwrap();
    assert!(x.parse::<f32>().is_err());
    assert!(y.parse::<f32>().is_ok());
}
