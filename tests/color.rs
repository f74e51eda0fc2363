use embedded_ttf::{pixel_color_to_u32, rgba_background_to_rgb, rgba_blend, rgba_to_rgb, u32_to_rgba, Rgb};

fn white() -> Rgb {
    Rgb::new(255, 255, 255)
}

fn black() -> Rgb {
    Rgb::new(0, 0, 0)
}

#[test]
fn test_pixel_color_to_u32() {
    assert_eq!(4294967295, pixel_color_to_u32(white()));
    assert_eq!(4278190080, pixel_color_to_u32(black()));
}

#[test]
fn test_u32_to_rgba() {
    assert_eq!((255, 255, 255, 255), u32_to_rgba(4294967295));
    assert_eq!((0, 0, 0, 255), u32_to_rgba(4278190080));
}

#[test]
fn test_rgba_to_rgb() {
    assert_eq!((255, 255, 255), rgba_to_rgb(255, 255, 255, 255));
    assert_eq!((100, 100, 100), rgba_to_rgb(255, 255, 255, 100));
}

#[test]
fn test_rgba_background_to_rgb() {
    assert_eq!(
        Some((255, 255, 255)),
        rgba_background_to_rgb(255, 255, 255, 255, None)
    );
    assert_eq!(
        Some((100, 100, 100)),
        rgba_background_to_rgb(255, 255, 255, 100, Some(black()))
    );
}

#[test]
fn pack_places_channels() {
    assert_eq!(0xFF123456, pixel_color_to_u32(Rgb::new(0x12, 0x34, 0x56)));
}

#[test]
fn unpack_reads_all_four_bytes() {
    assert_eq!((0x34, 0x56, 0x78, 0x12), u32_to_rgba(0x12345678));
}

#[test]
fn unpack_of_pack_is_opaque_color() {
    for &(r, g, b) in &[(0u8, 0u8, 0u8), (1, 2, 3), (200, 17, 255), (255, 255, 255)] {
        assert_eq!((r, g, b, 255), u32_to_rgba(pixel_color_to_u32(Rgb::new(r, g, b))));
    }
}

#[test]
fn attenuate_rounds_up() {
    assert_eq!((6, 11, 16), rgba_to_rgb(10, 20, 30, 128));
    assert_eq!((0, 0, 0), rgba_to_rgb(10, 20, 30, 0));
    assert_eq!((1, 1, 0), rgba_to_rgb(1, 254, 0, 1));
}

#[test]
fn attenuate_at_full_alpha_is_identity() {
    for v in 0..=255u8 {
        assert_eq!((v, 255 - v, v / 2), rgba_to_rgb(v, 255 - v, v / 2, 255));
    }
}

#[test]
fn attenuate_grows_with_alpha() {
    let mut last = rgba_to_rgb(90, 180, 255, 0);
    for a in 1..=255u8 {
        let now = rgba_to_rgb(90, 180, 255, a);
        assert!(now.0 >= last.0 && now.1 >= last.1 && now.2 >= last.2);
        last = now;
    }
}

#[test]
fn blend_mixes_channels_with_ceiling() {
    assert_eq!((128, 0, 127), rgba_blend(255, 0, 0, 128, Rgb::new(0, 0, 255)));
    assert_eq!((100, 100, 100), rgba_blend(255, 255, 255, 100, black()));
}

#[test]
fn blend_extremes() {
    let bg = Rgb::new(12, 200, 99);
    assert_eq!((1, 2, 3), rgba_blend(1, 2, 3, 255, bg));
    assert_eq!((12, 200, 99), rgba_blend(1, 2, 3, 0, bg));
}

#[test]
fn no_backdrop_cuts_off_at_half() {
    assert_eq!(None, rgba_background_to_rgb(9, 8, 7, 127, None));
    assert_eq!(Some((9, 8, 7)), rgba_background_to_rgb(9, 8, 7, 128, None));
    assert_eq!(None, rgba_background_to_rgb(9, 8, 7, 0, None));
}

#[test]
fn backdrop_always_gives_a_pixel() {
    assert_eq!(Some((10, 20, 30)), rgba_background_to_rgb(255, 255, 255, 0, Some(Rgb::new(10, 20, 30))));
}
