use glam::Vec3;

use raytracing_in_one_weekend::ppm::{
    dec_bytes, format_color, ppm_header_bytes, ppm_image_bytes, ppm_line_bytes,
};

#[test]
fn decimal_renders_each_number() {
    assert_eq!(dec_bytes(0), vec![48u8]);
    assert_eq!(dec_bytes(7), vec![55u8]);
    assert_eq!(dec_bytes(10), vec![49u8, 48]);
    assert_eq!(dec_bytes(255), vec![50u8, 53, 53]);
    assert_eq!(dec_bytes(4294967295), format!("{}", 4294967295u32).into_bytes());
}

#[test]
fn header_has_magic_size_and_depth_lines() {
    let header = ppm_header_bytes(400, 225);
    let expected = format!("{}{}\n{} {}\n{}\n", 'P', 3, 400, 225, 255).into_bytes();
    assert_eq!(header, expected);
}

#[test]
fn pixel_line_is_three_decimals_and_a_break() {
    let line = ppm_line_bytes(255, 0, 128);
    assert_eq!(line, format!("{} {} {}\n", 255, 0, 128).into_bytes());
}

#[test]
fn image_bytes_are_header_then_lines_in_order() {
    let pixels = vec![(0u8, 0u8, 0u8), (255u8, 255u8, 255u8), (1u8, 2u8, 3u8), (9u8, 8u8, 7u8)];
    let bytes = ppm_image_bytes(2, 2, &pixels);
    let mut expected = format!("{}{}\n{} {}\n{}\n", 'P', 3, 2, 2, 255).into_bytes();
    for (r, g, b) in pixels.iter() {
        expected.extend(format!("{} {} {}\n", r, g, b).into_bytes());
    }
    assert_eq!(bytes, expected);
}

#[test]
fn format_color_quantizes_by_256_and_clamps() {
    let s = format_color(Vec3::new(1.0, 0.0, 0.5));
    assert_eq!(s, format!("{} {} {}", 255, 0, 128));
    let below = format_color(Vec3::new(-0.5, 0.25, 0.999));
    assert_eq!(below, format!("{} {} {}", 0, 64, 255));
}
