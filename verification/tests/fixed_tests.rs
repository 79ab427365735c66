use stl_thumb::fixed::{fixed_from_f32_bits, fixed_from_f64_bits, LIMIT, SCALE};
use stl_thumb::imgbuf::{flip_vertical, image_buffer_len};

fn dec32(x: f32) -> i64 {
    fixed_from_f32_bits(x.to_bits())
}

fn dec64(x: f64) -> i64 {
    fixed_from_f64_bits(x.to_bits())
}

#[test]
fn decode_f32_exact_values() {
    assert_eq!(dec32(0.0), 0);
    assert_eq!(dec32(-0.0), 0);
    assert_eq!(dec32(1.0), SCALE);
    assert_eq!(dec32(-1.0), -SCALE);
    assert_eq!(dec32(0.5), SCALE / 2);
    assert_eq!(dec32(2.5), 5 * SCALE / 2);
    assert_eq!(dec32(-2.5), -5 * SCALE / 2);
    assert_eq!(dec32(1024.0), 1024 * SCALE);
}

#[test]
fn decode_f32_truncates_toward_zero() {
    // 1/3 as a single is 11184811 * 2^-25; scaled by 2^16 and truncated
    // that is 21845, on either side of zero.
    assert_eq!(dec32(1.0 / 3.0), 21845);
    assert_eq!(dec32(-1.0 / 3.0), -21845);
}

#[test]
fn decode_f32_small_values_vanish() {
    assert_eq!(dec32(1e-40), 0);
    assert_eq!(dec32(2.0f32.powi(-17)), 0);
    assert_eq!(dec32(2.0f32.powi(-16)), 1);
}

#[test]
fn decode_f32_saturates() {
    assert_eq!(dec32(1e30), LIMIT);
    assert_eq!(dec32(-1e30), -LIMIT);
    assert_eq!(dec32(f32::INFINITY), LIMIT);
    assert_eq!(dec32(f32::NEG_INFINITY), -LIMIT);
    assert_eq!(dec32(f32::NAN), LIMIT);
    assert_eq!(dec32(2.0f32.powi(24)), LIMIT);
}

#[test]
fn decode_f64_exact_values() {
    assert_eq!(dec64(0.0), 0);
    assert_eq!(dec64(1.0), SCALE);
    assert_eq!(dec64(-1.0), -SCALE);
    assert_eq!(dec64(2.5), 5 * SCALE / 2);
    assert_eq!(dec64(1.0 / 3.0), 21845);
    assert_eq!(dec64(1e-300), 0);
    assert_eq!(dec64(1e300), LIMIT);
    assert_eq!(dec64(-1e300), -LIMIT);
    assert_eq!(dec64(f64::INFINITY), LIMIT);
}

#[test]
fn decode_agrees_across_precisions() {
    for x in [0.0f32, 1.0, -1.0, 0.25, 1234.5, -0.125] {
        assert_eq!(dec32(x), dec64(x as f64));
    }
}

#[test]
fn buffer_len_contract() {
    assert_eq!(image_buffer_len(2, 3), Some(24));
    assert_eq!(image_buffer_len(1024, 768), Some(1024 * 768 * 4));
    assert_eq!(image_buffer_len(0, 5), Some(0));
    assert_eq!(image_buffer_len(u32::MAX, u32::MAX), None);
}

#[test]
fn flip_vertical_reverses_rows() {
    // One pixel per row, two rows.
    let pixels = vec![1, 2, 3, 4, 5, 6, 7, 8];
    assert_eq!(flip_vertical(&pixels, 1, 2), vec![5, 6, 7, 8, 1, 2, 3, 4]);
    // One row is left as it is.
    let row = vec![9, 8, 7, 6, 5, 4, 3, 2];
    assert_eq!(flip_vertical(&row, 2, 1), row);
    // Three rows of two pixels.
    let mut img = Vec::new();
    for b in 0..24u8 {
        img.push(b);
    }
    let flipped = flip_vertical(&img, 2, 3);
    assert_eq!(&flipped[0..8], &img[16..24]);
    assert_eq!(&flipped[8..16], &img[8..16]);
    assert_eq!(&flipped[16..24], &img[0..8]);
}
