use stl_thumb::config::{
    choose_format, format_recognized, html_to_rgb, html_to_rgba, match_format, AAMethod, Config,
    ImageFormat, Rgb, Rgba,
};

#[test]
fn match_format_known_extensions() {
    assert_eq!(match_format("png"), ImageFormat::Png);
    assert_eq!(match_format("jpeg"), ImageFormat::Jpeg);
    assert_eq!(match_format("jpg"), ImageFormat::Jpeg);
    assert_eq!(match_format("gif"), ImageFormat::Gif);
    assert_eq!(match_format("ico"), ImageFormat::Ico);
    assert_eq!(match_format("bmp"), ImageFormat::Bmp);
    assert_eq!(match_format("JPEG"), ImageFormat::Jpeg);
    assert_eq!(match_format("Png"), ImageFormat::Png);
}

#[test]
fn match_format_unknown_falls_back_to_png() {
    assert_eq!(match_format("webp"), ImageFormat::Png);
    assert_eq!(match_format(""), ImageFormat::Png);
    assert!(!format_recognized("webp"));
    assert!(format_recognized("JPG"));
}

#[test]
fn choose_format_from_jpg_path() {
    let (format, fallback) = choose_format(None, "out.jpg");
    assert_eq!(format, ImageFormat::Jpeg);
    assert!(!fallback);
}

#[test]
fn choose_format_unknown_extension_warns() {
    let (format, fallback) = choose_format(None, "out.tiff");
    assert_eq!(format, ImageFormat::Png);
    assert!(fallback);
}

#[test]
fn choose_format_explicit_wins() {
    let (format, fallback) = choose_format(Some("gif"), "out.jpg");
    assert_eq!(format, ImageFormat::Gif);
    assert!(!fallback);
    let (format, fallback) = choose_format(Some("nope"), "out.jpg");
    assert_eq!(format, ImageFormat::Png);
    assert!(fallback);
}

#[test]
fn choose_format_no_extension_defaults_quietly() {
    let (format, fallback) = choose_format(None, "thumbnail");
    assert_eq!(format, ImageFormat::Png);
    assert!(!fallback);
}

#[test]
fn hex_colors() {
    assert_eq!(html_to_rgb("ff8000"), Some(Rgb { r: 255, g: 128, b: 0 }));
    assert_eq!(html_to_rgb("0D0c0B"), Some(Rgb { r: 13, g: 12, b: 11 }));
    assert_eq!(html_to_rgb("ff80"), None);
    assert_eq!(html_to_rgb("ff80zz"), None);
    assert_eq!(html_to_rgba("ffffff00"), Some(Rgba { r: 255, g: 255, b: 255, a: 0 }));
    assert_eq!(html_to_rgba("01020304"), Some(Rgba { r: 1, g: 2, b: 3, a: 4 }));
    assert_eq!(html_to_rgba("010203"), None);
}

#[test]
fn config_defaults() {
    let c = Config::default();
    assert_eq!(c.width, 1024);
    assert_eq!(c.height, 768);
    assert_eq!(c.format, ImageFormat::Png);
    assert!(!c.visible);
    assert!(!c.recalc_normals);
    assert_eq!(c.aamethod, AAMethod::FXAA);
    assert_eq!(c.background, Rgba { r: 0, g: 0, b: 0, a: 0 });
    assert_eq!(c.material.specular, Rgb { r: 255, g: 255, b: 255 });
    assert_eq!(c.model_filename, "");
    assert_eq!(c.img_filename, "");
}
