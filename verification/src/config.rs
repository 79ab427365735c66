//! The renderer's configuration: output format selection, colors and the
//! knobs of one invocation.
//!
//! Colors are carried as 8-bit channels, the domain the hex color syntax
//! of the command line works in; whoever feeds a shading pipeline divides
//! by 255.

use crate::text::{file_extension, file_extension_spec, lower_seq, str_eq_lower};
use vstd::prelude::*;
use vstd::string::StrSliceExecFns;

verus! {

/// The image file formats the output encoder is asked for.
#[derive(Clone, Copy, Debug, PartialEq, Eq, Structural)]
pub enum ImageFormat {
    Png,
    Jpeg,
    Gif,
    Ico,
    Bmp,
}

/// The anti-aliasing method of the render pass.
#[derive(Clone, Copy, Debug, PartialEq, Eq, Structural)]
pub enum AAMethod {
    NoAA,
    FXAA,
}

/// An opaque color with 8-bit channels.
#[derive(Clone, Copy, Debug, PartialEq, Eq, Structural)]
pub struct Rgb {
    pub r: u8,
    pub g: u8,
    pub b: u8,
}

/// A color with an alpha channel, 8 bits each.
#[derive(Clone, Copy, Debug, PartialEq, Eq, Structural)]
pub struct Rgba {
    pub r: u8,
    pub g: u8,
    pub b: u8,
    pub a: u8,
}

/// The reflection-model colors of the rendered mesh.
#[derive(Clone, Copy, Debug, PartialEq, Eq, Structural)]
pub struct Material {
    pub ambient: Rgb,
    pub diffuse: Rgb,
    pub specular: Rgb,
}

/// Whether a lower-cased extension names a supported image format.
pub open spec fn format_recognized_spec(ext: Seq<char>) -> bool {
    let l = lower_seq(ext);
    ||| l == seq!['p', 'n', 'g']
    ||| l == seq!['j', 'p', 'e', 'g']
    ||| l == seq!['j', 'p', 'g']
    ||| l == seq!['g', 'i', 'f']
    ||| l == seq!['i', 'c', 'o']
    ||| l == seq!['b', 'm', 'p']
}

/// The image format an extension selects, case-insensitively; anything
/// unrecognized falls back to PNG.
pub open spec fn match_format_spec(ext: Seq<char>) -> ImageFormat {
    let l = lower_seq(ext);
    if l == seq!['p', 'n', 'g'] {
        ImageFormat::Png
    } else if l == seq!['j', 'p', 'e', 'g'] || l == seq!['j', 'p', 'g'] {
        ImageFormat::Jpeg
    } else if l == seq!['g', 'i', 'f'] {
        ImageFormat::Gif
    } else if l == seq!['i', 'c', 'o'] {
        ImageFormat::Ico
    } else if l == seq!['b', 'm', 'p'] {
        ImageFormat::Bmp
    } else {
        ImageFormat::Png
    }
}

/// The image format `ext` selects; an unrecognized extension falls back
/// to PNG, which [`format_recognized`] lets the caller warn about.
pub fn match_format(ext: &str) -> (r: ImageFormat)
    ensures
        r == match_format_spec(ext@),
{
    proof {
        reveal_strlit("png");
        reveal_strlit("jpeg");
        reveal_strlit("jpg");
        reveal_strlit("gif");
        reveal_strlit("ico");
        reveal_strlit("bmp");
        assert("png"@ =~= seq!['p', 'n', 'g']);
        assert("jpeg"@ =~= seq!['j', 'p', 'e', 'g']);
        assert("jpg"@ =~= seq!['j', 'p', 'g']);
        assert("gif"@ =~= seq!['g', 'i', 'f']);
        assert("ico"@ =~= seq!['i', 'c', 'o']);
        assert("bmp"@ =~= seq!['b', 'm', 'p']);
    }
    if str_eq_lower(ext, "png") {
        ImageFormat::Png
    } else if str_eq_lower(ext, "jpeg") || str_eq_lower(ext, "jpg") {
        ImageFormat::Jpeg
    } else if str_eq_lower(ext, "gif") {
        ImageFormat::Gif
    } else if str_eq_lower(ext, "ico") {
        ImageFormat::Ico
    } else if str_eq_lower(ext, "bmp") {
        ImageFormat::Bmp
    } else {
        ImageFormat::Png
    }
}

/// Whether `ext` names a supported image format; where it does not,
/// [`match_format`] substitutes PNG and the caller should warn.
pub fn format_recognized(ext: &str) -> (r: bool)
    ensures
        r == format_recognized_spec(ext@),
{
    proof {
        reveal_strlit("png");
        reveal_strlit("jpeg");
        reveal_strlit("jpg");
        reveal_strlit("gif");
        reveal_strlit("ico");
        reveal_strlit("bmp");
        assert("png"@ =~= seq!['p', 'n', 'g']);
        assert("jpeg"@ =~= seq!['j', 'p', 'e', 'g']);
        assert("jpg"@ =~= seq!['j', 'p', 'g']);
        assert("gif"@ =~= seq!['g', 'i', 'f']);
        assert("ico"@ =~= seq!['i', 'c', 'o']);
        assert("bmp"@ =~= seq!['b', 'm', 'p']);
    }
    str_eq_lower(ext, "png") || str_eq_lower(ext, "jpeg") || str_eq_lower(ext, "jpg")
        || str_eq_lower(ext, "gif") || str_eq_lower(ext, "ico") || str_eq_lower(ext, "bmp")
}

/// The output format of one invocation: the explicitly requested format
/// where one was given, else the output filename's extension, else PNG.
pub open spec fn output_format_spec(explicit: Option<Seq<char>>, img_filename: Seq<char>)
    -> ImageFormat {
    match explicit {
        Some(e) => match_format_spec(e),
        None => match file_extension_spec(img_filename) {
            Some(ext) => match_format_spec(ext),
            None => ImageFormat::Png,
        },
    }
}

/// Whether settling the output format falls back to PNG from something
/// unrecognized, which is worth one warning.
pub open spec fn output_format_fallback_spec(
    explicit: Option<Seq<char>>,
    img_filename: Seq<char>,
) -> bool {
    match explicit {
        Some(e) => !format_recognized_spec(e),
        None => match file_extension_spec(img_filename) {
            Some(ext) => !format_recognized_spec(ext),
            None => false,
        },
    }
}

/// Settle the output image format from an explicit request and the output
/// filename, with the flag saying whether an unrecognized format fell
/// back to PNG.
pub fn choose_format(explicit: Option<&str>, img_filename: &str) -> (r: (ImageFormat, bool))
    ensures
        ({
            let e = match explicit {
                Some(s) => Some(s@),
                None => None,
            };
            r.0 == output_format_spec(e, img_filename@) && r.1 == output_format_fallback_spec(
                e,
                img_filename@,
            )
        }),
{
    match explicit {
        Some(s) => (match_format(s), !format_recognized(s)),
        None => {
            match file_extension(img_filename) {
                Some(ext) => (match_format(ext), !format_recognized(ext)),
                None => (ImageFormat::Png, false),
            }
        },
    }
}

/// The value of a hex digit, or `-1` where `c` is none.
pub open spec fn hex_digit_spec(c: char) -> int {
    if '0' <= c && c <= '9' {
        c as int - 48
    } else if 'a' <= c && c <= 'f' {
        c as int - 97 + 10
    } else if 'A' <= c && c <= 'F' {
        c as int - 65 + 10
    } else {
        -1
    }
}

/// The byte two hex digits spell, or `-1` where either is invalid.
pub open spec fn hex_byte_spec(hi: char, lo: char) -> int {
    if hex_digit_spec(hi) >= 0 && hex_digit_spec(lo) >= 0 {
        hex_digit_spec(hi) * 16 + hex_digit_spec(lo)
    } else {
        -1
    }
}

/// The color a hex string of at least six digits spells; anything shorter
/// or with an invalid digit spells none.  Characters past the sixth are
/// ignored.
pub open spec fn rgb_of_hex_spec(s: Seq<char>) -> Option<Rgb> {
    if s.len() >= 6 && hex_byte_spec(s[0], s[1]) >= 0 && hex_byte_spec(s[2], s[3]) >= 0
        && hex_byte_spec(s[4], s[5]) >= 0 {
        Some(
            Rgb {
                r: hex_byte_spec(s[0], s[1]) as u8,
                g: hex_byte_spec(s[2], s[3]) as u8,
                b: hex_byte_spec(s[4], s[5]) as u8,
            },
        )
    } else {
        None
    }
}

/// The color a hex string of at least eight digits spells, alpha last.
pub open spec fn rgba_of_hex_spec(s: Seq<char>) -> Option<Rgba> {
    if s.len() >= 8 && hex_byte_spec(s[0], s[1]) >= 0 && hex_byte_spec(s[2], s[3]) >= 0
        && hex_byte_spec(s[4], s[5]) >= 0 && hex_byte_spec(s[6], s[7]) >= 0 {
        Some(
            Rgba {
                r: hex_byte_spec(s[0], s[1]) as u8,
                g: hex_byte_spec(s[2], s[3]) as u8,
                b: hex_byte_spec(s[4], s[5]) as u8,
                a: hex_byte_spec(s[6], s[7]) as u8,
            },
        )
    } else {
        None
    }
}

/// The value of one hex digit.
fn hex_digit(c: char) -> (r: Option<u8>)
    ensures
        r matches Some(v) ==> v == hex_digit_spec(c),
        r is Some <==> hex_digit_spec(c) >= 0,
{
    let u = c as u32;
    if u >= 48 && u <= 57 {
        Some((u - 48) as u8)
    } else if u >= 97 && u <= 102 {
        Some((u - 97 + 10) as u8)
    } else if u >= 65 && u <= 70 {
        Some((u - 65 + 10) as u8)
    } else {
        None
    }
}

/// The byte spelled by the hex digits of `s` at `i` and `i + 1`.
fn hex_byte(s: &str, i: usize) -> (r: Option<u8>)
    requires
        i + 2 <= s@.len(),
        i + 2 <= usize::MAX,
    ensures
        r matches Some(v) ==> v == hex_byte_spec(s@[i as int], s@[i as int + 1]),
        r is Some <==> hex_byte_spec(s@[i as int], s@[i as int + 1]) >= 0,
{
    let hi = match hex_digit(s.get_char(i)) {
        Some(v) => v,
        None => return None,
    };
    let lo = match hex_digit(s.get_char(i + 1)) {
        Some(v) => v,
        None => return None,
    };
    Some(hi * 16 + lo)
}

/// Parse an `rrggbb` hex color.
pub fn html_to_rgb(color: &str) -> (r: Option<Rgb>)
    ensures
        r == rgb_of_hex_spec(color@),
{
    if color.unicode_len() < 6 {
        return None;
    }
    let red = match hex_byte(color, 0) {
        Some(v) => v,
        None => return None,
    };
    let green = match hex_byte(color, 2) {
        Some(v) => v,
        None => return None,
    };
    let blue = match hex_byte(color, 4) {
        Some(v) => v,
        None => return None,
    };
    Some(Rgb { r: red, g: green, b: blue })
}

/// Parse an `rrggbbaa` hex color.
pub fn html_to_rgba(color: &str) -> (r: Option<Rgba>)
    ensures
        r == rgba_of_hex_spec(color@),
{
    if color.unicode_len() < 8 {
        return None;
    }
    let red = match hex_byte(color, 0) {
        Some(v) => v,
        None => return None,
    };
    let green = match hex_byte(color, 2) {
        Some(v) => v,
        None => return None,
    };
    let blue = match hex_byte(color, 4) {
        Some(v) => v,
        None => return None,
    };
    let alpha = match hex_byte(color, 6) {
        Some(v) => v,
        None => return None,
    };
    Some(Rgba { r: red, g: green, b: blue, a: alpha })
}

/// Everything one invocation needs: the model source, the output file and
/// format, the output size, visibility, verbosity, colors, anti-aliasing
/// and the normals policy.
#[derive(Clone)]
pub struct Config {
    pub model_filename: String,
    pub img_filename: String,
    pub format: ImageFormat,
    pub width: u32,
    pub height: u32,
    pub visible: bool,
    pub verbosity: usize,
    pub material: Material,
    pub background: Rgba,
    pub aamethod: AAMethod,
    pub recalc_normals: bool,
}

/// The material the renderer uses when the caller picks none: a blue
/// scheme with white highlights.
pub open spec fn default_material_spec() -> Material {
    Material {
        ambient: Rgb { r: 0, g: 33, b: 66 },
        diffuse: Rgb { r: 97, g: 161, b: 255 },
        specular: Rgb { r: 255, g: 255, b: 255 },
    }
}

impl Default for Config {
    /// The defaults of one invocation: a 1024 by 768 PNG, rendered
    /// off-screen with FXAA over a transparent black background, normals
    /// taken from the source where it has them.
    fn default() -> (c: Config)
        ensures
            c.model_filename@ == Seq::<char>::empty(),
            c.img_filename@ == Seq::<char>::empty(),
            c.format == ImageFormat::Png,
            c.width == 1024,
            c.height == 768,
            !c.visible,
            c.verbosity == 0,
            c.material == default_material_spec(),
            c.background == (Rgba { r: 0, g: 0, b: 0, a: 0 }),
            c.aamethod == AAMethod::FXAA,
            !c.recalc_normals,
    {
        Config {
            model_filename: String::new(),
            img_filename: String::new(),
            format: ImageFormat::Png,
            width: 1024,
            height: 768,
            visible: false,
            verbosity: 0,
            material: Material {
                ambient: Rgb { r: 0, g: 33, b: 66 },
                diffuse: Rgb { r: 97, g: 161, b: 255 },
                specular: Rgb { r: 255, g: 255, b: 255 },
            },
            background: Rgba { r: 0, g: 0, b: 0, a: 0 },
            aamethod: AAMethod::FXAA,
            recalc_normals: false,
        }
    }
}

} // verus!
