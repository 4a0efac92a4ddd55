use vstd::prelude::*;

verus! {

/// How the pixels of a texture are laid out.
#[derive(PartialEq, Eq, Structural, Clone, Copy, Debug)]
pub enum PixelFormat {
    /// Red, green, blue and alpha bytes.
    Rgba,
    /// Red, green and blue bytes.
    Rgb,
}

/// What a texture does outside its edges.
#[derive(PartialEq, Eq, Structural, Clone, Copy, Debug)]
pub enum Wrap {
    Repeat,
    ClampToBorder,
}

/// How an image file is turned into a texture. Both kinds are sampled with
/// nearest filtering and get mipmaps.
#[derive(PartialEq, Eq, Structural, Clone, Copy, Debug)]
pub struct TextureSettings {
    pub format: PixelFormat,
    pub wrap: Wrap,
}

/// PNG images keep their alpha channel and repeat.
pub open spec fn png_settings() -> TextureSettings {
    TextureSettings { format: PixelFormat::Rgba, wrap: Wrap::Repeat }
}

/// Other (JPEG) images have no alpha channel and clamp to the border.
pub open spec fn jpg_settings() -> TextureSettings {
    TextureSettings { format: PixelFormat::Rgb, wrap: Wrap::ClampToBorder }
}

/// Whether `s` ends with `suffix`.
pub open spec fn spec_ends_with(s: Seq<char>, suffix: Seq<char>) -> bool {
    suffix.len() <= s.len() && s.subrange(s.len() - suffix.len(), s.len() as int) == suffix
}

/// Whether `s` ends with `suffix`.
pub fn ends_with(s: &str, suffix: &str) -> (r: bool)
    ensures
        r == spec_ends_with(s@, suffix@),
{
    let n = s.unicode_len();
    let m = suffix.unicode_len();
    if m > n {
        return false;
    }
    let mut i: usize = 0;
    while i < m
        invariant
            n == s@.len(),
            m == suffix@.len(),
            m <= n,
            i <= m,
            forall|j: int| 0 <= j < i ==> s@[n - m + j] == suffix@[j],
        decreases m - i,
    {
        if s.get_char(n - m + i) != suffix.get_char(i) {
            assert(s@.subrange(n - m, n as int)[i as int] != suffix@[i as int]);
            return false;
        }
        i = i + 1;
    }
    assert(s@.subrange(n - m, n as int) =~= suffix@);
    true
}

/// The settings for the texture in `filename`: a name ending in "png" is
/// loaded as PNG, any other as JPEG.
pub fn create_texture(filename: &str) -> (t: TextureSettings)
    ensures
        t == if spec_ends_with(filename@, "png"@) { png_settings() } else { jpg_settings() },
{
    if ends_with(filename, "png") {
        create_texture_png()
    } else {
        create_texture_jpg()
    }
}

/// The settings of a PNG texture.
pub fn create_texture_png() -> (t: TextureSettings)
    ensures
        t == png_settings(),
{
    TextureSettings { format: PixelFormat::Rgba, wrap: Wrap::Repeat }
}

/// The settings of a JPEG texture.
pub fn create_texture_jpg() -> (t: TextureSettings)
    ensures
        t == jpg_settings(),
{
    TextureSettings { format: PixelFormat::Rgb, wrap: Wrap::ClampToBorder }
}

/// The settings for an image named with its extension, as cubes load them:
/// ".png" as PNG, ".jpg" as JPEG, and no texture for any other name.
pub fn texture_for_extension(image_file: &str) -> (t: Option<TextureSettings>)
    ensures
        t == if spec_ends_with(image_file@, ".png"@) {
            Some(png_settings())
        } else if spec_ends_with(image_file@, ".jpg"@) {
            Some(jpg_settings())
        } else {
            None
        },
{
    if ends_with(image_file, ".png") {
        Some(create_texture_png())
    } else if ends_with(image_file, ".jpg") {
        Some(create_texture_jpg())
    } else {
        None
    }
}

/// The settings for an image named with its extension, as the sky box and
/// sprites load them: ".png" as PNG, anything else as JPEG.
pub fn texture_png_or_jpg(image_file: &str) -> (t: TextureSettings)
    ensures
        t == if spec_ends_with(image_file@, ".png"@) { png_settings() } else { jpg_settings() },
{
    if ends_with(image_file, ".png") {
        create_texture_png()
    } else {
        create_texture_jpg()
    }
}

} // verus!
