//! Planning how an image becomes a GPU texture, and the random noise texture.
use vstd::prelude::*;

verus! {

/// A texture size in texels.
#[derive(Clone, Copy, Debug, PartialEq, Eq, Structural)]
pub struct TextureSize {
    pub width: u32,
    pub height: u32,
}

/// How a decoded image is brought to the requested size.
#[derive(Clone, Copy, Debug, PartialEq, Eq, Structural)]
pub enum ResizeMode {
    /// Scale to cover the target, cropping the overflow (keeps the aspect ratio).
    Fill,
    /// Scale to exactly the target size.
    Exact,
}

/// A resize applied to a decoded image.
#[derive(Clone, Copy, Debug, PartialEq, Eq, Structural)]
pub struct ResizeStep {
    pub target: TextureSize,
    pub mode: ResizeMode,
}

/// Texel format of an image texture.
#[derive(Clone, Copy, Debug, PartialEq, Eq, Structural)]
pub enum ImageTexelFormat {
    /// One 8-bit luminance channel.
    R8Unorm,
    /// Four 8-bit channels.
    Rgba8Unorm,
}

/// How an image file is turned into a texture.
#[derive(Clone, Copy, Debug, PartialEq, Eq, Structural)]
pub struct TexturePlan {
    /// Resize to apply to the decoded image, if any.
    pub resize: Option<ResizeStep>,
    /// Size of the texture.
    pub size: TextureSize,
    /// Texel format of the texture.
    pub format: ImageTexelFormat,
    /// Bytes per row of the uploaded texel data.
    pub bytes_per_row: u32,
}

/// A requested texture size with a zero side.
#[derive(Clone, Copy, Debug, PartialEq, Eq, Structural)]
pub struct InvalidTextureSize;

/// The size a loaded texture ends up with.
pub open spec fn planned_size(image: TextureSize, resize_target: Option<TextureSize>) -> TextureSize {
    match resize_target {
        Some(target) => target,
        None => image,
    }
}

/// How an image of size `image` is loaded as a texture: refused when the
/// resize target has a zero side, else resized to the target if one is given
/// (filling it when `fit`, stretching otherwise), one luminance byte per
/// texel when `monochrome`, else four.
pub open spec fn texture_plan(
    image: TextureSize,
    resize_target: Option<TextureSize>,
    monochrome: bool,
    fit: bool,
) -> Result<TexturePlan, InvalidTextureSize> {
    if resize_target matches Some(t) && (t.width == 0 || t.height == 0) {
        Err(InvalidTextureSize)
    } else {
        let size = planned_size(image, resize_target);
        Ok(
            TexturePlan {
                resize: match resize_target {
                    Some(t) => Some(
                        ResizeStep { target: t, mode: if fit { ResizeMode::Fill } else { ResizeMode::Exact } },
                    ),
                    None => None,
                },
                size,
                format: if monochrome {
                    ImageTexelFormat::R8Unorm
                } else {
                    ImageTexelFormat::Rgba8Unorm
                },
                bytes_per_row: if monochrome {
                    size.width
                } else {
                    (size.width * 4) as u32
                },
            },
        )
    }
}

/// Law: asking for one luminance channel changes only the texel format and
/// the row size, never whether the image is refused, resized or how large
/// the texture is; so a monochrome and a colour load of one file convert
/// the same image. A resize target is what the texture measures, and a
/// colour row holds four bytes per texel.
pub proof fn lemma_monochrome_keeps_image(image: TextureSize, resize_target: Option<TextureSize>, fit: bool)
    ensures
        texture_plan(image, resize_target, true, fit) is Ok <==> texture_plan(image, resize_target, false, fit) is Ok,
        texture_plan(image, resize_target, true, fit) matches Ok(mono) ==> {
            let color = texture_plan(image, resize_target, false, fit)->Ok_0;
            &&& mono.resize == color.resize
            &&& mono.size == color.size
            &&& mono.format == ImageTexelFormat::R8Unorm
            &&& color.format == ImageTexelFormat::Rgba8Unorm
            &&& mono.bytes_per_row == mono.size.width
            &&& (color.size.width * 4 <= u32::MAX ==> color.bytes_per_row == 4 * color.size.width)
        },
        forall|t: TextureSize|
            resize_target == Some(t) && t.width > 0 && t.height > 0 ==> {
                let plan = #[trigger] texture_plan(image, Some(t), false, fit)->Ok_0;
                &&& texture_plan(image, Some(t), false, fit) is Ok
                &&& plan.size == t
                &&& plan.resize == Some(
                    ResizeStep { target: t, mode: if fit { ResizeMode::Fill } else { ResizeMode::Exact } },
                )
            },
        resize_target is None ==> (texture_plan(image, resize_target, false, fit) matches Ok(plan)
            && plan.resize is None && plan.size == image),
{
}

/// Decides how to load an image of size `image` as a texture: resized to
/// `resize_target` if one is given (filling it when `fit`, stretching
/// otherwise), as one luminance channel when `monochrome`, else as RGBA.
/// A resize target with a zero side is refused. The row size in bytes must
/// fit a `u32`.
pub fn plan_texture_load(
    image: TextureSize,
    resize_target: Option<TextureSize>,
    monochrome: bool,
    fit: bool,
) -> (r: Result<TexturePlan, InvalidTextureSize>)
    requires
        !monochrome ==> planned_size(image, resize_target).width * 4 <= u32::MAX,
    ensures
        r == texture_plan(image, resize_target, monochrome, fit),
        r is Err <==> (resize_target matches Some(t) && (t.width == 0 || t.height == 0)),
        r matches Ok(plan) ==> {
            &&& plan.size == planned_size(image, resize_target)
            &&& plan.resize == match resize_target {
                Some(t) => Some(
                    ResizeStep { target: t, mode: if fit { ResizeMode::Fill } else { ResizeMode::Exact } },
                ),
                None => None,
            }
            &&& plan.format == if monochrome {
                ImageTexelFormat::R8Unorm
            } else {
                ImageTexelFormat::Rgba8Unorm
            }
            &&& plan.bytes_per_row == if monochrome {
                plan.size.width as int
            } else {
                plan.size.width * 4
            }
        },
{
    let (size, resize) = match resize_target {
        Some(target) => {
            if target.width == 0 || target.height == 0 {
                return Err(InvalidTextureSize);
            }
            let mode = if fit {
                ResizeMode::Fill
            } else {
                ResizeMode::Exact
            };
            (target, Some(ResizeStep { target, mode }))
        },
        None => (image, None),
    };
    let (format, bytes_per_row) = if monochrome {
        (ImageTexelFormat::R8Unorm, size.width)
    } else {
        (ImageTexelFormat::Rgba8Unorm, size.width * 4)
    };
    Ok(TexturePlan { resize, size, format, bytes_per_row })
}

// ---------------------------------------------------------------------------
// Decoding images
// ---------------------------------------------------------------------------

#[verifier::external_type_specification]
#[verifier::external_body]
pub struct ExDynamicImage(image::DynamicImage);

#[verifier::external_type_specification]
#[verifier::external_body]
pub struct ExImageError(image::ImageError);

/// How an image in hand was made: decoded from the file bytes `bytes`, then
/// resized by `resize` if that is given.
pub struct ImageOrigin {
    pub bytes: Seq<u8>,
    pub resize: Option<ResizeStep>,
}

/// Whether `image::load_from_memory` decodes `bytes` (format guessed from
/// the bytes).
pub uninterp spec fn image_decodes(bytes: Seq<u8>) -> bool;

/// The size `GenericImageView::dimensions` reports for the image made as
/// `origin` says.
pub uninterp spec fn image_dimensions(origin: ImageOrigin) -> TextureSize;

/// The 8-bit luminance texels, row by row, that `DynamicImage::to_luma8`
/// makes of the image made as `origin` says. For a resized image they rest
/// on the Lanczos3 filter, whose weights use `f32::sin` from the platform's
/// math library: fixed on one platform, a texel may differ by one step on
/// another.
pub uninterp spec fn luma8_texels(origin: ImageOrigin) -> Seq<u8>;

/// The 8-bit RGBA texels, row by row, that `DynamicImage::to_rgba8` makes of
/// the image made as `origin` says (see `luma8_texels` on resized images).
pub uninterp spec fn rgba8_texels(origin: ImageOrigin) -> Seq<u8>;

/// A decoded image, with how it was made. Only the wrappers below make one.
struct LoadedImage {
    image: image::DynamicImage,
    origin: Ghost<ImageOrigin>,
}

/// Decodes an image file held in memory (`image::load_from_memory`).
#[verifier::external_body]
fn decode_image(bytes: &[u8]) -> (r: Result<LoadedImage, image::ImageError>)
    ensures
        r is Ok <==> image_decodes(bytes@),
        r matches Ok(img) ==> img.origin@ == (ImageOrigin { bytes: bytes@, resize: None }),
{
    image::load_from_memory(bytes).map(|image| LoadedImage { image, origin: Ghost(ImageOrigin { bytes: bytes@, resize: None }) })
}

/// The size of an image (`GenericImageView::dimensions`).
#[verifier::external_body]
fn image_size(img: &LoadedImage) -> (r: TextureSize)
    ensures
        r == image_dimensions(img.origin@),
{
    let (width, height) = image::GenericImageView::dimensions(&img.image);
    TextureSize { width, height }
}

/// Scales an image to cover `width` by `height` and crops the overflow
/// (`DynamicImage::resize_to_fill` with the Lanczos3 filter).
#[verifier::external_body]
fn fill_image(img: &LoadedImage, width: u32, height: u32) -> (r: LoadedImage)
    requires
        img.origin@.resize is None,
    ensures
        r.origin@ == (ImageOrigin {
            bytes: img.origin@.bytes,
            resize: Some(ResizeStep { target: TextureSize { width, height }, mode: ResizeMode::Fill }),
        }),
{
    let image = img.image.resize_to_fill(width, height, image::imageops::FilterType::Lanczos3);
    LoadedImage { image, origin: Ghost(ImageOrigin { bytes: img.origin@.bytes, resize: Some(ResizeStep { target: TextureSize { width, height }, mode: ResizeMode::Fill }) }) }
}

/// Scales an image to exactly `width` by `height`
/// (`DynamicImage::resize_exact` with the Lanczos3 filter).
#[verifier::external_body]
fn stretch_image(img: &LoadedImage, width: u32, height: u32) -> (r: LoadedImage)
    requires
        img.origin@.resize is None,
    ensures
        r.origin@ == (ImageOrigin {
            bytes: img.origin@.bytes,
            resize: Some(ResizeStep { target: TextureSize { width, height }, mode: ResizeMode::Exact }),
        }),
{
    let image = img.image.resize_exact(width, height, image::imageops::FilterType::Lanczos3);
    LoadedImage { image, origin: Ghost(ImageOrigin { bytes: img.origin@.bytes, resize: Some(ResizeStep { target: TextureSize { width, height }, mode: ResizeMode::Exact }) }) }
}

/// The luminance texels of an image (`DynamicImage::to_luma8`): one byte
/// per texel.
#[verifier::external_body]
fn luma8_of(img: &LoadedImage) -> (r: Vec<u8>)
    ensures
        r@ == luma8_texels(img.origin@),
        r@.len() == image_dimensions(img.origin@).width * image_dimensions(img.origin@).height,
{
    img.image.to_luma8().into_raw()
}

/// The RGBA texels of an image (`DynamicImage::to_rgba8`): four bytes per
/// texel.
#[verifier::external_body]
fn rgba8_of(img: &LoadedImage) -> (r: Vec<u8>)
    ensures
        r@ == rgba8_texels(img.origin@),
        r@.len() == 4 * image_dimensions(img.origin@).width * image_dimensions(img.origin@).height,
{
    img.image.to_rgba8().into_raw()
}

/// Why an image file could not be turned into texels.
pub enum ImageLoadError {
    /// The bytes are not an image the decoder reads.
    Decode(image::ImageError),
    /// The resize target has a zero side.
    InvalidTextureSize,
    /// A row of RGBA texels would be longer than `u32::MAX` bytes.
    RowTooLarge,
}

/// The texture plan and texels of an image file held in `bytes`: decoded,
/// then planned and resized as `plan_texture_load` decides, as one
/// luminance byte per texel when `monochrome`, else as RGBA.
pub fn image_texels(bytes: &[u8], resize_target: Option<TextureSize>, monochrome: bool, fit: bool) -> (r: Result<
    (TexturePlan, Vec<u8>),
    ImageLoadError,
>)
    ensures
        ({
            let decoded = ImageOrigin { bytes: bytes@, resize: None };
            let size = planned_size(image_dimensions(decoded), resize_target);
            match r {
                Err(ImageLoadError::Decode(_)) => !image_decodes(bytes@),
                Err(ImageLoadError::InvalidTextureSize) => image_decodes(bytes@) && texture_plan(
                    image_dimensions(decoded),
                    resize_target,
                    monochrome,
                    fit,
                ) is Err,
                Err(ImageLoadError::RowTooLarge) => image_decodes(bytes@) && texture_plan(
                    image_dimensions(decoded),
                    resize_target,
                    monochrome,
                    fit,
                ) is Ok && !monochrome && size.width * 4 > u32::MAX,
                Ok((plan, texels)) => {
                    &&& image_decodes(bytes@)
                    &&& texture_plan(image_dimensions(decoded), resize_target, monochrome, fit)
                        == Ok::<TexturePlan, InvalidTextureSize>(plan)
                    &&& (monochrome || size.width * 4 <= u32::MAX)
                    &&& texels@.len() == (if monochrome {
                        1int
                    } else {
                        4int
                    }) * image_dimensions(ImageOrigin { bytes: bytes@, resize: plan.resize }).width
                        * image_dimensions(ImageOrigin { bytes: bytes@, resize: plan.resize }).height
                    &&& texels@ == if monochrome {
                        luma8_texels(ImageOrigin { bytes: bytes@, resize: plan.resize })
                    } else {
                        rgba8_texels(ImageOrigin { bytes: bytes@, resize: plan.resize })
                    }
                },
            }
        }),
{
    let img = match decode_image(bytes) {
        Ok(img) => img,
        Err(error) => return Err(ImageLoadError::Decode(error)),
    };
    let size = image_size(&img);
    let planned_width = match resize_target {
        Some(target) => target.width,
        None => size.width,
    };
    let zero_target = match resize_target {
        Some(target) => target.width == 0 || target.height == 0,
        None => false,
    };
    if zero_target {
        return Err(ImageLoadError::InvalidTextureSize);
    }
    if !monochrome && planned_width > u32::MAX / 4 {
        return Err(ImageLoadError::RowTooLarge);
    }
    let plan = match plan_texture_load(size, resize_target, monochrome, fit) {
        Ok(plan) => plan,
        Err(_) => return Err(ImageLoadError::InvalidTextureSize),
    };
    let texels = match plan.resize {
        Some(step) => {
            let resized = match step.mode {
                ResizeMode::Fill => fill_image(&img, step.target.width, step.target.height),
                ResizeMode::Exact => stretch_image(&img, step.target.width, step.target.height),
            };
            if monochrome {
                luma8_of(&resized)
            } else {
                rgba8_of(&resized)
            }
        },
        None => {
            if monochrome {
                luma8_of(&img)
            } else {
                rgba8_of(&img)
            }
        },
    };
    Ok((plan, texels))
}

// ---------------------------------------------------------------------------
// Noise
// ---------------------------------------------------------------------------

/// One random byte from the thread-local generator (`rand::random::<u8>`).
/// Its value depends on chance; nothing is stated of it.
#[verifier::external_body]
fn random_byte() -> u8 {
    rand::random::<u8>()
}

/// RGBA texels of a `width` by `height` noise texture: every byte drawn at random.
pub fn noise_texels(width: usize, height: usize) -> (r: Vec<u8>)
    requires
        width * height * 4 <= usize::MAX,
    ensures
        r@.len() == width * height * 4,
{
    let total = width * height * 4;
    let mut data: Vec<u8> = Vec::new();
    while data.len() < total
        invariant
            data@.len() <= total,
        decreases total - data@.len(),
    {
        data.push(0u8);
    }
    let mut y: usize = 0;
    while y < height
        invariant
            data@.len() == total,
            total == width * height * 4,
            y <= height,
        decreases height - y,
    {
        let mut x: usize = 0;
        while x < width
            invariant
                data@.len() == total,
                total == width * height * 4,
                y < height,
                x <= width,
            decreases width - x,
        {
            assert((y * width + x) * 4 + 3 < width * height * 4) by (nonlinear_arith)
                requires
                    y < height,
                    x < width,
            ;
            let i = (y * width + x) * 4;
            data.set(i, random_byte());
            data.set(i + 1, random_byte());
            data.set(i + 2, random_byte());
            data.set(i + 3, random_byte());
            x += 1;
        }
        y += 1;
    }
    data
}

} // verus!
