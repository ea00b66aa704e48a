use vstd::prelude::*;
use crate::error::PipelineError;

verus! {

#[verifier::external_type_specification]
#[verifier::external_body]
pub struct ExDynamicImage(image::DynamicImage);

#[verifier::external_type_specification]
#[verifier::external_body]
pub struct ExImageError(image::ImageError);

/// Width of the box that `Transform::Resize` stretches every image to.
pub const TARGET_WIDTH: u32 = 300;

/// Height of the box that `Transform::Resize` stretches every image to.
pub const TARGET_HEIGHT: u32 = 300;

/// The per-image transform applied uniformly to a batch.
#[derive(Debug, Clone, Copy, PartialEq, Eq, Structural)]
pub enum Transform {
    /// Stretch (aspect ratio not kept) to `TARGET_WIDTH` x `TARGET_HEIGHT` with a Lanczos filter.
    Resize,
    /// Convert to luminance, keeping the image's dimensions.
    Grayscale,
}

/// Width and height of the image that `t` makes of a `width` x `height` image.
pub open spec fn output_size(t: Transform, width: u32, height: u32) -> (u32, u32) {
    match t {
        Transform::Resize => (TARGET_WIDTH, TARGET_HEIGHT),
        Transform::Grayscale => (width, height),
    }
}

/// How the samples of one pixel are laid out: channels and bits per channel.
#[derive(Debug, Clone, Copy, PartialEq, Eq, Structural)]
pub enum Layout {
    L8,
    La8,
    Rgb8,
    Rgba8,
    L16,
    La16,
    Rgb16,
    Rgba16,
    Rgb32F,
    Rgba32F,
    /// A layout this library does not name.
    Other,
}

/// Width, height and layout of an image.
#[derive(Debug, Clone, Copy, PartialEq, Eq, Structural)]
pub struct Shape {
    pub width: u32,
    pub height: u32,
    pub layout: Layout,
}

/// Largest pixel buffer, in bytes, for which a PNG written here is promised to decode
/// back under the decoder's default limits.
pub const ROUND_TRIP_LIMIT: u64 = 0x0800_0000;

/// The layouts that PNG stores as they are: 8 or 16 bits per channel.
pub open spec fn png_layout(l: Layout) -> bool {
    match l {
        Layout::L8 | Layout::La8 | Layout::Rgb8 | Layout::Rgba8 => true,
        Layout::L16 | Layout::La16 | Layout::Rgb16 | Layout::Rgba16 => true,
        _ => false,
    }
}

/// Bytes per pixel of a layout.
pub open spec fn pixel_size(l: Layout) -> nat {
    match l {
        Layout::L8 => 1,
        Layout::La8 => 2,
        Layout::Rgb8 => 3,
        Layout::Rgba8 => 4,
        Layout::L16 => 2,
        Layout::La16 => 4,
        Layout::Rgb16 => 6,
        Layout::Rgba16 => 8,
        Layout::Rgb32F => 12,
        Layout::Rgba32F => 16,
        Layout::Other => 16,
    }
}

/// Size in bytes of the pixel buffer of an image of shape `s`.
pub open spec fn buffer_size(s: Shape) -> nat {
    (s.width as nat) * (s.height as nat) * pixel_size(s.layout)
}

/// A shape that the PNG encoder accepts: not empty, and a layout PNG stores.
pub open spec fn encodable(s: Shape) -> bool {
    s.width > 0 && s.height > 0 && png_layout(s.layout)
}

/// The layout that converting to luminance gives: colour channels fold into one,
/// alpha and bit depth stay.
pub open spec fn gray_layout(l: Layout) -> Layout {
    match l {
        Layout::Rgb8 => Layout::L8,
        Layout::Rgba8 => Layout::La8,
        Layout::Rgb16 => Layout::L16,
        Layout::Rgba16 => Layout::La16,
        _ => l,
    }
}

/// Shape of the image that `t` makes of an image of shape `s`.
pub open spec fn output_shape(t: Transform, s: Shape) -> Shape {
    match t {
        Transform::Resize => Shape { width: TARGET_WIDTH, height: TARGET_HEIGHT, layout: s.layout },
        Transform::Grayscale => Shape {
            width: s.width,
            height: s.height,
            layout: gray_layout(s.layout),
        },
    }
}

/// A decoded raster image together with its shape.
pub struct Picture {
    pixels: image::DynamicImage,
    shape: Shape,
}

impl Picture {
    /// Shape of the picture, in specifications.
    pub closed spec fn spec_shape(&self) -> Shape {
        self.shape
    }

    /// Width in pixels, in specifications.
    pub open spec fn spec_width(&self) -> u32 {
        self.spec_shape().width
    }

    /// Height in pixels, in specifications.
    pub open spec fn spec_height(&self) -> u32 {
        self.spec_shape().height
    }

    /// Shape of the picture.
    pub fn shape(&self) -> (r: Shape)
        ensures
            r == self.spec_shape(),
    {
        self.shape
    }

    /// Width in pixels.
    pub fn width(&self) -> (r: u32)
        ensures
            r == self.spec_width(),
    {
        self.shape.width
    }

    /// Height in pixels.
    pub fn height(&self) -> (r: u32)
        ensures
            r == self.spec_height(),
    {
        self.shape.height
    }
}

/// Shape of the image that the decoder makes of `bytes`, or `None` where it does not
/// recognise them as a well-formed image.
pub uninterp spec fn decoded(bytes: Seq<u8>) -> Option<Shape>;

/// Whether the image decoder recognises `bytes` as a well-formed image.
pub open spec fn decodable(bytes: Seq<u8>) -> bool {
    decoded(bytes) is Some
}

/// Relies on `image::DynamicImage::color`: the layout of each `ColorType`, one arm each.
#[verifier::external_body]
fn layout_of(img: &image::DynamicImage) -> (r: Layout) {
    match img.color() {
        image::ColorType::L8 => Layout::L8,
        image::ColorType::La8 => Layout::La8,
        image::ColorType::Rgb8 => Layout::Rgb8,
        image::ColorType::Rgba8 => Layout::Rgba8,
        image::ColorType::L16 => Layout::L16,
        image::ColorType::La16 => Layout::La16,
        image::ColorType::Rgb16 => Layout::Rgb16,
        image::ColorType::Rgba16 => Layout::Rgba16,
        image::ColorType::Rgb32F => Layout::Rgb32F,
        image::ColorType::Rgba32F => Layout::Rgba32F,
        _ => Layout::Other,
    }
}

/// Relies on `image::load_from_memory` with only the PNG codec built in and no decoding
/// hook registered: the result depends on the bytes alone; the PNG decoder refuses a zero
/// width or height and yields only 8- or 16-bit layouts.
#[verifier::external_body]
fn load_picture(bytes: &[u8]) -> (r: Result<Picture, image::ImageError>)
    ensures
        r is Ok <==> decoded(bytes@) is Some,
        r is Ok ==> r->Ok_0.spec_shape() == decoded(bytes@)->Some_0,
        r is Ok ==> encodable(r->Ok_0.spec_shape()),
{
    let img = image::load_from_memory(bytes)?;
    let shape = Shape { width: img.width(), height: img.height(), layout: layout_of(&img) };
    Ok(Picture { pixels: img, shape })
}

/// Relies on `image::DynamicImage::resize_exact` with `FilterType::Lanczos3`: the new
/// image has exactly the requested width and height (the aspect ratio is not kept) and
/// the same layout.
#[verifier::external_body]
fn resize_exact_lanczos3(p: &Picture, width: u32, height: u32) -> (r: Picture)
    ensures
        r.spec_shape() == (Shape { width, height, layout: p.spec_shape().layout }),
{
    let img = p.pixels.resize_exact(width, height, image::imageops::FilterType::Lanczos3);
    let shape = Shape { width: img.width(), height: img.height(), layout: layout_of(&img) };
    Picture { pixels: img, shape }
}

/// Relies on `image::DynamicImage::grayscale`: a luminance version of the same image,
/// with its dimensions unchanged and the layout `gray_layout` gives.
#[verifier::external_body]
fn grayscale(p: &Picture) -> (r: Picture)
    ensures
        r.spec_shape() == (Shape {
            width: p.spec_width(),
            height: p.spec_height(),
            layout: gray_layout(p.spec_shape().layout),
        }),
{
    let img = p.pixels.grayscale();
    let shape = Shape { width: img.width(), height: img.height(), layout: layout_of(&img) };
    Picture { pixels: img, shape }
}

/// Relies on `image::DynamicImage::write_to` with `ImageFormat::Png` into an in-memory
/// buffer: the PNG encoder takes every non-empty 8- or 16-bit image, and the PNG it
/// writes decodes back to the same shape.
#[verifier::external_body]
fn write_png(p: &Picture) -> (r: Result<Vec<u8>, image::ImageError>)
    ensures
        encodable(p.spec_shape()) ==> r is Ok,
        r is Ok && buffer_size(p.spec_shape()) <= ROUND_TRIP_LIMIT ==> decoded(r->Ok_0@) == Some(
            p.spec_shape(),
        ),
{
    let mut buffer: Vec<u8> = Vec::new();
    p.pixels.write_to(&mut std::io::Cursor::new(&mut buffer), image::ImageFormat::Png)?;
    Ok(buffer)
}

/// Decodes `bytes` as an image; `DecodeFailure` exactly when they are not one.
pub fn decode(bytes: &[u8]) -> (r: Result<Picture, PipelineError>)
    ensures
        r is Ok <==> decodable(bytes@),
        r is Ok ==> r->Ok_0.spec_shape() == decoded(bytes@)->Some_0,
        r is Ok ==> encodable(r->Ok_0.spec_shape()),
        r is Err ==> r == Err::<Picture, PipelineError>(PipelineError::DecodeFailure),
{
    match load_picture(bytes) {
        Ok(p) => Ok(p),
        Err(_) => Err(PipelineError::DecodeFailure),
    }
}

/// Applies `t` to `p`; the result has the shape given by `output_shape`.
pub fn apply_transform(p: &Picture, t: Transform) -> (r: Picture)
    ensures
        r.spec_shape() == output_shape(t, p.spec_shape()),
        (r.spec_width(), r.spec_height()) == output_size(t, p.spec_width(), p.spec_height()),
{
    match t {
        Transform::Resize => resize_exact_lanczos3(p, TARGET_WIDTH, TARGET_HEIGHT),
        Transform::Grayscale => grayscale(p),
    }
}

/// Encodes `p` as PNG. Succeeds on every non-empty 8- or 16-bit picture, and the PNG
/// decodes back to the picture's shape; `EncodeFailure` where the encoder refuses.
pub fn encode(p: &Picture) -> (r: Result<Vec<u8>, PipelineError>)
    ensures
        encodable(p.spec_shape()) ==> r is Ok,
        r is Ok && buffer_size(p.spec_shape()) <= ROUND_TRIP_LIMIT ==> decoded(r->Ok_0@) == Some(
            p.spec_shape(),
        ),
        r is Err ==> r == Err::<Vec<u8>, PipelineError>(PipelineError::EncodeFailure),
{
    match write_png(p) {
        Ok(bytes) => Ok(bytes),
        Err(_) => Err(PipelineError::EncodeFailure),
    }
}

/// What `transform_item` promises of its outcome `r` on an item `(name, bytes)`:
/// undecodable bytes fail with `DecodeFailure`; decodable ones succeed under the same
/// name, with a PNG that decodes to the shape `t` makes of the input's.
pub open spec fn transformed(
    name: Seq<char>,
    bytes: Seq<u8>,
    t: Transform,
    r: Result<(String, Vec<u8>), PipelineError>,
) -> bool {
    &&& !decodable(bytes) ==> r == Err::<(String, Vec<u8>), PipelineError>(
        PipelineError::DecodeFailure,
    )
    &&& decodable(bytes) ==> r is Ok
    &&& r is Ok ==> r->Ok_0.0@ == name
    &&& r is Ok && buffer_size(output_shape(t, decoded(bytes)->Some_0)) <= ROUND_TRIP_LIMIT
        ==> decoded(r->Ok_0.1@) == Some(output_shape(t, decoded(bytes)->Some_0))
}

/// Decodes one named item, applies `t` and re-encodes it as PNG under the same name.
pub fn transform_item(name: String, bytes: Vec<u8>, t: Transform) -> (r: Result<
    (String, Vec<u8>),
    PipelineError,
>)
    ensures
        transformed(name@, bytes@, t, r),
{
    let picture = match decode(bytes.as_slice()) {
        Ok(p) => p,
        Err(e) => return Err(e),
    };
    let changed = apply_transform(&picture, t);
    assert(encodable(changed.spec_shape()));
    match encode(&changed) {
        Ok(out) => Ok((name, out)),
        Err(e) => Err(e),
    }
}

} // verus!
