//! The calls into the `image` crate that decoding a background or overlay
//! image makes: decoding a still to RGBA, resizing an RGBA buffer, and
//! walking the frames of a GIF or WebP animation. Each item here states only
//! what the crate's source shows, over names for its results; nothing below
//! is proved.
use vstd::prelude::*;

use image::{AnimationDecoder, DynamicImage, ImageBuffer, Rgba};
use image::codecs::gif::GifDecoder;
use image::codecs::webp::WebPDecoder;
use image::imageops::FilterType;
use std::io::Cursor;

verus! {

/// A decoded image: `width × height` pixels, four bytes (R, G, B, A) each,
/// row by row.
#[derive(Clone, Debug)]
pub struct RgbaImage {
    pub width: u32,
    pub height: u32,
    pub pixels: Vec<u8>,
}

/// An image as the contracts see it: width, height and pixel bytes.
pub type RgbaView = (u32, u32, Seq<u8>);

impl View for RgbaImage {
    type V = RgbaView;

    open spec fn view(&self) -> RgbaView {
        (self.width, self.height, self.pixels@)
    }
}

/// One frame of an animation: its pixels, and how long it is shown, as the
/// fraction `delay_numer_ms / delay_denom_ms` of a millisecond count.
#[derive(Clone, Debug)]
pub struct AnimFrame {
    pub image: RgbaImage,
    pub delay_numer_ms: u32,
    pub delay_denom_ms: u32,
}

/// A frame as the contracts see it.
pub type FrameView = (RgbaView, u32, u32);

impl View for AnimFrame {
    type V = FrameView;

    open spec fn view(&self) -> FrameView {
        (self.image@, self.delay_numer_ms, self.delay_denom_ms)
    }
}

/// `image::load_from_memory` of `bytes`, converted to RGBA: the image, or
/// the decoding error's message.
pub uninterp spec fn spec_decode_rgba(bytes: Seq<u8>) -> Result<RgbaView, Seq<char>>;

/// `image::load_from_memory` of `bytes`, then `DynamicImage::resize` with the
/// Lanczos3 filter to fit within `max_dim × max_dim` (aspect ratio kept),
/// converted to RGBA.
pub uninterp spec fn spec_decode_resized(bytes: Seq<u8>, max_dim: u32) -> RgbaView;

/// `DynamicImage::resize` with the Lanczos3 filter of a `width × height` RGBA
/// image to fit within `max_dim × max_dim`, aspect ratio kept.
pub uninterp spec fn spec_resize_rgba(width: u32, height: u32, pixels: Seq<u8>, max_dim: u32) -> RgbaView;

/// The error message of `GifDecoder::new` on `bytes`, or `None` when it
/// reads the header.
pub uninterp spec fn spec_gif_open(bytes: Seq<u8>) -> Option<Seq<char>>;

/// What the `index`-th call of `next` on the frames of the GIF `bytes`
/// gives: no more frames, a frame, or the decoding error's message.
pub uninterp spec fn spec_gif_frame(bytes: Seq<u8>, index: nat) -> Option<Result<FrameView, Seq<char>>>;

/// `WebPDecoder::new` on `bytes`: whether the image is animated (its
/// `has_animation`), or the error's message.
pub uninterp spec fn spec_webp_open(bytes: Seq<u8>) -> Result<bool, Seq<char>>;

/// What the `index`-th call of `next` on the frames of the animated WebP
/// `bytes` gives: no more frames, a frame, or the decoding error's message.
pub uninterp spec fn spec_webp_frame(bytes: Seq<u8>, index: nat) -> Option<Result<FrameView, Seq<char>>>;

/// The frame iterator type of `image`.
#[verifier::external_type_specification]
#[verifier::external_body]
pub struct ExFrames<'a>(image::Frames<'a>);

/// The animation frame type of `image`.
#[verifier::external_type_specification]
#[verifier::external_body]
pub struct ExFrame(image::Frame);

/// The error type of `image`.
#[verifier::external_type_specification]
#[verifier::external_body]
pub struct ExImageError(image::ImageError);

/// The in-memory reader of std, which the decoders read from.
#[verifier::external_type_specification]
#[verifier::external_body]
#[verifier::reject_recursive_types(T)]
pub struct ExCursor<T>(Cursor<T>);

/// The decoded image type of `image`.
#[verifier::external_type_specification]
#[verifier::external_body]
pub struct ExDynamicImage(DynamicImage);

/// The WebP decoder type of `image`.
#[verifier::external_type_specification]
#[verifier::external_body]
#[verifier::reject_recursive_types(R)]
pub struct ExWebPDecoder<R>(WebPDecoder<R>);

/// The frames of an animation still to be read, with the encoded bytes they
/// come from and how many have been read.
pub struct FrameSource {
    frames: image::Frames<'static>,
    bytes: Ghost<Seq<u8>>,
    webp: Ghost<bool>,
    taken: Ghost<nat>,
}

impl FrameSource {
    /// The encoded bytes the frames come from.
    pub closed spec fn spec_bytes(&self) -> Seq<u8> {
        self.bytes@
    }

    /// Whether the bytes are a WebP file (else a GIF).
    pub closed spec fn spec_webp(&self) -> bool {
        self.webp@
    }

    /// How many frames have been read.
    pub closed spec fn spec_taken(&self) -> nat {
        self.taken@
    }
}

/// An opened WebP file, with whether it is animated.
pub struct WebpFile {
    decoder: WebPDecoder<Cursor<Vec<u8>>>,
    animated: bool,
    bytes: Ghost<Seq<u8>>,
}

impl WebpFile {
    /// The encoded bytes of the file.
    pub closed spec fn spec_bytes(&self) -> Seq<u8> {
        self.bytes@
    }

    /// Whether the file holds an animation.
    pub closed spec fn spec_animated(&self) -> bool {
        self.animated
    }

    /// Whether the file holds an animation.
    pub fn is_animated(&self) -> (b: bool)
        ensures
            b == self.spec_animated(),
    {
        self.animated
    }
}

/// A decoded still, in the colour format of its file.
pub struct DecodedImage {
    image: DynamicImage,
    width: u32,
    height: u32,
    bytes: Ghost<Seq<u8>>,
}

impl DecodedImage {
    /// The encoded bytes it was decoded from.
    pub closed spec fn spec_bytes(&self) -> Seq<u8> {
        self.bytes@
    }

    /// Its width in pixels.
    pub closed spec fn spec_width(&self) -> u32 {
        self.width
    }

    /// Its height in pixels.
    pub closed spec fn spec_height(&self) -> u32 {
        self.height
    }

    /// Its width in pixels.
    pub fn width(&self) -> (w: u32)
        ensures
            w == self.spec_width(),
    {
        self.width
    }

    /// Its height in pixels.
    pub fn height(&self) -> (h: u32)
        ensures
            h == self.spec_height(),
    {
        self.height
    }
}

/// What the frames of a source give at `index`.
pub open spec fn spec_frame_at(webp: bool, bytes: Seq<u8>, index: nat) -> Option<Result<FrameView, Seq<char>>> {
    if webp {
        spec_webp_frame(bytes, index)
    } else {
        spec_gif_frame(bytes, index)
    }
}

/// What a call of `next` on frames gave, as the contracts see it.
pub open spec fn next_frame_view(r: Option<Result<AnimFrame, String>>) -> Option<Result<FrameView, Seq<char>>> {
    match r {
        None => None,
        Some(Ok(f)) => Some(Ok(f@)),
        Some(Err(m)) => Some(Err(m@)),
    }
}

/// `image::load_from_memory`: the decoded image with its width and height,
/// or the error's message. Converted to RGBA, it is the image that
/// [`spec_decode_rgba`] names; a function of the bytes.
#[verifier::external_body]
pub(crate) fn load_image(bytes: &[u8]) -> (r: Result<DecodedImage, String>)
    ensures
        r matches Ok(d) ==> spec_decode_rgba(bytes@) is Ok && d.spec_width() == spec_decode_rgba(
            bytes@,
        )->Ok_0.0 && d.spec_height() == spec_decode_rgba(bytes@)->Ok_0.1 && d.spec_bytes() == bytes@,
        r matches Err(m) ==> spec_decode_rgba(bytes@) is Err && spec_decode_rgba(bytes@)->Err_0 == m@,
{
    match image::load_from_memory(bytes) {
        Ok(image) => {
            let (width, height) = (image.width(), image.height());
            Ok(DecodedImage { image, width, height, bytes: Ghost(bytes@) })
        },
        Err(e) => Err(e.to_string()),
    }
}

/// `DynamicImage::to_rgba8`: the image in RGBA, four bytes per pixel.
#[verifier::external_body]
pub(crate) fn image_to_rgba(d: DecodedImage) -> (r: RgbaImage)
    requires
        spec_decode_rgba(d.spec_bytes()) is Ok,
    ensures
        r@ == spec_decode_rgba(d.spec_bytes())->Ok_0,
        r.pixels@.len() == r.width * r.height * 4,
{
    let buf = d.image.to_rgba8();
    RgbaImage { width: buf.width(), height: buf.height(), pixels: buf.into_raw() }
}

/// `DynamicImage::resize` with the Lanczos3 filter to fit within
/// `max_dim × max_dim`, aspect ratio kept, then `to_rgba8`. The source
/// (`resize_dimensions`) makes each side at least 1 and, for a limit of at
/// least 1, at most the limit.
#[verifier::external_body]
pub(crate) fn image_resized_rgba(d: DecodedImage, max_dim: u32) -> (r: RgbaImage)
    requires
        d.spec_width() > 0,
        d.spec_height() > 0,
        max_dim > 0,
    ensures
        r@ == spec_decode_resized(d.spec_bytes(), max_dim),
        1 <= r.width <= max_dim,
        1 <= r.height <= max_dim,
        r.pixels@.len() == r.width * r.height * 4,
{
    let buf = d.image.resize(max_dim, max_dim, FilterType::Lanczos3).to_rgba8();
    RgbaImage { width: buf.width(), height: buf.height(), pixels: buf.into_raw() }
}

/// `ImageBuffer::from_raw` of the pixels, then `DynamicImage::resize` with
/// the Lanczos3 filter to fit within `max_dim × max_dim`, then `to_rgba8`.
/// `from_raw` refuses a buffer shorter than `width × height × 4` bytes, and
/// then the result is `None`. The source (`resize_dimensions`) makes each
/// side at least 1 and, for a limit of at least 1, at most the limit.
#[verifier::external_body]
pub(crate) fn resize_rgba(width: u32, height: u32, pixels: &[u8], max_dim: u32) -> (r: Option<RgbaImage>)
    requires
        width > 0,
        height > 0,
        max_dim > 0,
    ensures
        r is Some <==> width * height * 4 <= pixels@.len(),
        r matches Some(img) ==> img@ == spec_resize_rgba(width, height, pixels@, max_dim),
        r matches Some(img) ==> 1 <= img.width <= max_dim && 1 <= img.height <= max_dim
            && img.pixels@.len() == img.width * img.height * 4,
{
    match ImageBuffer::<Rgba<u8>, Vec<u8>>::from_raw(width, height, pixels.to_vec()) {
        Some(buf) => {
            let out = DynamicImage::ImageRgba8(buf).resize(max_dim, max_dim, FilterType::Lanczos3).to_rgba8();
            Some(RgbaImage { width: out.width(), height: out.height(), pixels: out.into_raw() })
        },
        None => None,
    }
}

/// `GifDecoder::new` on the bytes followed by `into_frames`: the frames to
/// read, or the error's message.
#[verifier::external_body]
pub(crate) fn gif_frames(bytes: &[u8]) -> (r: Result<FrameSource, String>)
    ensures
        r matches Ok(s) ==> spec_gif_open(bytes@) is None && s.spec_bytes() == bytes@ && !s.spec_webp()
            && s.spec_taken() == 0,
        r matches Err(m) ==> spec_gif_open(bytes@) == Some(m@),
{
    match GifDecoder::new(Cursor::new(bytes.to_vec())) {
        Ok(d) => Ok(
            FrameSource { frames: d.into_frames(), bytes: Ghost(bytes@), webp: Ghost(false), taken: Ghost(0) },
        ),
        Err(e) => Err(e.to_string()),
    }
}

/// `WebPDecoder::new` on the bytes, with its `has_animation`: the opened
/// file, or the error's message.
#[verifier::external_body]
pub(crate) fn webp_open(bytes: &[u8]) -> (r: Result<WebpFile, String>)
    ensures
        r matches Ok(w) ==> spec_webp_open(bytes@) is Ok && spec_webp_open(bytes@)->Ok_0
            == w.spec_animated() && w.spec_bytes() == bytes@,
        r matches Err(m) ==> spec_webp_open(bytes@) is Err && spec_webp_open(bytes@)->Err_0 == m@,
{
    match WebPDecoder::new(Cursor::new(bytes.to_vec())) {
        Ok(d) => {
            let animated = d.has_animation();
            Ok(WebpFile { decoder: d, animated, bytes: Ghost(bytes@) })
        },
        Err(e) => Err(e.to_string()),
    }
}

/// `into_frames` of an opened WebP file: its frames to read.
#[verifier::external_body]
pub(crate) fn webp_frames(file: WebpFile) -> (s: FrameSource)
    ensures
        s.spec_bytes() == file.spec_bytes(),
        s.spec_webp(),
        s.spec_taken() == 0,
{
    let bytes = file.bytes;
    FrameSource { frames: file.decoder.into_frames(), bytes, webp: Ghost(true), taken: Ghost(0) }
}

/// `next` on the frames, the frame converted by `delay().numer_denom_ms()`
/// and `into_buffer()`: the next frame, its decoding error's message, or
/// `None` at the end.
#[verifier::external_body]
pub(crate) fn next_frame(src: &mut FrameSource) -> (r: Option<Result<AnimFrame, String>>)
    ensures
        final(src).spec_bytes() == old(src).spec_bytes(),
        final(src).spec_webp() == old(src).spec_webp(),
        final(src).spec_taken() == old(src).spec_taken() + 1,
        !old(src).spec_webp() ==> spec_gif_frame(old(src).spec_bytes(), old(src).spec_taken())
            == next_frame_view(r),
        old(src).spec_webp() ==> spec_webp_frame(old(src).spec_bytes(), old(src).spec_taken())
            == next_frame_view(r),
{
    let r = match src.frames.next() {
        None => None,
        Some(Ok(frame)) => {
            let (delay_numer_ms, delay_denom_ms) = frame.delay().numer_denom_ms();
            let buf = frame.into_buffer();
            let image = RgbaImage { width: buf.width(), height: buf.height(), pixels: buf.into_raw() };
            Some(Ok(AnimFrame { image, delay_numer_ms, delay_denom_ms }))
        },
        Some(Err(e)) => Some(Err(e.to_string())),
    };
    src.taken = Ghost(src.taken@ + 1);
    r
}

} // verus!
