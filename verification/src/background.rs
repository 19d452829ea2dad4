//! Decisions behind the user-supplied background image: recognising the
//! container format, budgeting the frames of an animation, and remembering
//! which path is loaded or known to be broken.
//!
//! Decoding and uploading the pixels happen outside this library; it is told
//! what each step produced and decides what happens next.
use vstd::prelude::*;

use crate::image_codec::{
    gif_frames, image_resized_rgba, image_to_rgba, load_image, next_frame, next_frame_view, resize_rgba,
    spec_decode_resized, spec_decode_rgba, spec_frame_at,
    spec_gif_open, spec_resize_rgba, spec_webp_open, webp_frames, webp_open, AnimFrame, FrameSource,
    FrameView, RgbaImage, RgbaView,
};
use crate::text::{opt_string_text, opt_text, str_eq};

verus! {

/// Total decoded RGBA budget for one animation (160 MiB).
pub const FRAME_BUDGET_BYTES: usize = 160 * 1024 * 1024;

/// Hard ceiling on the number of frames kept, regardless of size.
pub const MAX_FRAMES: usize = 300;

/// How an encoded image must be decoded.
#[derive(Clone, Copy, Debug, PartialEq, Eq, Structural)]
pub enum ImageKind {
    /// A GIF, possibly animated.
    Gif,
    /// A WebP container, which may hold a still or an animation.
    WebP,
    /// Anything else, decoded as a single still.
    Still,
}

/// `bytes` starts with the ASCII text `GIF87a` or `GIF89a`.
pub open spec fn spec_is_gif(bytes: Seq<u8>) -> bool {
    &&& bytes.len() >= 6
    &&& bytes[0] == 71 && bytes[1] == 73 && bytes[2] == 70 && bytes[3] == 56
    &&& (bytes[4] == 55 || bytes[4] == 57)
    &&& bytes[5] == 97
}

/// `bytes` is a RIFF container of type WebP: `RIFF` at offset 0, `WEBP` at
/// offset 8.
pub open spec fn spec_is_webp(bytes: Seq<u8>) -> bool {
    &&& bytes.len() >= 12
    &&& bytes[0] == 82 && bytes[1] == 73 && bytes[2] == 70 && bytes[3] == 70
    &&& bytes[8] == 87 && bytes[9] == 69 && bytes[10] == 66 && bytes[11] == 80
}

/// Whether `bytes` starts with a GIF signature (`GIF87a` or `GIF89a`).
pub fn is_gif(bytes: &[u8]) -> (r: bool)
    ensures
        r == spec_is_gif(bytes@),
{
    bytes.len() >= 6 && bytes[0] == 71 && bytes[1] == 73 && bytes[2] == 70 && bytes[3] == 56 && (
    bytes[4] == 55 || bytes[4] == 57) && bytes[5] == 97
}

/// Whether `bytes` is a WebP file: `RIFF` at offset 0, `WEBP` at offset 8.
pub fn is_webp(bytes: &[u8]) -> (r: bool)
    ensures
        r == spec_is_webp(bytes@),
{
    bytes.len() >= 12 && bytes[0] == 82 && bytes[1] == 73 && bytes[2] == 70 && bytes[3] == 70
        && bytes[8] == 87 && bytes[9] == 69 && bytes[10] == 66 && bytes[11] == 80
}

/// Sniff the magic bytes rather than trusting a file extension: a renamed
/// GIF should still animate.
pub fn image_kind(bytes: &[u8]) -> (k: ImageKind)
    ensures
        k == (if spec_is_gif(bytes@) {
            ImageKind::Gif
        } else if spec_is_webp(bytes@) {
            ImageKind::WebP
        } else {
            ImageKind::Still
        }),
{
    if is_gif(bytes) {
        ImageKind::Gif
    } else if is_webp(bytes) {
        ImageKind::WebP
    } else {
        ImageKind::Still
    }
}

/// Running tally of the frames kept from an animation.
///
/// A decoded frame must be uploaded decompressed, so an animation is only
/// collected while it fits in [`FRAME_BUDGET_BYTES`] and [`MAX_FRAMES`];
/// past that it is truncated and loops early. The first frame is always
/// kept, whatever its size.
pub struct FrameBudget {
    used_bytes: usize,
    frames: usize,
    truncated: bool,
}

impl FrameBudget {
    /// Nothing is counted before the first frame is kept.
    #[verifier::type_invariant]
    spec fn well_formed(&self) -> bool {
        &&& self.frames == 0 ==> self.used_bytes == 0
        &&& self.frames <= MAX_FRAMES
        &&& self.frames >= 2 ==> self.used_bytes <= FRAME_BUDGET_BYTES
    }

    /// Decoded bytes of the frames kept so far.
    pub closed spec fn spec_used_bytes(&self) -> nat {
        self.used_bytes as nat
    }

    /// Number of frames kept so far.
    pub closed spec fn spec_frames(&self) -> nat {
        self.frames as nat
    }

    /// Whether the animation has been cut short.
    pub closed spec fn spec_truncated(&self) -> bool {
        self.truncated
    }

    /// Nothing kept yet.
    pub fn new() -> (b: FrameBudget)
        ensures
            b.spec_used_bytes() == 0,
            b.spec_frames() == 0,
            !b.spec_truncated(),
    {
        FrameBudget { used_bytes: 0, frames: 0, truncated: false }
    }

    /// Decide whether the next frame, costing `cost` decoded bytes, is kept.
    /// Refusing a frame marks the animation truncated; the caller then stops
    /// collecting.
    pub fn accept_frame(&mut self, cost: usize) -> (keep: bool)
        ensures
            keep == (old(self).spec_frames() < MAX_FRAMES && (old(self).spec_frames() == 0
                || old(self).spec_used_bytes() + cost <= FRAME_BUDGET_BYTES)),
            keep ==> final(self).spec_used_bytes() == old(self).spec_used_bytes() + cost
                && final(self).spec_frames() == old(self).spec_frames() + 1
                && final(self).spec_truncated() == old(self).spec_truncated(),
            !keep ==> final(self).spec_used_bytes() == old(self).spec_used_bytes()
                && final(self).spec_frames() == old(self).spec_frames()
                && final(self).spec_truncated(),
            final(self).spec_frames() <= MAX_FRAMES,
            final(self).spec_frames() >= 2 ==> final(self).spec_used_bytes() <= FRAME_BUDGET_BYTES,
    {
        proof {
            use_type_invariant(&*self);
        }
        if self.frames >= MAX_FRAMES {
            self.truncated = true;
            return false;
        }
        let within = match self.used_bytes.checked_add(cost) {
            Some(total) => total <= FRAME_BUDGET_BYTES,
            None => false,
        };
        if !within && self.frames > 0 {
            self.truncated = true;
            return false;
        }
        *self = FrameBudget {
            used_bytes: self.used_bytes + cost,
            frames: self.frames + 1,
            truncated: self.truncated,
        };
        true
    }

    /// Number of frames kept.
    pub fn frames(&self) -> (n: usize)
        ensures
            n == self.spec_frames(),
    {
        self.frames
    }

    /// Decoded bytes of the frames kept.
    pub fn used_bytes(&self) -> (n: usize)
        ensures
            n == self.spec_used_bytes(),
    {
        self.used_bytes
    }

    /// Whether the animation was cut short.
    pub fn was_truncated(&self) -> (t: bool)
        ensures
            t == self.spec_truncated(),
    {
        self.truncated
    }
}

/// What to do to bring the loaded background in line with the configured
/// path.
#[derive(Clone, Copy, Debug, PartialEq, Eq, Structural)]
pub enum SyncPlan {
    /// Nothing to change.
    Keep,
    /// Forget the loaded image (or the remembered failure).
    Clear,
    /// Decode the configured path.
    Load,
}

/// Which background image is loaded, and which path is known to be broken.
///
/// A path that failed to load is remembered so a broken or deleted file is
/// not retried (and logged) on every frame.
pub struct BackgroundSource {
    loaded_from: Option<String>,
    failed: Option<String>,
    truncated: bool,
    frame_count: usize,
}

impl BackgroundSource {
    /// The path whose image is loaded.
    pub closed spec fn spec_loaded_from(&self) -> Option<Seq<char>> {
        opt_string_text(self.loaded_from)
    }

    /// The path that was tried and could not be decoded.
    pub closed spec fn spec_failed(&self) -> Option<Seq<char>> {
        opt_string_text(self.failed)
    }

    /// Whether the loaded animation was cut short by the memory budget.
    pub closed spec fn spec_truncated(&self) -> bool {
        self.truncated
    }

    /// Number of frames loaded.
    pub closed spec fn spec_frame_count(&self) -> nat {
        self.frame_count as nat
    }

    /// Nothing loaded, nothing failed.
    pub open spec fn is_clear(&self) -> bool {
        &&& self.spec_loaded_from() is None
        &&& self.spec_failed() is None
        &&& !self.spec_truncated()
        &&& self.spec_frame_count() == 0
    }

    pub fn new() -> (s: BackgroundSource)
        ensures
            s.is_clear(),
    {
        BackgroundSource { loaded_from: None, failed: None, truncated: false, frame_count: 0 }
    }

    /// What [`plan`](Self::plan) decides for the configured `path`.
    pub open spec fn spec_plan(&self, path: Option<Seq<char>>) -> SyncPlan {
        match path {
            None => if self.spec_loaded_from() is Some || self.spec_failed() is Some {
                SyncPlan::Clear
            } else {
                SyncPlan::Keep
            },
            Some(p) => if self.spec_loaded_from() == Some(p) || self.spec_failed() == Some(p) {
                SyncPlan::Keep
            } else {
                SyncPlan::Load
            },
        }
    }

    /// Decide how to bring the loaded image in line with the configured path:
    /// no path clears whatever is loaded or remembered; a new path is loaded;
    /// the loaded path, or one already known to be broken, is kept as is.
    pub fn plan(&self, path: Option<&str>) -> (p: SyncPlan)
        ensures
            p == self.spec_plan(opt_text(path)),
    {
        match path {
            None => if self.loaded_from.is_some() || self.failed.is_some() {
                SyncPlan::Clear
            } else {
                SyncPlan::Keep
            },
            Some(p) => {
                let already_loaded = match &self.loaded_from {
                    Some(l) => str_eq(l.as_str(), p),
                    None => false,
                };
                let known_bad = match &self.failed {
                    Some(f) => str_eq(f.as_str(), p),
                    None => false,
                };
                if already_loaded || known_bad {
                    SyncPlan::Keep
                } else {
                    SyncPlan::Load
                }
            },
        }
    }

    /// Forget the loaded image and any remembered failure.
    pub fn clear(&mut self)
        ensures
            final(self).is_clear(),
    {
        self.loaded_from = None;
        self.failed = None;
        self.truncated = false;
        self.frame_count = 0;
    }

    /// Record that `path` decoded into `frame_count` frames.
    pub fn record_loaded(&mut self, path: String, frame_count: usize, truncated: bool)
        ensures
            final(self).spec_loaded_from() == Some(path@),
            final(self).spec_failed() is None,
            final(self).spec_truncated() == truncated,
            final(self).spec_frame_count() == frame_count,
    {
        self.loaded_from = Some(path);
        self.failed = None;
        self.truncated = truncated;
        self.frame_count = frame_count;
    }

    /// Record that `path` could not be decoded: nothing is loaded and the
    /// path is not tried again until it changes.
    pub fn record_failed(&mut self, path: String)
        ensures
            final(self).spec_loaded_from() is None,
            final(self).spec_failed() == Some(path@),
            !final(self).spec_truncated(),
            final(self).spec_frame_count() == 0,
    {
        self.loaded_from = None;
        self.failed = Some(path);
        self.truncated = false;
        self.frame_count = 0;
    }

    pub fn frame_count(&self) -> (n: usize)
        ensures
            n == self.spec_frame_count(),
    {
        self.frame_count
    }

    pub fn was_truncated(&self) -> (t: bool)
        ensures
            t == self.spec_truncated(),
    {
        self.truncated
    }

    /// True when the configured path was tried and could not be decoded, so
    /// the settings panel can say so instead of silently showing nothing.
    pub fn is_broken(&self, path: Option<&str>) -> (b: bool)
        ensures
            b == (path is Some && self.spec_failed() == opt_text(path)),
    {
        match (path, &self.failed) {
            (Some(p), Some(f)) => str_eq(p, f.as_str()),
            _ => false,
        }
    }
}

/// Largest side, in pixels, of a still as uploaded; bigger images are scaled
/// down first, since some GPUs refuse textures beyond this.
pub const MAX_DIM: u32 = 3840;

/// Largest side, in pixels, of an animation frame as uploaded: lower than
/// for a still, since there are many of them.
pub const MAX_DIM_ANIMATED: u32 = 2560;

/// How long a still counts as shown, in milliseconds: the default frame
/// delay.
pub const STILL_DELAY_MS: u32 = 100;

/// An animation frame as uploaded: scaled to fit within `max_dim` on each
/// side when it is larger, and kept as it is otherwise. A larger image with
/// a side of zero pixels cannot be scaled and is refused.
pub open spec fn spec_fit_image(img: RgbaView, max_dim: u32) -> Result<RgbaView, Seq<char>> {
    if img.0 > max_dim || img.1 > max_dim {
        if img.0 == 0 || img.1 == 0 {
            Err("decoded image has no pixels"@)
        } else if img.0 * img.1 * 4 <= img.2.len() {
            Ok(spec_resize_rgba(img.0, img.1, img.2, max_dim))
        } else {
            Err("decoded image buffer is smaller than its size"@)
        }
    } else {
        Ok(img)
    }
}

/// An image result as the contracts see it.
pub open spec fn rgba_result(r: Result<RgbaImage, String>) -> Result<RgbaView, Seq<char>> {
    match r {
        Ok(img) => Ok(img@),
        Err(m) => Err(m@),
    }
}

/// A list of frames as the contracts see it.
pub open spec fn frames_view(frames: Seq<AnimFrame>) -> Seq<FrameView> {
    frames.map_values(|f: AnimFrame| f@)
}

/// A decoding result as the contracts see it.
pub open spec fn frames_result(r: Result<(Vec<AnimFrame>, bool), String>) -> Result<(Seq<FrameView>, bool), Seq<char>> {
    match r {
        Ok((frames, truncated)) => Ok((frames_view(frames@), truncated)),
        Err(m) => Err(m@),
    }
}

/// Decoded bytes of all the frames.
pub open spec fn total_pixel_bytes(frames: Seq<AnimFrame>) -> nat
    decreases frames.len(),
{
    if frames.len() == 0 {
        0
    } else {
        total_pixel_bytes(frames.drop_last()) + frames.last().image.pixels@.len()
    }
}

/// Frames that respect the limits of the uploads: at most [`MAX_FRAMES`] of
/// them, each within `max_dim` on both sides, and, when there is more than
/// one, at most [`FRAME_BUDGET_BYTES`] decoded bytes in all.
pub open spec fn within_limits(frames: Seq<AnimFrame>, max_dim: u32) -> bool {
    &&& frames.len() <= MAX_FRAMES
    &&& forall|i: int|
        0 <= i < frames.len() ==> #[trigger] frames[i].image.width <= max_dim && frames[i].image.height
            <= max_dim
    &&& frames.len() >= 2 ==> total_pixel_bytes(frames) <= FRAME_BUDGET_BYTES
}

/// `front` followed by the frames of a collection result.
pub open spec fn prepend_frames(
    front: Seq<FrameView>,
    r: Result<(Seq<FrameView>, bool), Seq<char>>,
) -> Result<(Seq<FrameView>, bool), Seq<char>> {
    match r {
        Ok((rest, truncated)) => Ok((front + rest, truncated)),
        Err(m) => Err(m),
    }
}

/// The frames kept from an animation, from the `index`-th on, when `used`
/// decoded bytes are kept already, and whether it was cut short.
///
/// Past [`MAX_FRAMES`] frames it is cut short if there is one more. A frame
/// that does not decode is an error. Each frame is scaled to fit
/// [`MAX_DIM_ANIMATED`]; the first is always kept, and a later one only while
/// the total stays within [`FRAME_BUDGET_BYTES`].
pub open spec fn spec_collect(webp: bool, bytes: Seq<u8>, index: nat, used: nat) -> Result<(Seq<FrameView>, bool), Seq<char>>
    decreases MAX_FRAMES - index,
{
    if index >= MAX_FRAMES {
        Ok((Seq::empty(), spec_frame_at(webp, bytes, index) is Some))
    } else {
        match spec_frame_at(webp, bytes, index) {
            None => Ok((Seq::empty(), false)),
            Some(Err(m)) => Err(m),
            Some(Ok(f)) => match spec_fit_image(f.0, MAX_DIM_ANIMATED) {
                Err(m) => Err(m),
                Ok(img) => if index > 0 && used + img.2.len() > FRAME_BUDGET_BYTES {
                    Ok((Seq::empty(), true))
                } else {
                    prepend_frames(
                        seq![(img, f.1, f.2)],
                        spec_collect(webp, bytes, index + 1, used + img.2.len()),
                    )
                },
            },
        }
    }
}

/// The frames of an animation; one without a single decodable frame is an
/// error.
pub open spec fn spec_animation(webp: bool, bytes: Seq<u8>) -> Result<(Seq<FrameView>, bool), Seq<char>> {
    match spec_collect(webp, bytes, 0, 0) {
        Ok((frames, truncated)) => if frames.len() == 0 {
            Err("the animation contained no decodable frames"@)
        } else {
            Ok((frames, truncated))
        },
        Err(m) => Err(m),
    }
}

/// A still, decoded and, when larger than [`MAX_DIM`] on a side, scaled to
/// fit before it is converted to RGBA. A larger image with a side of zero
/// pixels cannot be scaled and is refused.
pub open spec fn spec_decode_still(bytes: Seq<u8>) -> Result<RgbaView, Seq<char>> {
    match spec_decode_rgba(bytes) {
        Err(m) => Err(m),
        Ok(img) => if img.0 > MAX_DIM || img.1 > MAX_DIM {
            if img.0 == 0 || img.1 == 0 {
                Err("decoded image has no pixels"@)
            } else {
                Ok(spec_decode_resized(bytes, MAX_DIM))
            }
        } else {
            Ok(img)
        },
    }
}

/// A still as a one-frame, uncut result.
pub open spec fn spec_single_still(bytes: Seq<u8>) -> Result<(Seq<FrameView>, bool), Seq<char>> {
    match spec_decode_still(bytes) {
        Ok(img) => Ok((seq![(img, STILL_DELAY_MS, 1u32)], false)),
        Err(m) => Err(m),
    }
}

/// What [`decode_bytes`] gives: a GIF is read as an animation; a WebP as an
/// animation when it holds one and as a still otherwise; anything else as a
/// still.
pub open spec fn spec_decode_bytes(bytes: Seq<u8>) -> Result<(Seq<FrameView>, bool), Seq<char>> {
    if spec_is_gif(bytes) {
        match spec_gif_open(bytes) {
            Some(m) => Err(m),
            None => spec_animation(false, bytes),
        }
    } else if spec_is_webp(bytes) {
        match spec_webp_open(bytes) {
            Err(m) => Err(m),
            Ok(animated) => if animated {
                spec_animation(true, bytes)
            } else {
                spec_single_still(bytes)
            },
        }
    } else {
        spec_single_still(bytes)
    }
}

/// Scale an animation frame to fit within `max_dim` on each side when it is
/// larger.
fn fit_image(img: RgbaImage, max_dim: u32) -> (r: Result<RgbaImage, String>)
    requires
        max_dim > 0,
    ensures
        rgba_result(r) == spec_fit_image(img@, max_dim),
        r matches Ok(out) ==> out.width <= max_dim && out.height <= max_dim,
{
    if img.width > max_dim || img.height > max_dim {
        if img.width == 0 || img.height == 0 {
            return Err(String::from_str("decoded image has no pixels"));
        }
        match resize_rgba(img.width, img.height, img.pixels.as_slice(), max_dim) {
            Some(out) => Ok(out),
            None => Err(String::from_str("decoded image buffer is smaller than its size")),
        }
    } else {
        Ok(img)
    }
}

/// Decode a still, scaling it to fit [`MAX_DIM`] before converting it to
/// RGBA.
pub fn decode_still(bytes: &[u8]) -> (r: Result<RgbaImage, String>)
    ensures
        rgba_result(r) == spec_decode_still(bytes@),
        r matches Ok(img) ==> img.width <= MAX_DIM && img.height <= MAX_DIM,
{
    let decoded = match load_image(bytes) {
        Ok(d) => d,
        Err(m) => {
            return Err(m);
        },
    };
    let w = decoded.width();
    let h = decoded.height();
    if w > MAX_DIM || h > MAX_DIM {
        if w == 0 || h == 0 {
            return Err(String::from_str("decoded image has no pixels"));
        }
        Ok(image_resized_rgba(decoded, MAX_DIM))
    } else {
        Ok(image_to_rgba(decoded))
    }
}

/// Read the frames of an animation, keeping them while they fit the budget.
fn collect_frames(src: FrameSource) -> (r: Result<(Vec<AnimFrame>, bool), String>)
    requires
        src.spec_taken() == 0,
    ensures
        frames_result(r) == spec_collect(src.spec_webp(), src.spec_bytes(), 0, 0),
        r matches Ok((frames, _)) ==> within_limits(frames@, MAX_DIM_ANIMATED),
{
    let ghost webp = src.spec_webp();
    let ghost bytes = src.spec_bytes();
    let mut source = src;
    let mut out: Vec<AnimFrame> = Vec::new();
    let mut budget = FrameBudget::new();
    proof {
        assert(frames_view(out@) =~= Seq::<FrameView>::empty());
        assert(prepend_frames(Seq::empty(), spec_collect(webp, bytes, 0, 0)) =~= spec_collect(
            webp,
            bytes,
            0,
            0,
        ));
    }
    loop
        invariant
            source.spec_webp() == webp,
            source.spec_bytes() == bytes,
            src.spec_webp() == webp,
            src.spec_bytes() == bytes,
            source.spec_taken() == out@.len(),
            budget.spec_frames() == out@.len(),
            budget.spec_used_bytes() == total_pixel_bytes(out@),
            within_limits(out@, MAX_DIM_ANIMATED),
            spec_collect(webp, bytes, 0, 0) == prepend_frames(
                frames_view(out@),
                spec_collect(webp, bytes, out@.len() as nat, budget.spec_used_bytes()),
            ),
        decreases MAX_FRAMES - out@.len(),
    {
        let ghost index = out@.len() as nat;
        let ghost used = budget.spec_used_bytes();
        let item = next_frame(&mut source);
        assert(spec_frame_at(webp, bytes, index) == next_frame_view(item));
        if out.len() >= MAX_FRAMES {
            let more = item.is_some();
            proof {
                assert(frames_view(out@) + Seq::<FrameView>::empty() =~= frames_view(out@));
                assert(spec_collect(webp, bytes, index, used) == Ok::<(Seq<FrameView>, bool), Seq<char>>(
                    (Seq::empty(), more),
                ));
            }
            return Ok((out, more));
        }
        match item {
            None => {
                proof {
                    assert(frames_view(out@) + Seq::<FrameView>::empty() =~= frames_view(out@));
                    assert(spec_collect(webp, bytes, index, used) == Ok::<(Seq<FrameView>, bool), Seq<char>>(
                        (Seq::empty(), false),
                    ));
                }
                return Ok((out, false));
            },
            Some(Err(m)) => {
                return Err(m);
            },
            Some(Ok(frame)) => {
                let numer = frame.delay_numer_ms;
                let denom = frame.delay_denom_ms;
                let img = match fit_image(frame.image, MAX_DIM_ANIMATED) {
                    Ok(img) => img,
                    Err(m) => {
                        return Err(m);
                    },
                };
                let cost = img.pixels.len();
                if !budget.accept_frame(cost) {
                    proof {
                        assert(frames_view(out@) + Seq::<FrameView>::empty() =~= frames_view(out@));
                    }
                    return Ok((out, true));
                }
                let ghost fv: FrameView = (img@, numer, denom);
                let ghost before = frames_view(out@);
                let ghost kept = out@;
                let f = AnimFrame { image: img, delay_numer_ms: numer, delay_denom_ms: denom };
                out.push(f);
                proof {
                    assert(out@.drop_last() =~= kept);
                    assert(total_pixel_bytes(out@) == total_pixel_bytes(kept) + cost);
                    assert forall|i: int| 0 <= i < out@.len() implies #[trigger] out@[i].image.width
                        <= MAX_DIM_ANIMATED && out@[i].image.height <= MAX_DIM_ANIMATED by {
                        if i < kept.len() {
                            assert(out@[i] == kept[i]);
                        }
                    }
                    assert(frames_view(out@) =~= before.push(fv));
                    let rest = spec_collect(webp, bytes, index + 1, (used + cost) as nat);
                    assert(spec_collect(webp, bytes, index, used) == prepend_frames(seq![fv], rest));
                    assert(prepend_frames(before, prepend_frames(seq![fv], rest)) =~= prepend_frames(
                        before.push(fv),
                        rest,
                    )) by {
                        match rest {
                            Ok((r, t)) => {
                                assert(before + (seq![fv] + r) =~= before.push(fv) + r);
                            },
                            Err(_) => {},
                        }
                    }
                }
            },
        }
    }
}

/// The frames of an animation; an error when none decodes.
fn animation(src: FrameSource) -> (r: Result<(Vec<AnimFrame>, bool), String>)
    requires
        src.spec_taken() == 0,
    ensures
        frames_result(r) == spec_animation(src.spec_webp(), src.spec_bytes()),
        r matches Ok((frames, _)) ==> within_limits(frames@, MAX_DIM_ANIMATED) && frames@.len() >= 1,
{
    match collect_frames(src) {
        Ok((frames, truncated)) => {
            if frames.len() == 0 {
                Err(String::from_str("the animation contained no decodable frames"))
            } else {
                Ok((frames, truncated))
            }
        },
        Err(m) => Err(m),
    }
}

/// A still as a single frame.
fn single_still(bytes: &[u8]) -> (r: Result<(Vec<AnimFrame>, bool), String>)
    ensures
        frames_result(r) == spec_single_still(bytes@),
        r matches Ok((frames, _)) ==> within_limits(frames@, MAX_DIM) && frames@.len() == 1,
{
    match decode_still(bytes) {
        Ok(img) => {
            let mut frames: Vec<AnimFrame> = Vec::new();
            frames.push(AnimFrame { image: img, delay_numer_ms: STILL_DELAY_MS, delay_denom_ms: 1 });
            proof {
                assert(frames_view(frames@) =~= seq![(img@, STILL_DELAY_MS, 1u32)]);
            }
            Ok((frames, false))
        },
        Err(m) => Err(m),
    }
}

/// Decode an image from its encoded bytes into the frames to upload, and
/// whether an animation was cut short by the memory budget.
///
/// The container is recognised by its magic bytes: a GIF is read as an
/// animation, a WebP as an animation when it holds one (a still
/// otherwise), anything else as a still. Animation frames are scaled to fit
/// [`MAX_DIM_ANIMATED`] and kept within the frame and byte budgets; a still
/// is scaled to fit [`MAX_DIM`].
pub fn decode_bytes(bytes: &[u8]) -> (r: Result<(Vec<AnimFrame>, bool), String>)
    ensures
        frames_result(r) == spec_decode_bytes(bytes@),
        r matches Ok((frames, _)) ==> frames@.len() >= 1 && within_limits(frames@, MAX_DIM),
        r matches Ok((frames, _)) ==> (spec_is_gif(bytes@) || frames@.len() >= 2) ==> within_limits(
            frames@,
            MAX_DIM_ANIMATED,
        ),
{
    match image_kind(bytes) {
        ImageKind::Gif => match gif_frames(bytes) {
            Ok(src) => {
                let r = animation(src);
                proof {
                    if r is Ok {
                        lemma_limits_widen(r->Ok_0.0@);
                    }
                }
                r
            },
            Err(m) => Err(m),
        },
        ImageKind::WebP => match webp_open(bytes) {
            Ok(file) => {
                if file.is_animated() {
                    let r = animation(webp_frames(file));
                    proof {
                        if r is Ok {
                            lemma_limits_widen(r->Ok_0.0@);
                        }
                    }
                    r
                } else {
                    single_still(bytes)
                }
            },
            Err(m) => Err(m),
        },
        ImageKind::Still => single_still(bytes),
    }
}

/// Frames within the animation limits are within the still limits too.
proof fn lemma_limits_widen(frames: Seq<AnimFrame>)
    requires
        within_limits(frames, MAX_DIM_ANIMATED),
    ensures
        within_limits(frames, MAX_DIM),
{
}

impl Default for BackgroundSource {
    fn default() -> (s: BackgroundSource)
        ensures
            s.is_clear(),
    {
        BackgroundSource::new()
    }
}

/// With no configured path, whatever is loaded or remembered as broken is
/// dropped: a source with an image loaded, or a failure remembered, plans
/// `Clear`, and only an empty source is kept as it is. With a configured
/// path, it is decoded exactly when it is neither the loaded path nor a path
/// known to be broken; no path is never decoded.
pub proof fn plan_follows_the_configured_path(s: BackgroundSource, path: Seq<char>)
    ensures
        s.spec_loaded_from() is Some ==> s.spec_plan(None) == SyncPlan::Clear,
        s.spec_failed() is Some ==> s.spec_plan(None) == SyncPlan::Clear,
        s.spec_plan(None) == SyncPlan::Keep ==> s.spec_loaded_from() is None && s.spec_failed() is None,
        s.spec_plan(None) != SyncPlan::Load,
        s.spec_plan(Some(path)) != SyncPlan::Clear,
        s.spec_plan(Some(path)) == SyncPlan::Load <==> (s.spec_loaded_from() != Some(path)
            && s.spec_failed() != Some(path)),
{
}

/// After a path has been tried, the next plan for the same path is to keep
/// things as they are: neither a loaded nor a broken path is decoded again.
pub proof fn loaded_or_failed_path_is_kept(s: BackgroundSource, path: Seq<char>)
    requires
        s.spec_loaded_from() == Some(path) || s.spec_failed() == Some(path),
    ensures
        s.spec_plan(Some(path)) == SyncPlan::Keep,
{
}

} // verus!
