//! The preview worker: makes a small copy of an original, stores it under a
//! key that is derived from the media id, and files that key with the
//! media.
//!
//! A preview is 200 pixels high and as wide as the aspect of the original
//! asks. It is a PNG where the original has an alpha channel, else a JPEG.

use crate::bus::{media_id_of, message_media_id, Reply};
use crate::catalog::{changed_at, has_id, DbManager, Media};
use crate::text::{str_eq, text_of};
use vstd::prelude::*;

verus! {

/// The height of a preview in pixels.
pub const PREVIEW_HEIGHT: u32 = 200;

/// A decoded image of the `image` crate, `image::DynamicImage`: a value that
/// is carried through and read only by the crate.
#[verifier::external_type_specification]
#[verifier::external_body]
pub struct ExDynamicImage(image::DynamicImage);

/// How an image is to be turned, `image::metadata::Orientation`: a value
/// that is carried from the decoder to the image.
#[verifier::external_type_specification]
#[verifier::external_body]
pub struct ExOrientation(image::metadata::Orientation);

/// A decoded image.
pub struct Picture {
    pub image: image::DynamicImage,
}

/// The width of an image in pixels.
pub uninterp spec fn picture_width(image: image::DynamicImage) -> u32;

/// The height of an image in pixels.
pub uninterp spec fn picture_height(image: image::DynamicImage) -> u32;

/// Whether an image has an alpha channel.
pub uninterp spec fn picture_has_alpha(image: image::DynamicImage) -> bool;

/// The image that bytes decode to, with the format guessed from the bytes,
/// and the orientation that its attributes name; `None` where they cannot
/// be decoded.
pub uninterp spec fn decoded_image(bytes: Seq<u8>) -> Option<
    (image::DynamicImage, image::metadata::Orientation),
>;

/// The image of the given size that interleaved RGB pixels make; `None`
/// where there are too few pixels.
pub uninterp spec fn rgb_image(width: u32, height: u32, pixels: Seq<u8>) -> Option<
    image::DynamicImage,
>;

/// An image turned as an orientation asks.
pub uninterp spec fn oriented(
    image: image::DynamicImage,
    orientation: image::metadata::Orientation,
) -> image::DynamicImage;

/// An image scaled to a size with the triangle filter.
pub uninterp spec fn resized(image: image::DynamicImage, width: u32, height: u32) -> image::DynamicImage;

/// The bytes of an image as a PNG (`png`) or as a JPEG; `None` where the
/// image cannot be encoded so.
pub uninterp spec fn encoding(image: image::DynamicImage, png: bool) -> Option<Seq<u8>>;

impl Picture {
    /// The width in pixels.
    pub open spec fn width(&self) -> u32 {
        picture_width(self.image)
    }

    /// The height in pixels.
    pub open spec fn height(&self) -> u32 {
        picture_height(self.image)
    }

    /// Whether there is an alpha channel.
    pub open spec fn has_alpha(&self) -> bool {
        picture_has_alpha(self.image)
    }
}

/// Decodes an image with `ImageReader::with_guessed_format`,
/// `ImageReader::into_decoder`, `ImageDecoder::orientation` and
/// `DynamicImage::from_decoder`. Trusted: the result is the crate's decoding
/// of the bytes and the orientation that it reads from them, and an error
/// of the crate is reported as `None`.
#[verifier::external_body]
fn load_picture(bytes: &[u8]) -> (loaded: Option<(Picture, image::metadata::Orientation)>)
    ensures
        match loaded {
            Some((p, orientation)) => decoded_image(bytes@) == Some((p.image, orientation)),
            None => decoded_image(bytes@) is None,
        },
{
    let reader = image::ImageReader::new(std::io::Cursor::new(bytes)).with_guessed_format().ok()?;
    let mut decoder = reader.into_decoder().ok()?;
    let orientation = image::ImageDecoder::orientation(&mut decoder).ok()?;
    let image = image::DynamicImage::from_decoder(decoder).ok()?;
    Some((Picture { image }, orientation))
}

/// Makes an image of interleaved RGB pixels with `RgbImage::from_raw`.
/// Trusted: the result is the crate's image of the pixels, and it has no
/// alpha channel.
#[verifier::external_body]
fn picture_of_rgb(width: u32, height: u32, pixels: Vec<u8>) -> (picture: Option<Picture>)
    ensures
        match picture {
            Some(p) => rgb_image(width, height, pixels@) == Some(p.image) && !p.has_alpha(),
            None => rgb_image(width, height, pixels@) is None,
        },
{
    let buffer = image::RgbImage::from_raw(width, height, pixels)?;
    Some(Picture { image: image::DynamicImage::ImageRgb8(buffer) })
}

/// Reads the size of an image with `GenericImageView::dimensions`.
/// Trusted: the result is the width and the height.
#[verifier::external_body]
fn picture_size(picture: &Picture) -> (size: (u32, u32))
    ensures
        size.0 == picture_width(picture.image),
        size.1 == picture_height(picture.image),
{
    image::GenericImageView::dimensions(&picture.image)
}

/// Reads whether an image has an alpha channel with `ColorType::has_alpha`
/// of `DynamicImage::color`. Trusted: the result is that.
#[verifier::external_body]
fn picture_alpha(picture: &Picture) -> (alpha: bool)
    ensures
        alpha == picture_has_alpha(picture.image),
{
    picture.image.color().has_alpha()
}

/// Turns an image as an orientation asks, with
/// `DynamicImage::apply_orientation`. Trusted: the result is the crate's
/// turned image.
#[verifier::external_body]
fn turned(picture: Picture, orientation: image::metadata::Orientation) -> (result: Picture)
    ensures
        result.image == oriented(picture.image, orientation),
{
    let mut image = picture.image;
    image.apply_orientation(orientation);
    Picture { image }
}

/// Scales an image to a size with `DynamicImage::resize_exact` and the
/// triangle filter. Trusted: the result is the crate's scaled image; it has
/// that size, and an alpha channel where the image had one. The sizes must
/// be such that the crate's buffers can be made: it samples through a
/// buffer of 16 bytes for each pixel.
#[verifier::external_body]
fn scaled(picture: &Picture, width: u32, height: u32) -> (result: Picture)
    requires
        width >= 1,
        height >= 1,
        16 * width * height <= isize::MAX,
        16 * picture.width() * height <= isize::MAX,
    ensures
        result.image == resized(picture.image, width, height),
        result.width() == width,
        result.height() == height,
        result.has_alpha() == picture.has_alpha(),
{
    Picture {
        image: picture.image.resize_exact(width, height, image::imageops::FilterType::Triangle),
    }
}

/// Encodes an image with `DynamicImage::write_to`, as a PNG or as a JPEG.
/// Trusted: the result is the crate's encoding, and an error of the crate
/// is reported as `None`.
#[verifier::external_body]
fn encoded(picture: &Picture, png: bool) -> (bytes: Option<Vec<u8>>)
    ensures
        match bytes {
            Some(b) => encoding(picture.image, png) == Some(b@),
            None => encoding(picture.image, png) is None,
        },
{
    let format = match png {
        true => image::ImageFormat::Png,
        false => image::ImageFormat::Jpeg,
    };
    let mut bytes: Vec<u8> = Vec::new();
    picture.image.write_to(&mut std::io::Cursor::new(&mut bytes), format).ok()?;
    Some(bytes)
}

/// The width of a preview of the given height for an original of the given
/// size: the height times the aspect of the original, rounded to the
/// nearest pixel, but not less than one pixel nor more than fits.
pub open spec fn spec_preview_width(width: u32, height: u32, preview_height: u32) -> u32
    recommends
        height > 0,
{
    let rounded = (2 * preview_height * width + height) / (2 * height);
    if rounded < 1 {
        1
    } else if rounded > u32::MAX {
        u32::MAX
    } else {
        rounded as u32
    }
}

/// The width of a preview of the given height for an original of the given
/// size. `None` for an original without height.
pub fn preview_width(width: u32, height: u32, preview_height: u32) -> (preview: Option<u32>)
    ensures
        preview is Some <==> height > 0,
        preview matches Some(w) ==> w == spec_preview_width(width, height, preview_height),
{
    if height == 0 {
        return None;
    }
    assert(2 * preview_height * width + height <= 2 * 0xffff_ffff * 0xffff_ffff + 0xffff_ffff)
        by (nonlinear_arith)
        requires
            preview_height <= 0xffff_ffff,
            width <= 0xffff_ffff,
            height <= 0xffff_ffff,
    ;
    let twice: u128 = 2 * (preview_height as u128) * (width as u128) + height as u128;
    let rounded: u128 = twice / (2 * (height as u128));
    Some(
        if rounded < 1 {
            1
        } else if rounded > u32::MAX as u128 {
            u32::MAX
        } else {
            rounded as u32
        },
    )
}

/// Whether a preview of this size can be made of an original of this
/// width: whether the buffers for it, of up to 16 bytes for each pixel, can
/// be addressed.
pub open spec fn fits(width: u32, preview_width: u32, preview_height: u32) -> bool {
    &&& preview_height >= 1
    &&& 16 * preview_width * preview_height <= isize::MAX
    &&& 16 * width * preview_height <= isize::MAX
}

/// The preview of the given height of an image: the image scaled to that
/// height and to the width that its aspect asks for. `None` where the image
/// has no height, or the preview would be too large to make.
pub open spec fn preview_of(image: image::DynamicImage, preview_height: u32) -> Option<
    image::DynamicImage,
> {
    let width = picture_width(image);
    let height = picture_height(image);
    let wide = spec_preview_width(width, height, preview_height);
    if height > 0 && fits(width, wide, preview_height) {
        Some(resized(image, wide, preview_height))
    } else {
        None
    }
}

/// Makes a preview of the given height of an original. The preview has the
/// aspect of the original. `None` where the original has no height, or the
/// preview would be too large to make.
pub fn create_preview(orig: &Picture, preview_height: u32) -> (preview: Option<Picture>)
    ensures
        match preview {
            Some(p) => preview_of(orig.image, preview_height) == Some(p.image),
            None => preview_of(orig.image, preview_height) is None,
        },
        preview matches Some(p) ==> {
            &&& p.height() == preview_height
            &&& p.width() == spec_preview_width(orig.width(), orig.height(), preview_height)
            &&& p.has_alpha() == orig.has_alpha()
        },
{
    let (width, height) = picture_size(orig);
    let wide = match preview_width(width, height, preview_height) {
        Some(w) => w,
        None => return None,
    };
    if preview_height < 1 {
        return None;
    }
    assert(16 * wide * preview_height <= 16 * 0xffff_ffff * 0xffff_ffff && 16 * width
        * preview_height <= 16 * 0xffff_ffff * 0xffff_ffff) by (nonlinear_arith)
        requires
            wide <= 0xffff_ffff,
            width <= 0xffff_ffff,
            preview_height <= 0xffff_ffff,
    ;
    let limit: u128 = isize::MAX as u128;
    if 16 * (wide as u128) * (preview_height as u128) > limit || 16 * (width as u128) * (
    preview_height as u128) > limit {
        return None;
    }
    Some(scaled(orig, wide, preview_height))
}

/// The content type of a preview of an original with or without an alpha
/// channel.
pub open spec fn preview_content_type(has_alpha: bool) -> Seq<char> {
    if has_alpha {
        "image/png"@
    } else {
        "image/jpeg"@
    }
}

/// A preview, ready to be stored.
pub struct Rendered {
    pub bytes: Vec<u8>,
    pub content_type: String,
}

/// Encodes a preview: as a PNG where it has an alpha channel, else as a
/// JPEG. `None` where it cannot be encoded.
pub fn encode_preview(preview: &Picture) -> (rendered: Option<Rendered>)
    ensures
        match rendered {
            Some(r) => encoding(preview.image, preview.has_alpha()) == Some(r.bytes@)
                && r.content_type@ == preview_content_type(preview.has_alpha()),
            None => encoding(preview.image, preview.has_alpha()) is None,
        },
{
    let alpha = picture_alpha(preview);
    let bytes = match encoded(preview, alpha) {
        Some(b) => b,
        None => return None,
    };
    let content_type = if alpha {
        "image/png".to_owned()
    } else {
        "image/jpeg".to_owned()
    };
    Some(Rendered { bytes, content_type })
}

/// The stored form of the preview of an image: its bytes and its content
/// type. `None` where no preview can be made or encoded.
pub open spec fn rendering(image: image::DynamicImage) -> Option<(Seq<u8>, Seq<char>)> {
    match preview_of(image, PREVIEW_HEIGHT) {
        None => None,
        Some(preview) => match encoding(preview, picture_has_alpha(preview)) {
            None => None,
            Some(bytes) => Some((bytes, preview_content_type(picture_has_alpha(preview)))),
        },
    }
}

/// Makes the preview of a decoded original and encodes it.
pub fn render(orig: &Picture) -> (rendered: Option<Rendered>)
    ensures
        match rendered {
            Some(r) => rendering(orig.image) == Some((r.bytes@, r.content_type@)),
            None => rendering(orig.image) is None,
        },
        rendered matches Some(r) ==> r.content_type@ == preview_content_type(orig.has_alpha()),
{
    let preview = match create_preview(orig, PREVIEW_HEIGHT) {
        Some(p) => p,
        None => return None,
    };
    encode_preview(&preview)
}

/// What an original of a general image format decodes to: the image, turned
/// as the orientation in its attributes asks.
pub open spec fn general_image(bytes: Seq<u8>) -> Option<image::DynamicImage> {
    match decoded_image(bytes) {
        Some((image, orientation)) => Some(oriented(image, orientation)),
        None => None,
    }
}

/// Decodes an original of a general image format and turns it as the
/// orientation in its attributes asks.
pub fn decode_general(bytes: &[u8]) -> (picture: Option<Picture>)
    ensures
        match picture {
            Some(p) => general_image(bytes@) == Some(p.image),
            None => general_image(bytes@) is None,
        },
{
    match load_picture(bytes) {
        Some((picture, orientation)) => Some(turned(picture, orientation)),
        None => None,
    }
}

/// The object key of the preview of a media: `prev/` and the media id.
pub open spec fn spec_preview_key(media_id: Seq<char>) -> Seq<char> {
    "prev/"@ + media_id
}

/// The object key of the preview of a media.
pub fn preview_key(media_id: &str) -> (key: String)
    ensures
        key@ == spec_preview_key(media_id@),
{
    "prev/".to_owned().concat(media_id)
}

/// Whether originals of this content type are decoded as HEIF.
pub open spec fn is_heif_type(content_type: Seq<char>) -> bool {
    content_type == "image/heif"@ || content_type == "image/heic"@
}

/// Whether originals of this content type are decoded as HEIF.
pub fn is_heif(content_type: &str) -> (heif: bool)
    ensures
        heif == is_heif_type(content_type@),
{
    str_eq(content_type, "image/heif") || str_eq(content_type, "image/heic")
}

/// What the object store answered to the request for an original.
pub enum Fetched {
    /// There is no such object.
    Missing,
    /// The store could not say.
    Failed,
    /// The object, and the content type it was stored with.
    Found { content_type: Option<String>, bytes: Vec<u8> },
}

/// What the worker does next for a message.
pub enum PreviewStep {
    /// Answer the bus.
    Answer(Reply),
    /// Decode the original as HEIF into interleaved RGB, and hand the
    /// pixels back.
    DecodeHeif,
    /// Store the preview under the key with its content type.
    Store { key: String, preview: Rendered },
}

/// What a preview step says.
pub enum StepKind {
    Answer(Reply),
    DecodeHeif,
    Store { key: Seq<char>, content_type: Seq<char>, bytes: Seq<u8> },
}

impl PreviewStep {
    /// What the step is.
    pub open spec fn kind(&self) -> StepKind {
        match self {
            PreviewStep::Answer(reply) => StepKind::Answer(*reply),
            PreviewStep::DecodeHeif => StepKind::DecodeHeif,
            PreviewStep::Store { key, preview } => StepKind::Store {
                key: key@,
                content_type: preview.content_type@,
                bytes: preview.bytes@,
            },
        }
    }
}

/// The step after an original has been decoded (`None`: it could not be):
/// its preview is to be stored under the key of the media. An original that
/// could not be decoded, or of which no preview can be made, can never be
/// handled.
pub open spec fn step_after_decoding(media_id: Seq<char>, image: Option<image::DynamicImage>) -> StepKind {
    match image {
        None => StepKind::Answer(Reply::Term),
        Some(image) => match rendering(image) {
            None => StepKind::Answer(Reply::Term),
            Some((bytes, content_type)) => StepKind::Store {
                key: spec_preview_key(media_id),
                content_type,
                bytes,
            },
        },
    }
}

/// The image of an optional picture.
pub open spec fn image_of(picture: Option<Picture>) -> Option<image::DynamicImage> {
    match picture {
        Some(p) => Some(p.image),
        None => None,
    }
}

/// Stores or gives up: the step after an original has been decoded
/// (`None`: it could not be).
pub fn after_decoding(media_id: &str, picture: Option<Picture>) -> (step: PreviewStep)
    ensures
        step.kind() == step_after_decoding(media_id@, image_of(picture)),
        step.kind() matches StepKind::Store { content_type, .. } ==> picture matches Some(p)
            && content_type == preview_content_type(p.has_alpha()),
{
    let picture = match picture {
        Some(p) => p,
        None => return PreviewStep::Answer(Reply::Term),
    };
    match render(&picture) {
        Some(preview) => PreviewStep::Store { key: preview_key(media_id), preview },
        None => PreviewStep::Answer(Reply::Term),
    }
}

/// The step after the original has been asked of the object store.
pub open spec fn step_after_fetching(payload: Seq<u8>, fetched: Fetched) -> StepKind {
    match media_id_of(payload) {
        None => StepKind::Answer(Reply::Term),
        Some(id) => match fetched {
            Fetched::Missing => StepKind::Answer(Reply::Term),
            Fetched::Failed => StepKind::Answer(Reply::Nak),
            Fetched::Found { content_type, bytes } => if content_type matches Some(t)
                && is_heif_type(t@) {
                StepKind::DecodeHeif
            } else {
                step_after_decoding(id, general_image(bytes@))
            },
        },
    }
}

/// Handles a message of the preview worker, given what the object store
/// answered to the request for the original.
///
/// A message that names no media, and an original that is missing, can
/// never be handled. A store that could not say is asked again later. An
/// original of a HEIF type is to be decoded by the caller. Any other
/// original is decoded here, and its preview is to be stored; one that
/// cannot be decoded can never be handled.
pub fn handle_request(payload: &[u8], fetched: Fetched) -> (step: PreviewStep)
    ensures
        step.kind() == step_after_fetching(payload@, fetched),
{
    let media_id = match message_media_id(payload) {
        Some(id) => id,
        None => return PreviewStep::Answer(Reply::Term),
    };
    match fetched {
        Fetched::Missing => PreviewStep::Answer(Reply::Term),
        Fetched::Failed => PreviewStep::Answer(Reply::Nak),
        Fetched::Found { content_type, bytes } => {
            let heif = match &content_type {
                Some(t) => is_heif(t.as_str()),
                None => false,
            };
            if heif {
                PreviewStep::DecodeHeif
            } else {
                after_decoding(media_id.as_str(), decode_general(bytes.as_slice()))
            }
        },
    }
}

/// The step after the caller has decoded a HEIF original into interleaved
/// RGB (`None`: it could not be decoded): the preview of the image that the
/// pixels make is to be stored. A message that names no media, and an
/// original that could not be decoded, can never be handled.
pub open spec fn step_after_heif(payload: Seq<u8>, decoded: Option<(u32, u32, Vec<u8>)>) -> StepKind {
    match (media_id_of(payload), decoded) {
        (Some(id), Some((width, height, pixels))) => step_after_decoding(
            id,
            rgb_image(width, height, pixels@),
        ),
        _ => StepKind::Answer(Reply::Term),
    }
}

/// The step after the caller has decoded a HEIF original into interleaved
/// RGB (`None`: it could not be decoded).
pub fn after_heif(payload: &[u8], decoded: Option<(u32, u32, Vec<u8>)>) -> (step: PreviewStep)
    ensures
        step.kind() == step_after_heif(payload@, decoded),
        step.kind() matches StepKind::Store { content_type, .. } ==> content_type
            == "image/jpeg"@,
{
    let media_id = match message_media_id(payload) {
        Some(id) => id,
        None => return PreviewStep::Answer(Reply::Term),
    };
    let picture = match decoded {
        Some((width, height, pixels)) => picture_of_rgb(width, height, pixels),
        None => None,
    };
    after_decoding(media_id.as_str(), picture)
}

/// How the worker answers the bus once the object store has answered the
/// request to store the preview (`None`: the request failed).
///
/// Only after a status of 200 is the key filed with the media, stamped
/// with `now`, and only then is the message done; everything else is tried
/// again.
pub fn after_storing(catalog: &mut DbManager, payload: &[u8], status: Option<u16>, now: i64) -> (reply:
    Reply)
    requires
        old(catalog).wf(),
    ensures
        final(catalog).wf(),
        final(catalog).same_but_media(old(catalog)),
        reply == Reply::Ack <==> (status == Some(200u16) && media_id_of(payload@)
            is Some && has_id(old(catalog).media@, media_id_of(payload@)->0)),
        reply == Reply::Ack || reply == Reply::Nak || reply == Reply::Term,
        reply == Reply::Term <==> media_id_of(payload@) is None,
        reply != Reply::Ack ==> final(catalog).media@ == old(catalog).media@,
        reply == Reply::Ack ==> exists|at: int|
            {
                &&& #[trigger] changed_at(old(catalog).media@, final(catalog).media@, at)
                &&& old(catalog).media@[at].id@ == media_id_of(payload@)->0
                &&& text_of(final(catalog).media@[at].preview_id) == Some(
                    spec_preview_key(old(catalog).media@[at].id@),
                )
                &&& final(catalog).media@[at].last_modified_at == now
                &&& final(catalog).media@[at].deleted == old(catalog).media@[at].deleted
                &&& final(catalog).media@[at].metadata == old(catalog).media@[at].metadata
            },
{
    let media_id = match message_media_id(payload) {
        Some(id) => id,
        None => return Reply::Term,
    };
    match status {
        Some(200) => {},
        _ => {
            return Reply::Nak;
        },
    }
    let key = preview_key(media_id.as_str());
    match catalog.update_media_preview(media_id.as_str(), key, now) {
        Ok(()) => Reply::Ack,
        Err(_) => Reply::Nak,
    }
}

/// Idempotent preview. Handling the same message twice leaves what
/// handling it once leaves: the media carries the same preview key, and the
/// object store holds the same keys, because the second preview is stored
/// over the first; where the two previews are the same, as they are for the
/// same original, it holds the same objects.
pub proof fn lemma_preview_is_idempotent(
    before: Seq<Media>,
    once: Seq<Media>,
    twice: Seq<Media>,
    at: int,
    objects: Map<Seq<char>, Seq<u8>>,
    first: Seq<u8>,
    second: Seq<u8>,
)
    requires
        changed_at(before, once, at),
        changed_at(once, twice, at),
        text_of(once[at].preview_id) == Some(spec_preview_key(before[at].id@)),
        text_of(twice[at].preview_id) == Some(spec_preview_key(once[at].id@)),
    ensures
        text_of(twice[at].preview_id) == text_of(once[at].preview_id),
        objects.insert(spec_preview_key(before[at].id@), first).insert(
            spec_preview_key(once[at].id@),
            second,
        ).dom() == objects.insert(spec_preview_key(before[at].id@), first).dom(),
        first == second ==> objects.insert(spec_preview_key(before[at].id@), first).insert(
            spec_preview_key(once[at].id@),
            second,
        ) == objects.insert(spec_preview_key(before[at].id@), first),
{
    let key = spec_preview_key(before[at].id@);
    assert(objects.insert(key, first).insert(key, second).dom() =~= objects.insert(
        key,
        first,
    ).dom());
    assert(objects.insert(key, first).insert(key, first) =~= objects.insert(key, first));
}

} // verus!
