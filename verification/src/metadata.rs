//! Camera metadata of a media: what the metadata worker reads from the EXIF
//! attributes of an original and files in the catalog.

use crate::bus::{media_id_of, message_media_id, Reply};
use crate::catalog::DbManager;
use crate::text::text_of;
use vstd::prelude::*;

verus! {

/// An unsigned rational number as EXIF stores it.
#[derive(Clone, Copy, Debug, PartialEq, Eq, Structural)]
pub struct Rational {
    pub num: u32,
    pub denom: u32,
}

/// A geographic coordinate as EXIF stores it: degrees, minutes and seconds,
/// and the hemisphere. The coordinate in signed decimal degrees is
/// `degrees + minutes / 60 + seconds / 3600`, negated if `negative`.
#[derive(Clone, Copy, Debug, PartialEq, Eq, Structural)]
pub struct Coordinate {
    pub degrees: Rational,
    pub minutes: Rational,
    pub seconds: Rational,
    /// Whether the coordinate lies in the western or southern hemisphere.
    pub negative: bool,
}

/// The camera metadata of one media. Every field may be absent.
pub struct MediaMetadata {
    pub longitude: Option<Coordinate>,
    pub latitude: Option<Coordinate>,
    pub image_width: Option<i32>,
    pub image_length: Option<i32>,
    pub make: Option<String>,
    pub model: Option<String>,
    pub fnumber: Option<String>,
    pub exposure_time: Option<String>,
    pub photographic_sensitivity: Option<String>,
    pub orientation: Option<i32>,
}

impl MediaMetadata {
    /// Whether no field is present.
    pub open spec fn is_empty(&self) -> bool {
        &&& self.longitude is None
        &&& self.latitude is None
        &&& self.image_width is None
        &&& self.image_length is None
        &&& self.make is None
        &&& self.model is None
        &&& self.fnumber is None
        &&& self.exposure_time is None
        &&& self.photographic_sensitivity is None
        &&& self.orientation is None
    }

    /// Metadata with no field present: what a media has before the metadata
    /// worker has seen it.
    pub fn empty() -> (metadata: Self)
        ensures
            metadata.is_empty(),
    {
        MediaMetadata {
            longitude: None,
            latitude: None,
            image_width: None,
            image_length: None,
            make: None,
            model: None,
            fnumber: None,
            exposure_time: None,
            photographic_sensitivity: None,
            orientation: None,
        }
    }
}


/// The attributes that the `exif` crate has read, `exif::Exif`: a value that
/// is carried through and read only by the crate.
#[verifier::external_type_specification]
#[verifier::external_body]
pub struct ExExif(exif::Exif);

/// The attributes that were read from an original.
pub struct ExifData {
    pub attributes: exif::Exif,
}

/// The group in which the number of an attribute is read.
#[derive(Clone, Copy, Debug, PartialEq, Eq, Structural)]
pub enum TagGroup {
    /// The attributes of the image itself.
    Tiff,
    /// The attributes of the exposure.
    Exif,
    /// The attributes of the place.
    Gps,
}

/// The EXIF attributes of an original with these bytes; `None` where none
/// can be read.
pub uninterp spec fn exif_attributes(bytes: Seq<u8>) -> Option<exif::Exif>;

/// Whether EXIF attributes can be read from an original with these bytes.
pub open spec fn exif_readable(bytes: Seq<u8>) -> bool {
    exif_attributes(bytes) is Some
}

/// The rationals of an attribute of the primary image; `None` where the
/// attribute is absent or holds no rationals.
pub uninterp spec fn primary_rationals(attributes: exif::Exif, group: TagGroup, number: u16) -> Option<
    Seq<Rational>,
>;

/// The first text of an attribute of the primary image; `None` where the
/// attribute is absent or holds no text.
pub uninterp spec fn primary_ascii(attributes: exif::Exif, group: TagGroup, number: u16) -> Option<
    Seq<u8>,
>;

/// The first unsigned integer of an attribute of the primary image; `None`
/// where the attribute is absent or holds no unsigned integers.
pub uninterp spec fn primary_uint(attributes: exif::Exif, group: TagGroup, number: u16) -> Option<
    u32,
>;

/// How an attribute of the primary image is shown; `None` where the
/// attribute is absent.
pub uninterp spec fn primary_display(attributes: exif::Exif, group: TagGroup, number: u16) -> Option<
    Seq<char>,
>;

/// The pattern-free rest of a text: `text` without the character `gone`.
pub open spec fn without(text: Seq<char>, gone: char) -> Seq<char> {
    text.filter(|c: char| c != gone)
}

/// Reads the EXIF attributes of an original with
/// `exif::Reader::read_from_container`. Trusted: the result is what the
/// crate reads from the bytes, and an error of the crate is reported as
/// `None`.
#[verifier::external_body]
fn read_container(bytes: &[u8]) -> (read: Option<ExifData>)
    ensures
        match read {
            Some(data) => exif_attributes(bytes@) == Some(data.attributes),
            None => exif_attributes(bytes@) is None,
        },
{
    let mut cursor = std::io::Cursor::new(bytes);
    let attributes = exif::Reader::new().read_from_container(&mut cursor).ok()?;
    Some(ExifData { attributes })
}

/// Reads the rationals of an attribute of the primary image with
/// `exif::Exif::get_field`. Trusted: the result is what the attribute
/// holds.
#[verifier::external_body]
fn field_rationals(exif: &ExifData, group: TagGroup, number: u16) -> (values: Option<Vec<Rational>>)
    ensures
        match values {
            Some(v) => primary_rationals(exif.attributes, group, number) == Some(v@),
            None => primary_rationals(exif.attributes, group, number) is None,
        },
{
    let context = match group {
        TagGroup::Tiff => exif::Context::Tiff,
        TagGroup::Exif => exif::Context::Exif,
        TagGroup::Gps => exif::Context::Gps,
    };
    match &exif.attributes.get_field(exif::Tag(context, number), exif::In::PRIMARY)?.value {
        exif::Value::Rational(v) => Some(
            v.iter().map(|r| Rational { num: r.num, denom: r.denom }).collect(),
        ),
        _ => None,
    }
}

/// Reads the first text of an attribute of the primary image with
/// `exif::Exif::get_field`. Trusted: the result is what the attribute
/// holds.
#[verifier::external_body]
fn field_ascii(exif: &ExifData, group: TagGroup, number: u16) -> (text: Option<Vec<u8>>)
    ensures
        match text {
            Some(t) => primary_ascii(exif.attributes, group, number) == Some(t@),
            None => primary_ascii(exif.attributes, group, number) is None,
        },
{
    let context = match group {
        TagGroup::Tiff => exif::Context::Tiff,
        TagGroup::Exif => exif::Context::Exif,
        TagGroup::Gps => exif::Context::Gps,
    };
    match &exif.attributes.get_field(exif::Tag(context, number), exif::In::PRIMARY)?.value {
        exif::Value::Ascii(v) => v.first().cloned(),
        _ => None,
    }
}

/// Reads the first unsigned integer of an attribute of the primary image
/// with `exif::Exif::get_field` and `exif::Value::get_uint`. Trusted: the
/// result is what the attribute holds.
#[verifier::external_body]
fn field_uint(exif: &ExifData, group: TagGroup, number: u16) -> (value: Option<u32>)
    ensures
        value == primary_uint(exif.attributes, group, number),
{
    let context = match group {
        TagGroup::Tiff => exif::Context::Tiff,
        TagGroup::Exif => exif::Context::Exif,
        TagGroup::Gps => exif::Context::Gps,
    };
    exif.attributes.get_field(exif::Tag(context, number), exif::In::PRIMARY)?.value.get_uint(0)
}

/// Writes an attribute of the primary image as it is shown, with
/// `exif::Exif::get_field` and `exif::Value::display_as`. Trusted: the
/// result is that text.
#[verifier::external_body]
fn field_display(exif: &ExifData, group: TagGroup, number: u16) -> (text: Option<String>)
    ensures
        match text {
            Some(t) => primary_display(exif.attributes, group, number) == Some(t@),
            None => primary_display(exif.attributes, group, number) is None,
        },
{
    let context = match group {
        TagGroup::Tiff => exif::Context::Tiff,
        TagGroup::Exif => exif::Context::Exif,
        TagGroup::Gps => exif::Context::Gps,
    };
    let field = exif.attributes.get_field(exif::Tag(context, number), exif::In::PRIMARY)?;
    Some(field.value.display_as(field.tag).to_string())
}

/// Removes every occurrence of a character from a text with
/// `str::replace`. Trusted: the result is the text without that character.
#[verifier::external_body]
fn remove_char(text: &str, gone: char) -> (rest: String)
    ensures
        rest@ == without(text@, gone),
{
    text.replace(gone, "")
}

/// The coordinate that three rationals and a hemisphere denote: degrees,
/// minutes and seconds, negated where the hemisphere is the letter
/// `negative`. No coordinate without exactly three rationals.
pub open spec fn coordinate_of(
    values: Option<Seq<Rational>>,
    hemisphere: Option<Seq<u8>>,
    negative: u8,
) -> Option<Coordinate> {
    match values {
        Some(v) => if v.len() == 3 {
            Some(
                Coordinate {
                    degrees: v[0],
                    minutes: v[1],
                    seconds: v[2],
                    negative: hemisphere == Some(seq![negative]),
                },
            )
        } else {
            None
        },
        None => None,
    }
}

/// Makes a coordinate of the rationals and the hemisphere that were read.
pub fn coordinate(values: Option<Vec<Rational>>, hemisphere: Option<Vec<u8>>, negative: u8) -> (c:
    Option<Coordinate>)
    ensures
        c == coordinate_of(
            match values {
                Some(v) => Some(v@),
                None => None,
            },
            match hemisphere {
                Some(h) => Some(h@),
                None => None,
            },
            negative,
        ),
{
    let values = match values {
        Some(v) => v,
        None => return None,
    };
    if values.len() != 3 {
        return None;
    }
    let is_negative = match hemisphere {
        Some(h) => {
            let same = h.len() == 1 && h[0] == negative;
            proof {
                if same {
                    assert(h@ =~= seq![negative]);
                } else if h@.len() == 1 {
                    assert(h@[0] != seq![negative][0]);
                }
            }
            same
        },
        None => false,
    };
    Some(
        Coordinate {
            degrees: values[0],
            minutes: values[1],
            seconds: values[2],
            negative: is_negative,
        },
    )
}

/// The signed 32-bit integer with the bits of `value`.
pub open spec fn as_signed(value: u32) -> i32 {
    if value <= i32::MAX {
        value as i32
    } else {
        (value - 4294967296) as i32
    }
}

/// Reads an unsigned 32-bit integer as a signed one with the same bits.
pub fn to_signed(value: u32) -> (signed: i32)
    ensures
        signed == as_signed(value),
{
    if value <= 2147483647 {
        value as i32
    } else {
        (value as i64 - 4294967296) as i32
    }
}

/// The number of the attribute that holds the latitude's hemisphere.
pub const GPS_LATITUDE_REF: u16 = 1;

/// The number of the attribute that holds the latitude.
pub const GPS_LATITUDE: u16 = 2;

/// The number of the attribute that holds the longitude's hemisphere.
pub const GPS_LONGITUDE_REF: u16 = 3;

/// The number of the attribute that holds the longitude.
pub const GPS_LONGITUDE: u16 = 4;

/// The number of the attribute that holds the width.
pub const IMAGE_WIDTH: u16 = 256;

/// The number of the attribute that holds the height.
pub const IMAGE_LENGTH: u16 = 257;

/// The number of the attribute that holds the maker of the camera.
pub const MAKE: u16 = 271;

/// The number of the attribute that holds the model of the camera.
pub const MODEL: u16 = 272;

/// The number of the attribute that holds the orientation.
pub const ORIENTATION: u16 = 274;

/// The number of the attribute that holds the exposure time.
pub const EXPOSURE_TIME: u16 = 33434;

/// The number of the attribute that holds the F-number.
pub const FNUMBER: u16 = 33437;

/// The number of the attribute that holds the sensitivity.
pub const PHOTOGRAPHIC_SENSITIVITY: u16 = 34855;

/// How an optional unsigned integer is filed.
pub open spec fn signed_of(value: Option<u32>) -> Option<i32> {
    match value {
        Some(v) => Some(as_signed(v)),
        None => None,
    }
}

/// How an optional text is filed where quotes are dropped.
pub open spec fn unquoted(text: Option<Seq<char>>) -> Option<Seq<char>> {
    match text {
        Some(t) => Some(without(t, '"')),
        None => None,
    }
}

/// Reads the EXIF attributes of an original.
pub fn read_exif(bytes: &[u8]) -> (read: Option<ExifData>)
    ensures
        match read {
            Some(data) => exif_attributes(bytes@) == Some(data.attributes),
            None => exif_attributes(bytes@) is None,
        },
{
    read_container(bytes)
}

/// The longitude: west is negative.
pub fn extract_longitude(exif: &ExifData) -> (longitude: Option<Coordinate>)
    ensures
        longitude == coordinate_of(
            primary_rationals(exif.attributes, TagGroup::Gps, GPS_LONGITUDE),
            primary_ascii(exif.attributes, TagGroup::Gps, GPS_LONGITUDE_REF),
            'W' as u8,
        ),
{
    coordinate(
        field_rationals(exif, TagGroup::Gps, GPS_LONGITUDE),
        field_ascii(exif, TagGroup::Gps, GPS_LONGITUDE_REF),
        87u8,
    )
}

/// The latitude: south is negative.
pub fn extract_latitude(exif: &ExifData) -> (latitude: Option<Coordinate>)
    ensures
        latitude == coordinate_of(
            primary_rationals(exif.attributes, TagGroup::Gps, GPS_LATITUDE),
            primary_ascii(exif.attributes, TagGroup::Gps, GPS_LATITUDE_REF),
            'S' as u8,
        ),
{
    coordinate(
        field_rationals(exif, TagGroup::Gps, GPS_LATITUDE),
        field_ascii(exif, TagGroup::Gps, GPS_LATITUDE_REF),
        83u8,
    )
}

fn extract_signed(exif: &ExifData, number: u16) -> (value: Option<i32>)
    ensures
        value == signed_of(primary_uint(exif.attributes, TagGroup::Tiff, number)),
{
    match field_uint(exif, TagGroup::Tiff, number) {
        Some(v) => Some(to_signed(v)),
        None => None,
    }
}

/// The width of the image in pixels.
pub fn extract_image_width(exif: &ExifData) -> (width: Option<i32>)
    ensures
        width == signed_of(primary_uint(exif.attributes, TagGroup::Tiff, IMAGE_WIDTH)),
{
    extract_signed(exif, IMAGE_WIDTH)
}

/// The height of the image in pixels.
pub fn extract_image_length(exif: &ExifData) -> (length: Option<i32>)
    ensures
        length == signed_of(primary_uint(exif.attributes, TagGroup::Tiff, IMAGE_LENGTH)),
{
    extract_signed(exif, IMAGE_LENGTH)
}

/// The orientation of the image.
pub fn extract_orientation(exif: &ExifData) -> (orientation: Option<i32>)
    ensures
        orientation == signed_of(primary_uint(exif.attributes, TagGroup::Tiff, ORIENTATION)),
{
    extract_signed(exif, ORIENTATION)
}

fn extract_unquoted(exif: &ExifData, number: u16) -> (text: Option<String>)
    ensures
        text_of(text) == unquoted(primary_display(exif.attributes, TagGroup::Tiff, number)),
{
    match field_display(exif, TagGroup::Tiff, number) {
        Some(shown) => Some(remove_char(shown.as_str(), '"')),
        None => None,
    }
}

/// The maker of the camera, as it is shown, without quotes.
pub fn extract_make(exif: &ExifData) -> (make: Option<String>)
    ensures
        text_of(make) == unquoted(primary_display(exif.attributes, TagGroup::Tiff, MAKE)),
{
    extract_unquoted(exif, MAKE)
}

/// The model of the camera, as it is shown, without quotes.
pub fn extract_model(exif: &ExifData) -> (model: Option<String>)
    ensures
        text_of(model) == unquoted(primary_display(exif.attributes, TagGroup::Tiff, MODEL)),
{
    extract_unquoted(exif, MODEL)
}

/// The F-number, as it is shown.
pub fn extract_fnumber(exif: &ExifData) -> (fnumber: Option<String>)
    ensures
        text_of(fnumber) == primary_display(exif.attributes, TagGroup::Exif, FNUMBER),
{
    field_display(exif, TagGroup::Exif, FNUMBER)
}

/// The exposure time, as it is shown.
pub fn extract_exposure_time(exif: &ExifData) -> (time: Option<String>)
    ensures
        text_of(time) == primary_display(exif.attributes, TagGroup::Exif, EXPOSURE_TIME),
{
    field_display(exif, TagGroup::Exif, EXPOSURE_TIME)
}

/// The sensitivity, as it is shown.
pub fn extract_photographic_sensitivity(exif: &ExifData) -> (sensitivity: Option<String>)
    ensures
        text_of(sensitivity) == primary_display(
            exif.attributes,
            TagGroup::Exif,
            PHOTOGRAPHIC_SENSITIVITY,
        ),
{
    field_display(exif, TagGroup::Exif, PHOTOGRAPHIC_SENSITIVITY)
}

/// Whether `metadata` is what the attributes say.
pub open spec fn describes(metadata: MediaMetadata, attributes: exif::Exif) -> bool {
    &&& metadata.longitude == coordinate_of(
        primary_rationals(attributes, TagGroup::Gps, GPS_LONGITUDE),
        primary_ascii(attributes, TagGroup::Gps, GPS_LONGITUDE_REF),
        'W' as u8,
    )
    &&& metadata.latitude == coordinate_of(
        primary_rationals(attributes, TagGroup::Gps, GPS_LATITUDE),
        primary_ascii(attributes, TagGroup::Gps, GPS_LATITUDE_REF),
        'S' as u8,
    )
    &&& metadata.image_width == signed_of(primary_uint(attributes, TagGroup::Tiff, IMAGE_WIDTH))
    &&& metadata.image_length == signed_of(primary_uint(attributes, TagGroup::Tiff, IMAGE_LENGTH))
    &&& metadata.orientation == signed_of(primary_uint(attributes, TagGroup::Tiff, ORIENTATION))
    &&& text_of(metadata.make) == unquoted(primary_display(attributes, TagGroup::Tiff, MAKE))
    &&& text_of(metadata.model) == unquoted(primary_display(attributes, TagGroup::Tiff, MODEL))
    &&& text_of(metadata.fnumber) == primary_display(attributes, TagGroup::Exif, FNUMBER)
    &&& text_of(metadata.exposure_time) == primary_display(
        attributes,
        TagGroup::Exif,
        EXPOSURE_TIME,
    )
    &&& text_of(metadata.photographic_sensitivity) == primary_display(
        attributes,
        TagGroup::Exif,
        PHOTOGRAPHIC_SENSITIVITY,
    )
}

/// Collects the camera metadata from the attributes of an original.
pub fn extract_metadata(exif: &ExifData) -> (metadata: MediaMetadata)
    ensures
        describes(metadata, exif.attributes),
{
    MediaMetadata {
        longitude: extract_longitude(exif),
        latitude: extract_latitude(exif),
        image_width: extract_image_width(exif),
        image_length: extract_image_length(exif),
        make: extract_make(exif),
        model: extract_model(exif),
        fnumber: extract_fnumber(exif),
        exposure_time: extract_exposure_time(exif),
        photographic_sensitivity: extract_photographic_sensitivity(exif),
        orientation: extract_orientation(exif),
    }
}

/// How the metadata worker answers a message, given the original that was
/// fetched for it (`None`: it could not be fetched). A message that names
/// no media, and an original without readable attributes, can never be
/// handled. An original that could not be fetched is tried again. Else the
/// metadata is filed and the message is done.
pub open spec fn metadata_reply(payload: Seq<u8>, original: Option<Seq<u8>>) -> Reply {
    if media_id_of(payload) is None {
        Reply::Term
    } else {
        match original {
            None => Reply::Nak,
            Some(bytes) => if exif_readable(bytes) {
                Reply::Ack
            } else {
                Reply::Term
            },
        }
    }
}

/// Handles a message of the metadata worker: reads the attributes of the
/// original and files them with the media, stamped with `now`.
pub fn handle_request(catalog: &mut DbManager, payload: &[u8], original: Option<&[u8]>, now: i64) -> (reply:
    Reply)
    requires
        old(catalog).wf(),
    ensures
        final(catalog).wf(),
        final(catalog).same_but_media(old(catalog)),
        reply == metadata_reply(
            payload@,
            match original {
                Some(bytes) => Some(bytes@),
                None => None,
            },
        ),
        reply != Reply::Ack ==> final(catalog).media@ == old(catalog).media@,
        reply == Reply::Ack ==> {
            ||| final(catalog).media@ == old(catalog).media@ && !crate::catalog::has_id(
                old(catalog).media@,
                media_id_of(payload@)->0,
            )
            ||| exists|at: int|
                {
                    &&& #[trigger] crate::catalog::changed_at(
                        old(catalog).media@,
                        final(catalog).media@,
                        at,
                    )
                    &&& old(catalog).media@[at].id@ == media_id_of(payload@)->0
                    &&& original matches Some(bytes) && exif_attributes(bytes@) matches Some(
                        attributes,
                    ) && describes(final(catalog).media@[at].metadata, attributes)
                    &&& final(catalog).media@[at].last_modified_at == now
                    &&& final(catalog).media@[at].deleted == old(catalog).media@[at].deleted
                    &&& final(catalog).media@[at].preview_id == old(catalog).media@[at].preview_id
                }
        },
{
    let media_id = match message_media_id(payload) {
        Some(id) => id,
        None => return Reply::Term,
    };
    let bytes = match original {
        Some(bytes) => bytes,
        None => return Reply::Nak,
    };
    let exif = match read_exif(bytes) {
        Some(exif) => exif,
        None => return Reply::Term,
    };
    let metadata = extract_metadata(&exif);
    let _ = catalog.set_media_metadata(media_id.as_str(), metadata, now);
    Reply::Ack
}

} // verus!
