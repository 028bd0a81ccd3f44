//! Parsed EXIF data: the fields that the gallery reads, and the calls into
//! the EXIF parser that hand them out.

use vstd::prelude::*;

verus! {

#[verifier::external_type_specification]
#[verifier::external_body]
pub struct ExExif(exif::Exif);

#[verifier::external_type_specification]
#[verifier::external_body]
pub struct ExExifError(exif::Error);

/// The EXIF fields that the gallery reads.
#[derive(Debug, Clone, Copy, PartialEq, Eq, Structural)]
pub enum ExifTag {
    Model,
    IsoSpeed,
    ApertureValue,
    ShutterSpeedValue,
    FocalLength,
    DateTimeOriginal,
}

/// The two texts that the parser displays for the value of a field.
pub struct FieldText {
    /// The value alone.
    pub plain: Seq<char>,
    /// The value with the unit of its tag.
    pub with_unit: Seq<char>,
}

/// What parsed EXIF data holds for the primary image: for each tag that is
/// present, the texts of its field.
pub uninterp spec fn exif_fields(source: exif::Exif) -> Map<ExifTag, FieldText>;

/// What `exif::Reader::read_from_container` finds in the bytes of an image
/// file; `None` where it reports an error.
pub uninterp spec fn parsed_exif(data: Seq<u8>) -> Option<exif::Exif>;

/// Calls `exif::Reader::read_from_container` on the bytes of a file. Trusted:
/// the outcome is a function of the bytes.
#[verifier::external_body]
pub(crate) fn read_from_container(data: &[u8]) -> (parsed: Result<exif::Exif, exif::Error>)
    ensures
        match parsed {
            Ok(source) => parsed_exif(data@) == Some(source),
            Err(_) => parsed_exif(data@) is None,
        },
{
    exif::Reader::new().read_from_container(&mut std::io::Cursor::new(data))
}

/// Calls `exif::Exif::get_field` for the primary image and
/// `exif::Field::display_value` on what it finds. Trusted: the result is the
/// plain text of the field of `tag`, and `None` where `source` holds no such
/// field.
#[verifier::external_body]
pub(crate) fn display_value(source: &exif::Exif, tag: ExifTag) -> (text: Option<String>)
    ensures
        match text {
            Some(t) => exif_fields(*source).dom().contains(tag) && t@ == exif_fields(
                *source,
            )[tag].plain,
            None => !exif_fields(*source).dom().contains(tag),
        },
{
    let tag = match tag {
        ExifTag::Model => exif::Tag::Model,
        ExifTag::IsoSpeed => exif::Tag::ISOSpeed,
        ExifTag::ApertureValue => exif::Tag::ApertureValue,
        ExifTag::ShutterSpeedValue => exif::Tag::ShutterSpeedValue,
        ExifTag::FocalLength => exif::Tag::FocalLength,
        ExifTag::DateTimeOriginal => exif::Tag::DateTimeOriginal,
    };
    let field = source.get_field(tag, exif::In::PRIMARY);
    field.map(|f| f.display_value().to_string())
}

/// Calls `exif::Exif::get_field` for the primary image and
/// `exif::DisplayValue::with_unit` on what it finds. Trusted: the result is
/// the text, with its unit, of the field of `tag`, and `None` where `source`
/// holds no such field.
#[verifier::external_body]
pub(crate) fn display_value_with_unit(source: &exif::Exif, tag: ExifTag) -> (text: Option<String>)
    ensures
        match text {
            Some(t) => exif_fields(*source).dom().contains(tag) && t@ == exif_fields(
                *source,
            )[tag].with_unit,
            None => !exif_fields(*source).dom().contains(tag),
        },
{
    let tag = match tag {
        ExifTag::Model => exif::Tag::Model,
        ExifTag::IsoSpeed => exif::Tag::ISOSpeed,
        ExifTag::ApertureValue => exif::Tag::ApertureValue,
        ExifTag::ShutterSpeedValue => exif::Tag::ShutterSpeedValue,
        ExifTag::FocalLength => exif::Tag::FocalLength,
        ExifTag::DateTimeOriginal => exif::Tag::DateTimeOriginal,
    };
    let field = source.get_field(tag, exif::In::PRIMARY);
    field.map(|f| f.display_value().with_unit(source).to_string())
}

} // verus!
