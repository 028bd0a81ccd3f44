//! One source photograph and what is known of it: the facts its EXIF data
//! holds and the overrides of its sidecar file.

use crate::datetime::{local_now, parse_from_str, parsed_date_time, DateTime};
use crate::exif_data::{
    display_value, display_value_with_unit, exif_fields, parsed_exif, read_from_container,
    ExifTag,
};
use crate::paths::{file_stem, path_stem, path_with_extension, text_of, with_extension};
use vstd::prelude::*;
use vstd::string::*;

verus! {

/// What stands in place of an EXIF fact whose tag is absent.
pub const UNKNOWN: &'static str = "Unknown";

/// The pattern in which the time of capture is written.
pub const DATE_TIME_FORMAT: &'static str = "%Y-%m-%d %H:%M:%S";

/// What is put before the value of the aperture.
pub const APERTURE_PREFIX: &'static str = "f/";

/// The extension of a metadata file.
pub const METADATA_EXTENSION: &'static str = "yaml";

/// The facts about the capture of a photograph, each as the text to show, or
/// `UNKNOWN` where its tag is absent.
#[derive(Debug)]
pub struct ExifInfo {
    pub camera: String,
    pub iso: String,
    pub aperture: String,
    pub exposure: String,
    pub focal_length: String,
    pub date_time: Option<DateTime>,
}

/// The mathematical model of an `ExifInfo`.
pub struct ExifInfoView {
    pub camera: Seq<char>,
    pub iso: Seq<char>,
    pub aperture: Seq<char>,
    pub exposure: Seq<char>,
    pub focal_length: Seq<char>,
    pub date_time: Option<DateTime>,
}

impl View for ExifInfo {
    type V = ExifInfoView;

    open spec fn view(&self) -> ExifInfoView {
        ExifInfoView {
            camera: self.camera@,
            iso: self.iso@,
            aperture: self.aperture@,
            exposure: self.exposure@,
            focal_length: self.focal_length@,
            date_time: self.date_time,
        }
    }
}

/// What the author of a gallery says of a photograph in its sidecar file.
#[derive(Debug, Clone)]
pub struct MetaInfo {
    pub author: Option<String>,
    pub title: Option<String>,
    pub place: Option<String>,
}

/// The mathematical model of a `MetaInfo`.
pub struct MetaInfoView {
    pub author: Option<Seq<char>>,
    pub title: Option<Seq<char>>,
    pub place: Option<Seq<char>>,
}

impl View for MetaInfo {
    type V = MetaInfoView;

    open spec fn view(&self) -> MetaInfoView {
        MetaInfoView {
            author: text_of(self.author),
            title: text_of(self.title),
            place: text_of(self.place),
        }
    }
}

impl Default for MetaInfo {
    /// A sidecar that overrides nothing.
    fn default() -> (meta: MetaInfo)
        ensures
            meta@ == (MetaInfoView { author: None, title: None, place: None }),
    {
        MetaInfo { author: None, title: None, place: None }
    }
}

/// One source photograph.
#[derive(Debug)]
pub struct Image {
    pub source_path: String,
    pub base_name: String,
    pub exif_info: Option<ExifInfo>,
    pub meta_info: Option<MetaInfo>,
}

/// The mathematical model of an `Image`.
pub struct ImageView {
    pub source_path: Seq<char>,
    pub base_name: Seq<char>,
    pub exif_info: Option<ExifInfoView>,
    pub meta_info: Option<MetaInfoView>,
}

/// The model of optional EXIF facts.
pub open spec fn exif_view_of(info: Option<ExifInfo>) -> Option<ExifInfoView> {
    match info {
        Some(i) => Some(i@),
        None => None,
    }
}

/// The model of an optional sidecar.
pub open spec fn meta_view_of(meta: Option<MetaInfo>) -> Option<MetaInfoView> {
    match meta {
        Some(m) => Some(m@),
        None => None,
    }
}

impl View for Image {
    type V = ImageView;

    open spec fn view(&self) -> ImageView {
        ImageView {
            source_path: self.source_path@,
            base_name: self.base_name@,
            exif_info: exif_view_of(self.exif_info),
            meta_info: meta_view_of(self.meta_info),
        }
    }
}

impl ImageView {
    /// Whether the photograph is called by the stem of its file.
    pub open spec fn is_named_by_path(self) -> bool {
        path_stem(self.source_path) == Some(self.base_name)
    }
}

/// The text to show for a tag: with no `prefix`, the value of its field with
/// its unit; with one, the prefix and then the plain value; `UNKNOWN` where
/// `source` holds no field of that tag.
pub open spec fn tag_text(source: exif::Exif, tag: ExifTag, prefix: Option<Seq<char>>) -> Seq<
    char,
> {
    if exif_fields(source).dom().contains(tag) {
        match prefix {
            None => exif_fields(source)[tag].with_unit,
            Some(p) => p + exif_fields(source)[tag].plain,
        }
    } else {
        UNKNOWN@
    }
}

/// Resolves one tag to the text to show for it.
pub fn extract_exif_tag(source: &exif::Exif, tag: ExifTag, prefix: Option<&str>) -> (text: String)
    ensures
        text@ == tag_text(
            *source,
            tag,
            match prefix {
                Some(p) => Some(p@),
                None => None,
            },
        ),
{
    match prefix {
        None => match display_value_with_unit(source, tag) {
            None => UNKNOWN.to_owned(),
            Some(value) => value,
        },
        Some(p) => match display_value(source, tag) {
            None => UNKNOWN.to_owned(),
            Some(value) => p.to_owned().concat(value.as_str()),
        },
    }
}

/// The point in time that the field of `tag` holds: what its plain text
/// reads as under `DATE_TIME_FORMAT`, and `None` where the field is absent
/// or its text does not follow the pattern.
pub open spec fn tag_date_time(source: exif::Exif, tag: ExifTag) -> Option<DateTime> {
    if exif_fields(source).dom().contains(tag) {
        parsed_date_time(exif_fields(source)[tag].plain, DATE_TIME_FORMAT@)
    } else {
        None
    }
}

/// Reads the point in time that the field of `tag` holds.
pub fn parse_date_time(source: &exif::Exif, tag: ExifTag) -> (time: Option<DateTime>)
    ensures
        time == tag_date_time(*source, tag),
        time matches Some(t) ==> t.is_valid(),
{
    match display_value(source, tag) {
        None => None,
        Some(value) => match parse_from_str(value.as_str(), DATE_TIME_FORMAT) {
            Ok(time) => Some(time),
            Err(_) => None,
        },
    }
}

/// The facts that parsed EXIF data gives: each tag resolved on its own.
pub open spec fn exif_info_of(source: exif::Exif) -> ExifInfoView {
    ExifInfoView {
        camera: tag_text(source, ExifTag::Model, None),
        iso: tag_text(source, ExifTag::IsoSpeed, None),
        aperture: tag_text(source, ExifTag::ApertureValue, Some(APERTURE_PREFIX@)),
        exposure: tag_text(source, ExifTag::ShutterSpeedValue, None),
        focal_length: tag_text(source, ExifTag::FocalLength, None),
        date_time: tag_date_time(source, ExifTag::DateTimeOriginal),
    }
}

/// Collects the facts about the capture from parsed EXIF data.
pub fn read_exif_info(source: &exif::Exif) -> (info: ExifInfo)
    ensures
        info@ == exif_info_of(*source),
{
    ExifInfo {
        camera: extract_exif_tag(source, ExifTag::Model, None),
        iso: extract_exif_tag(source, ExifTag::IsoSpeed, None),
        aperture: extract_exif_tag(source, ExifTag::ApertureValue, Some(APERTURE_PREFIX)),
        exposure: extract_exif_tag(source, ExifTag::ShutterSpeedValue, None),
        focal_length: extract_exif_tag(source, ExifTag::FocalLength, None),
        date_time: parse_date_time(source, ExifTag::DateTimeOriginal),
    }
}

/// The facts that the bytes of an image file give: those of its EXIF data,
/// and none where it holds no EXIF data that can be parsed.
pub open spec fn extracted_exif(data: Seq<u8>) -> Option<ExifInfoView> {
    match parsed_exif(data) {
        Some(source) => Some(exif_info_of(source)),
        None => None,
    }
}

/// Extracts the facts about the capture from the bytes of an image file.
///
/// Where the bytes hold no EXIF data that can be parsed, there are no facts:
/// that is no error.
pub fn extract_exif_info(data: &[u8]) -> (info: Option<ExifInfo>)
    ensures
        exif_view_of(info) == extracted_exif(data@),
{
    match read_from_container(data) {
        Ok(source) => Some(read_exif_info(&source)),
        Err(_) => None,
    }
}

/// Whether `text` begins with `prefix`.
pub open spec fn begins_with(text: Seq<char>, prefix: Seq<char>) -> bool {
    prefix.len() <= text.len() && text.subrange(0, prefix.len() as int) == prefix
}

/// Each textual fact of extracted EXIF data is either the text of a field
/// that is present or `UNKNOWN`, tag by tag; and where the aperture is
/// present, its text begins with `f/`.
pub proof fn lemma_extracted_facts(source: exif::Exif)
    ensures
        ({
            let info = exif_info_of(source);
            let fields = exif_fields(source);
            &&& !fields.dom().contains(ExifTag::Model) ==> info.camera == UNKNOWN@
            &&& !fields.dom().contains(ExifTag::IsoSpeed) ==> info.iso == UNKNOWN@
            &&& !fields.dom().contains(ExifTag::ApertureValue) ==> info.aperture == UNKNOWN@
            &&& !fields.dom().contains(ExifTag::ShutterSpeedValue) ==> info.exposure == UNKNOWN@
            &&& !fields.dom().contains(ExifTag::FocalLength) ==> info.focal_length == UNKNOWN@
            &&& !fields.dom().contains(ExifTag::DateTimeOriginal) ==> info.date_time is None
            &&& fields.dom().contains(ExifTag::ApertureValue) ==> begins_with(
                info.aperture,
                seq!['f', '/'],
            )
        }),
{
    reveal_strlit("f/");
    if exif_fields(source).dom().contains(ExifTag::ApertureValue) {
        let value = exif_fields(source)[ExifTag::ApertureValue].plain;
        assert((APERTURE_PREFIX@ + value).subrange(0, 2) =~= seq!['f', '/']);
    }
}

impl ExifInfo {
    /// The facts of a photograph of which nothing is known: every text is
    /// `UNKNOWN`, and there is no time of capture.
    pub open spec fn unknown_view() -> ExifInfoView {
        ExifInfoView {
            camera: UNKNOWN@,
            iso: UNKNOWN@,
            aperture: UNKNOWN@,
            exposure: UNKNOWN@,
            focal_length: UNKNOWN@,
            date_time: None,
        }
    }

    /// Makes the facts of a photograph of which nothing is known.
    pub fn unknown() -> (info: ExifInfo)
        ensures
            info@ == ExifInfo::unknown_view(),
    {
        ExifInfo {
            camera: UNKNOWN.to_owned(),
            iso: UNKNOWN.to_owned(),
            aperture: UNKNOWN.to_owned(),
            exposure: UNKNOWN.to_owned(),
            focal_length: UNKNOWN.to_owned(),
            date_time: None,
        }
    }

    /// Copies the facts.
    pub fn duplicate(&self) -> (copy: ExifInfo)
        ensures
            copy@ == self@,
    {
        ExifInfo {
            camera: self.camera.clone(),
            iso: self.iso.clone(),
            aperture: self.aperture.clone(),
            exposure: self.exposure.clone(),
            focal_length: self.focal_length.clone(),
            date_time: self.date_time,
        }
    }

    /// The one line that `to_text` writes for these facts.
    pub open spec fn text(self) -> Seq<char> {
        self.camera@ + ", ISO "@ + self.iso@ + ", f/"@ + self.aperture@ + ", "@ + self.exposure@
            + " s, "@ + self.focal_length@ + " mm"@
    }

    /// Writes the facts in one line for a reader.
    pub fn to_text(&self) -> (line: String)
        ensures
            line@ == self.text(),
    {
        let mut line = self.camera.clone();
        line.append(", ISO ");
        line.append(self.iso.as_str());
        line.append(", f/");
        line.append(self.aperture.as_str());
        line.append(", ");
        line.append(self.exposure.as_str());
        line.append(" s, ");
        line.append(self.focal_length.as_str());
        line.append(" mm");
        line
    }
}

/// What was found where a metadata file is looked for.
#[derive(Debug)]
pub enum MetaFile<T> {
    /// No file stands there.
    Absent,
    /// The file was read as metadata.
    Parsed(T),
    /// The file exists and cannot be read as metadata.
    Malformed,
}

/// The file that the author of a gallery writes beside a photograph could
/// not be read as metadata.
#[derive(Debug, Clone, Copy, PartialEq, Eq, Structural)]
pub struct Malformed;

/// Where the sidecar file of a photograph stands: beside it, under the same
/// name with the extension of metadata files.
pub fn sidecar_path(source_path: &str) -> (path: String)
    ensures
        path@ == path_with_extension(source_path@, METADATA_EXTENSION@),
{
    proof {
        reveal_strlit("yaml");
    }
    with_extension(source_path, METADATA_EXTENSION)
}

/// What a sidecar file says of its photograph: nothing where no file stands
/// there, which is no error; an error where the file cannot be read as
/// metadata.
pub open spec fn sidecar_outcome(file: MetaFile<Option<MetaInfo>>) -> Result<
    Option<MetaInfoView>,
    Malformed,
> {
    match file {
        MetaFile::Absent => Ok(None),
        MetaFile::Parsed(found) => Ok(meta_view_of(found)),
        MetaFile::Malformed => Err(Malformed),
    }
}

/// Takes what a sidecar file says of its photograph from what was found in
/// its place.
pub fn parse_image_yaml(file: &MetaFile<Option<MetaInfo>>) -> (meta: Result<
    Option<MetaInfo>,
    Malformed,
>)
    ensures
        match meta {
            Ok(found) => sidecar_outcome(*file) == Ok::<Option<MetaInfoView>, Malformed>(
                meta_view_of(found),
            ),
            Err(error) => sidecar_outcome(*file) == Err::<Option<MetaInfoView>, Malformed>(error),
        },
{
    match file {
        MetaFile::Absent => Ok(None),
        MetaFile::Parsed(None) => Ok(None),
        MetaFile::Parsed(Some(found)) => Ok(Some(found.duplicate())),
        MetaFile::Malformed => Err(Malformed),
    }
}

/// Copies an optional text.
pub fn copy_text(text: &Option<String>) -> (copy: Option<String>)
    ensures
        text_of(copy) == text_of(*text),
{
    match text {
        Some(t) => Some(t.clone()),
        None => None,
    }
}

impl MetaInfo {
    /// Copies the overrides.
    pub fn duplicate(&self) -> (copy: MetaInfo)
        ensures
            copy@ == self@,
    {
        MetaInfo {
            author: copy_text(&self.author),
            title: copy_text(&self.title),
            place: copy_text(&self.place),
        }
    }
}

impl Image {
    /// Makes the entry of one photograph from its path, the bytes of its
    /// file and what its sidecar says.
    pub fn from_source_path(
        source_path: &str,
        data: &[u8],
        meta_info: Option<MetaInfo>,
    ) -> (image: Image)
        requires
            path_stem(source_path@) is Some,
        ensures
            image@ == (ImageView {
                source_path: source_path@,
                base_name: path_stem(source_path@)->0,
                exif_info: extracted_exif(data@),
                meta_info: meta_view_of(meta_info),
            }),
            image@.is_named_by_path(),
    {
        let base_name = match file_stem(source_path) {
            Some(stem) => stem,
            None => String::new(),
        };
        Image {
            source_path: source_path.to_owned(),
            base_name,
            exif_info: extract_exif_info(data),
            meta_info,
        }
    }

    /// The time of capture where the EXIF data gives one, and else
    /// `fallback`.
    pub open spec fn date_time_or_spec(self, fallback: DateTime) -> DateTime {
        match self.capture_time() {
            Some(time) => time,
            None => fallback,
        }
    }

    /// The time of capture where the EXIF data gives one, and else
    /// `fallback`.
    pub fn date_time_or(&self, fallback: DateTime) -> (time: DateTime)
        ensures
            time == self.date_time_or_spec(fallback),
    {
        match &self.exif_info {
            Some(info) => match info.date_time {
                Some(time) => time,
                None => fallback,
            },
            None => fallback,
        }
    }

    /// The time of capture that the EXIF data gives, if it gives one.
    pub open spec fn capture_time(self) -> Option<DateTime> {
        match self.exif_info {
            Some(info) => info.date_time,
            None => None,
        }
    }

    /// The time of capture where the EXIF data gives one, and else the
    /// local time at the moment of the call.
    pub fn get_date_time(&self) -> (time: DateTime)
        ensures
            match self.capture_time() {
                Some(captured) => time == captured,
                None => time.is_valid(),
            },
    {
        if let Some(info) = &self.exif_info {
            if let Some(time) = info.date_time {
                return time;
            }
        }
        local_now()
    }

    /// The title that the sidecar gives the photograph, if it gives one.
    pub open spec fn title(self) -> Option<Seq<char>> {
        match self@.meta_info {
            Some(meta) => meta.title,
            None => None,
        }
    }

    /// The title that the sidecar gives the photograph, if it gives one.
    pub fn get_title(&self) -> (title: Option<String>)
        ensures
            text_of(title) == self.title(),
    {
        match &self.meta_info {
            Some(meta) => copy_text(&meta.title),
            None => None,
        }
    }
}

} // verus!
