//! What a file says about itself: when it was made, and how bright the
//! scene was.

use crate::calendar::{
    naive_parse, parse_naive, reading_time, time_model, unix_time, Timestamp, TimestampModel,
};
use crate::embedded::{container_fields, embedded_fields, EmbeddedField, FieldModel, TagGroup};
use vstd::prelude::*;

verus! {

/// The number, among the Exif tags, of the time at which a picture was taken.
pub const CAPTURE_TIME_TAG: u16 = 0x9003;

/// The number, among the Exif tags, of the brightness of the scene.
pub const BRIGHTNESS_TAG: u16 = 0x9203;

/// The pattern, in chrono's syntax, that a capture time is read by.
pub open spec fn capture_pattern() -> Seq<char> {
    "%Y-%m-%d %H:%M:%S"@
}

/// Whether a field holds the time at which the picture was taken.
pub open spec fn is_capture_time(field: FieldModel) -> bool {
    field.group == TagGroup::Exif && field.number == CAPTURE_TIME_TAG
}

/// Whether a field holds the brightness of the scene.
pub open spec fn is_brightness(field: FieldModel) -> bool {
    field.group == TagGroup::Exif && field.number == BRIGHTNESS_TAG
}

/// What one embedded field contributes to a file's metadata.
#[derive(Clone, Debug, PartialEq, Eq)]
pub enum Finding {
    /// The time at which the picture was taken.
    CaptureTime(Timestamp),
    /// A capture time that cannot be read: its text, and why not.
    Unreadable { raw: String, reason: String },
    /// The brightness of the scene, in display form.
    Brightness(String),
    /// Nothing.
    Unused,
}

/// A finding as a mathematical value.
pub enum FindingModel {
    CaptureTime(TimestampModel),
    Unreadable { raw: Seq<char>, reason: Seq<char> },
    Brightness(Seq<char>),
    Unused,
}

impl View for Finding {
    type V = FindingModel;

    open spec fn view(&self) -> FindingModel {
        match *self {
            Finding::CaptureTime(at) => FindingModel::CaptureTime(at@),
            Finding::Unreadable { raw, reason } => FindingModel::Unreadable {
                raw: raw@,
                reason: reason@,
            },
            Finding::Brightness(text) => FindingModel::Brightness(text@),
            Finding::Unused => FindingModel::Unused,
        }
    }
}

impl DeepView for Finding {
    type V = FindingModel;

    open spec fn deep_view(&self) -> FindingModel {
        self@
    }
}

/// The metadata of one file.
#[derive(Clone, Debug, PartialEq, Eq)]
pub struct FileMeta {
    pub created_at: Timestamp,
    pub brightness: String,
}

/// A file's metadata as a mathematical value.
pub struct FileMetaModel {
    pub created_at: TimestampModel,
    pub brightness: Seq<char>,
}

impl View for FileMeta {
    type V = FileMetaModel;

    open spec fn view(&self) -> FileMetaModel {
        FileMetaModel { created_at: self.created_at@, brightness: self.brightness@ }
    }
}

/// Why a file has no metadata.
#[derive(Clone, Debug, PartialEq, Eq)]
pub enum ExtractError {
    /// The file holds a capture time that cannot be read: its text, and why
    /// not.
    CorruptMetadata { raw: String, reason: String },
    /// The file holds no capture time, and its modification time is out of
    /// the calendar's reach.
    ModifiedTimeOutOfReach,
}

/// An extraction error as a mathematical value.
pub enum ExtractErrorModel {
    CorruptMetadata { raw: Seq<char>, reason: Seq<char> },
    ModifiedTimeOutOfReach,
}

impl View for ExtractError {
    type V = ExtractErrorModel;

    open spec fn view(&self) -> ExtractErrorModel {
        match *self {
            ExtractError::CorruptMetadata { raw, reason } => ExtractErrorModel::CorruptMetadata {
                raw: raw@,
                reason: reason@,
            },
            ExtractError::ModifiedTimeOutOfReach => ExtractErrorModel::ModifiedTimeOutOfReach,
        }
    }
}

/// The outcome of an extraction as a mathematical value.
pub open spec fn outcome_model(outcome: Result<FileMeta, ExtractError>) -> Result<
    FileMetaModel,
    ExtractErrorModel,
> {
    match outcome {
        Ok(meta) => Ok(meta@),
        Err(error) => Err(error@),
    }
}

/// What a field contributes: a capture time is read by `capture_pattern`,
/// a brightness is taken as it is, and every other field is passed over.
pub open spec fn interpretation(field: FieldModel) -> FindingModel {
    if is_capture_time(field) {
        match naive_parse(field.text, capture_pattern()) {
            Ok(reading) => FindingModel::CaptureTime(reading_time(reading)),
            Err(reason) => FindingModel::Unreadable { raw: field.text, reason },
        }
    } else if is_brightness(field) {
        FindingModel::Brightness(field.text)
    } else {
        FindingModel::Unused
    }
}

/// The first unreadable capture time at or after position `from`.
pub open spec fn first_unreadable(findings: Seq<FindingModel>, from: int) -> Option<
    ExtractErrorModel,
>
    decreases findings.len() - from,
{
    if from < 0 || from >= findings.len() {
        None
    } else if let FindingModel::Unreadable { raw, reason } = findings[from] {
        Some(ExtractErrorModel::CorruptMetadata { raw, reason })
    } else {
        first_unreadable(findings, from + 1)
    }
}

/// The last capture time among the first `count` findings.
pub open spec fn last_capture_time(findings: Seq<FindingModel>, count: int) -> Option<
    TimestampModel,
>
    decreases count,
{
    if count <= 0 || count > findings.len() {
        None
    } else if let FindingModel::CaptureTime(at) = findings[count - 1] {
        Some(at)
    } else {
        last_capture_time(findings, count - 1)
    }
}

/// The last brightness among the first `count` findings, or the empty text.
pub open spec fn last_brightness(findings: Seq<FindingModel>, count: int) -> Seq<char>
    decreases count,
{
    if count <= 0 || count > findings.len() {
        Seq::empty()
    } else if let FindingModel::Brightness(text) = findings[count - 1] {
        text
    } else {
        last_brightness(findings, count - 1)
    }
}

/// The metadata that a file's findings and its modification time give.
///
/// An unreadable capture time is an error, the first one if there are
/// several. Otherwise the file was made at the last capture time found, or,
/// where none was found, at `fallback`, which is an error if there is none.
/// The brightness is the last one found, or empty.
pub open spec fn assembled(findings: Seq<FindingModel>, fallback: Option<TimestampModel>) -> Result<
    FileMetaModel,
    ExtractErrorModel,
> {
    let brightness = last_brightness(findings, findings.len() as int);
    if let Some(error) = first_unreadable(findings, 0) {
        Err(error)
    } else if let Some(created_at) = last_capture_time(findings, findings.len() as int) {
        Ok(FileMetaModel { created_at, brightness })
    } else if let Some(created_at) = fallback {
        Ok(FileMetaModel { created_at, brightness })
    } else {
        Err(ExtractErrorModel::ModifiedTimeOutOfReach)
    }
}

/// The findings of a container's fields, one for each field; none where
/// there is no container.
pub open spec fn findings_of(fields: Option<Seq<FieldModel>>) -> Seq<FindingModel> {
    match fields {
        Some(list) => list.map_values(|field: FieldModel| interpretation(field)),
        None => Seq::empty(),
    }
}

/// The metadata of a file with these bytes that was last modified at this
/// count of seconds and nanoseconds since 1970.
pub open spec fn extraction(data: Seq<u8>, seconds: i64, nanoseconds: u32) -> Result<
    FileMetaModel,
    ExtractErrorModel,
> {
    assembled(findings_of(container_fields(data)), unix_time(seconds, nanoseconds))
}

/// Reads what one embedded field contributes.
pub fn interpret(field: &EmbeddedField) -> (finding: Finding)
    ensures
        finding@ == interpretation(field@),
{
    match field.group {
        TagGroup::Exif => {
            if field.number == CAPTURE_TIME_TAG {
                match parse_naive(field.text.as_str(), "%Y-%m-%d %H:%M:%S") {
                    Ok(reading) => Finding::CaptureTime(Timestamp::of_reading(reading)),
                    Err(reason) => Finding::Unreadable { raw: field.text.clone(), reason },
                }
            } else if field.number == BRIGHTNESS_TAG {
                Finding::Brightness(field.text.clone())
            } else {
                Finding::Unused
            }
        },
        _ => Finding::Unused,
    }
}

/// Reads what each field of a container contributes, in order.
pub fn interpret_all(fields: &Vec<EmbeddedField>) -> (findings: Vec<Finding>)
    ensures
        findings.deep_view() == findings_of(Some(fields.deep_view())),
{
    let mut findings: Vec<Finding> = Vec::new();
    let mut i: usize = 0;
    while i < fields.len()
        invariant
            i <= fields.len(),
            findings.len() == i,
            forall|k: int| 0 <= k < i ==> (#[trigger] findings[k])@ == interpretation(fields[k]@),
        decreases fields.len() - i,
    {
        findings.push(interpret(&fields[i]));
        i = i + 1;
    }
    findings
}

/// Puts a file's metadata together from its findings and the time that its
/// modification time stands for, if it stands for one.
pub fn assemble(findings: &Vec<Finding>, fallback: Option<Timestamp>) -> (outcome: Result<
    FileMeta,
    ExtractError,
>)
    ensures
        outcome_model(outcome) == assembled(findings.deep_view(), time_model(fallback)),
{
    let ghost all = findings.deep_view();
    let mut created_at: Option<Timestamp> = None;
    let mut brightness: String = String::new();
    let mut i: usize = 0;
    while i < findings.len()
        invariant
            i <= findings.len(),
            all == findings.deep_view(),
            first_unreadable(all, 0) == first_unreadable(all, i as int),
            time_model(created_at) == last_capture_time(all, i as int),
            brightness@ == last_brightness(all, i as int),
        decreases findings.len() - i,
    {
        match &findings[i] {
            Finding::CaptureTime(at) => {
                created_at = Some(*at);
            },
            Finding::Unreadable { raw, reason } => {
                return Err(
                    ExtractError::CorruptMetadata { raw: raw.clone(), reason: reason.clone() },
                );
            },
            Finding::Brightness(text) => {
                brightness = text.clone();
            },
            Finding::Unused => {},
        }
        i = i + 1;
    }
    match created_at {
        Some(at) => Ok(FileMeta { created_at: at, brightness }),
        None => match fallback {
            Some(at) => Ok(FileMeta { created_at: at, brightness }),
            None => Err(ExtractError::ModifiedTimeOutOfReach),
        },
    }
}

/// Extracts the metadata of a file from its bytes and its modification
/// time, given as a count of seconds and nanoseconds since 1970.
///
/// The capture time and the brightness come from the embedded container,
/// where there is one. Without a capture time the file counts as made when
/// it was last modified, in UTC.
pub fn parse_file(data: &[u8], modified_seconds: i64, modified_nanoseconds: u32) -> (outcome:
    Result<FileMeta, ExtractError>)
    ensures
        outcome_model(outcome) == extraction(data@, modified_seconds, modified_nanoseconds),
{
    let findings = match embedded_fields(data) {
        Some(fields) => interpret_all(&fields),
        None => Vec::new(),
    };
    let fallback = Timestamp::from_unix(modified_seconds, modified_nanoseconds);
    assemble(&findings, fallback)
}

/// Whether a finding says anything about the capture time.
pub open spec fn speaks_of_capture_time(finding: FindingModel) -> bool {
    finding is CaptureTime || finding is Unreadable
}

/// Without a capture time among its findings, a file counts as made at the
/// fallback time; the brightness is not touched by that.
pub proof fn lemma_fallback_without_capture_time(
    findings: Seq<FindingModel>,
    fallback: Option<TimestampModel>,
)
    requires
        forall|i: int| 0 <= i < findings.len() ==> !speaks_of_capture_time(#[trigger] findings[i]),
    ensures
        assembled(findings, fallback) == match fallback {
            Some(created_at) => Ok::<FileMetaModel, ExtractErrorModel>(
                FileMetaModel {
                    created_at,
                    brightness: last_brightness(findings, findings.len() as int),
                },
            ),
            None => Err(ExtractErrorModel::ModifiedTimeOutOfReach),
        },
{
    lemma_nothing_unreadable(findings, 0);
    lemma_no_capture_time(findings, findings.len() as int);
}

proof fn lemma_nothing_unreadable(findings: Seq<FindingModel>, from: int)
    requires
        forall|i: int| 0 <= i < findings.len() ==> !speaks_of_capture_time(#[trigger] findings[i]),
    ensures
        first_unreadable(findings, from) is None,
    decreases findings.len() - from,
{
    if 0 <= from < findings.len() {
        lemma_nothing_unreadable(findings, from + 1);
    }
}

proof fn lemma_no_capture_time(findings: Seq<FindingModel>, count: int)
    requires
        forall|i: int| 0 <= i < findings.len() ==> !speaks_of_capture_time(#[trigger] findings[i]),
    ensures
        last_capture_time(findings, count) is None,
    decreases count,
{
    if 0 < count <= findings.len() {
        lemma_no_capture_time(findings, count - 1);
    }
}

/// A capture time that cannot be read is fatal: the file has no metadata,
/// whatever else it holds and whenever it was modified.
pub proof fn lemma_unreadable_is_fatal(
    findings: Seq<FindingModel>,
    fallback: Option<TimestampModel>,
    at: int,
)
    requires
        0 <= at < findings.len(),
        findings[at] is Unreadable,
    ensures
        assembled(findings, fallback) matches Err(error) && error is CorruptMetadata,
{
    lemma_unreadable_is_found(findings, 0, at);
}

proof fn lemma_unreadable_is_found(findings: Seq<FindingModel>, from: int, at: int)
    requires
        0 <= from <= at < findings.len(),
        findings[at] is Unreadable,
    ensures
        first_unreadable(findings, from) matches Some(error) && error is CorruptMetadata,
    decreases at - from,
{
    if from < at && !(findings[from] is Unreadable) {
        lemma_unreadable_is_found(findings, from + 1, at);
    }
}

/// A file in which no container can be read counts as made when it was
/// last modified, and has no brightness.
pub proof fn lemma_fallback_without_container(data: Seq<u8>, seconds: i64, nanoseconds: u32)
    ensures
        container_fields(data) is None ==> extraction(data, seconds, nanoseconds) == match unix_time(
            seconds,
            nanoseconds,
        ) {
            Some(created_at) => Ok::<FileMetaModel, ExtractErrorModel>(
                FileMetaModel { created_at, brightness: Seq::empty() },
            ),
            None => Err(ExtractErrorModel::ModifiedTimeOutOfReach),
        },
{
    if container_fields(data) is None {
        lemma_fallback_without_capture_time(Seq::empty(), unix_time(seconds, nanoseconds));
    }
}

} // verus!
