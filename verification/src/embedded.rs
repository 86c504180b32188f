//! The fields of the metadata container embedded in an image file, as the
//! exif crate reads them.

use vstd::prelude::*;

verus! {

/// The part of the container that a field's tag number belongs to.
#[derive(Clone, Copy, Debug, PartialEq, Eq, Structural)]
pub enum TagGroup {
    Tiff,
    Exif,
    Gps,
    Interop,
    Other,
}

/// One embedded field: its tag, and its value in display form.
#[derive(Clone, Debug, PartialEq, Eq)]
pub struct EmbeddedField {
    pub group: TagGroup,
    pub number: u16,
    pub text: String,
}

/// An embedded field as a mathematical value.
pub struct FieldModel {
    pub group: TagGroup,
    pub number: u16,
    pub text: Seq<char>,
}

impl View for EmbeddedField {
    type V = FieldModel;

    open spec fn view(&self) -> FieldModel {
        FieldModel { group: self.group, number: self.number, text: self.text@ }
    }
}

impl DeepView for EmbeddedField {
    type V = FieldModel;

    open spec fn deep_view(&self) -> FieldModel {
        self@
    }
}

/// The exif crate's `Exif`, a parsed container. Nothing of its inside is
/// known here.
#[verifier::external_type_specification]
#[verifier::external_body]
pub struct ExExif(exif::Exif);

/// The exif crate's `Error`. Nothing of its inside is known here.
#[verifier::external_type_specification]
#[verifier::external_body]
pub struct ExExifError(exif::Error);

/// The fields that a parsed container holds, in the order in which it hands
/// them out.
pub uninterp spec fn exif_fields(found: exif::Exif) -> Seq<FieldModel>;

/// What the exif crate's `Reader::read_from_container` finds in the bytes of
/// a file: the fields of the container, or nothing where it reports an error.
pub uninterp spec fn container_fields(data: Seq<u8>) -> Option<Seq<FieldModel>>;

/// Calls `Reader::read_from_container` of the exif crate, with default
/// settings, on a cursor over the bytes. The result is named, not described:
/// the claim is that it depends on the bytes alone.
#[verifier::external_body]
fn read_container(data: &[u8]) -> (outcome: Result<exif::Exif, exif::Error>)
    ensures
        match outcome {
            Ok(found) => container_fields(data@) == Some(exif_fields(found)),
            Err(_) => container_fields(data@) is None,
        },
{
    exif::Reader::new().read_from_container(&mut std::io::Cursor::new(data))
}

/// Walks `Exif::fields` of the exif crate and hands each field out as plain
/// values: the context and number of its tag, and the text of
/// `Field::display_value`. The claim is that these are the contents of the
/// container, in its order.
#[verifier::external_body]
fn list_fields(found: &exif::Exif) -> (fields: Vec<EmbeddedField>)
    ensures
        fields.deep_view() == exif_fields(*found),
{
    let mut fields = Vec::new();
    for field in found.fields() {
        let group = match field.tag.context() {
            exif::Context::Tiff => TagGroup::Tiff,
            exif::Context::Exif => TagGroup::Exif,
            exif::Context::Gps => TagGroup::Gps,
            exif::Context::Interop => TagGroup::Interop,
            _ => TagGroup::Other,
        };
        let text = field.display_value().to_string();
        fields.push(EmbeddedField { group, number: field.tag.number(), text });
    }
    fields
}

/// Reads the metadata container embedded in the bytes of a file. The result
/// is the list of its fields, or `None` where the bytes hold no container
/// that can be read.
pub fn embedded_fields(data: &[u8]) -> (fields: Option<Vec<EmbeddedField>>)
    ensures
        match fields {
            Some(list) => container_fields(data@) == Some(list.deep_view()),
            None => container_fields(data@) is None,
        },
{
    match read_container(data) {
        Ok(found) => Some(list_fields(&found)),
        Err(_) => None,
    }
}

} // verus!
