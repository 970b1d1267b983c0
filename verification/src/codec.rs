use vstd::prelude::*;
use dicom_core::dictionary::DataDictionary;
use dicom_core::dictionary::DataDictionaryEntry;
use dicom_core::ops::ApplyOp;
use dicom_core::ops::AttributeAction;
use dicom_core::ops::AttributeOp;
use dicom_object::meta::Error as MetaError;
use dicom_object::FileDicomObject;
use dicom_object::InMemDicomObject;
use dicom_object::ReadError;
use dicom_object::StandardDataDictionary;
use dicom_parser::dataset::read::Error as TokenError;
use dicom_transfer_syntax_registry::entries::EXPLICIT_VR_LITTLE_ENDIAN;
use crate::element::{element_holding, Element, ElementView};
use crate::error::ReadFailure;
use crate::tag::{ascending, Tag};
use crate::vr::Vr;

verus! {

/// `dicom_object::FileDicomObject`: a file meta table together with a data
/// set. Nothing is known of what is inside a value.
#[verifier::external_type_specification]
#[verifier::external_body]
#[verifier::reject_recursive_types(O)]
pub struct ExFileDicomObject<O>(FileDicomObject<O>);

/// `dicom_object::InMemDicomObject`: a data set held in memory as a map from
/// tag to element. Nothing is known of what is inside a value.
#[verifier::external_type_specification]
#[verifier::external_body]
#[verifier::reject_recursive_types(D)]
pub struct ExInMemDicomObject<D>(InMemDicomObject<D>);

/// `dicom_object::StandardDataDictionary`: the handle of the standard
/// attribute dictionary.
#[verifier::external_type_specification]
#[verifier::external_body]
pub struct ExStandardDataDictionary(StandardDataDictionary);

/// A decoded file as the decoder hands it out.
pub type DicomFile = FileDicomObject<InMemDicomObject<StandardDataDictionary>>;

/// The elements at the top level of the file's data set, by tag. The
/// elements of the file meta group are not among them.
pub uninterp spec fn dataset_elements(file: DicomFile) -> Map<Tag, ElementView>;

/// The byte stream that the encoder writes for the file, in the transfer
/// syntax that the meta table of the file names, or `None` where the encoder
/// refuses the file.
pub uninterp spec fn file_image(file: DicomFile) -> Option<Seq<u8>>;

/// What decoding a byte stream gives: the elements of the data set, or the
/// point at which the decoder gave up.
pub uninterp spec fn decoded_file(bytes: Seq<u8>) -> Result<Map<Tag, ElementView>, ReadFailure>;

/// The tag that the standard dictionary lists under an attribute keyword.
pub uninterp spec fn dictionary_tag(name: Seq<char>) -> Option<Tag>;

/// `FileDicomObject::from_reader` on a byte slice. The decoder is a function
/// of the bytes alone: the contract names what it returns, which is either a
/// file whose data set holds the decoded elements or the failure, told apart
/// by the variant of the error that the decoder reported.
#[verifier::external_body]
pub(crate) fn decode_file(buffer: &[u8]) -> (r: Result<DicomFile, ReadFailure>)
    ensures
        match r {
            Ok(file) => decoded_file(buffer@) == Ok::<Map<Tag, ElementView>, ReadFailure>(
                dataset_elements(file),
            ),
            Err(failure) => decoded_file(buffer@) == Err::<Map<Tag, ElementView>, ReadFailure>(
                failure,
            ),
        },
{
    FileDicomObject::from_reader(buffer).map_err(|error| match error {
        ReadError::ReadPreambleBytes { .. } => ReadFailure::Preamble,
        ReadError::ParseMetaDataSet { source: MetaError::NotDicom { .. } } => ReadFailure::MagicCode,
        ReadError::ParseMetaDataSet { .. } => ReadFailure::MetaGroup,
        ReadError::ReadUnrecognizedTransferSyntax { .. }
        | ReadError::ReadUnsupportedTransferSyntax { .. }
        | ReadError::ReadUnsupportedTransferSyntaxWithSuggestion { .. } => ReadFailure::TransferSyntax,
        ReadError::ReadToken {
            source: TokenError::InvalidElementLength { .. } | TokenError::InvalidItemLength { .. }
                | TokenError::UndefinedItemLength | TokenError::InconsistentSequenceEnd { .. },
        } => ReadFailure::ElementLength,
        ReadError::ReadToken { .. } | ReadError::CreateParser { .. } => ReadFailure::ElementRead,
        ReadError::PrematureEnd { .. } | ReadError::MissingElementValue { .. } => ReadFailure::Incomplete,
        _ => ReadFailure::Other,
    })
}

/// `FileMetaTable::set_transfer_syntax` with explicit VR little endian, on the
/// meta table of the file. It rewrites the transfer syntax of the meta table
/// and touches nothing in the data set.
#[verifier::external_body]
pub(crate) fn select_explicit_little_endian(file: &mut DicomFile)
    ensures
        dataset_elements(*final(file)) == dataset_elements(*old(file)),
{
    file.meta_mut().set_transfer_syntax(&EXPLICIT_VR_LITTLE_ENDIAN);
}

/// `FileDicomObject::write_all` into a fresh vector. The contract names the
/// bytes that come out, and says that none come out exactly where the
/// encoder reports an error.
#[verifier::external_body]
pub(crate) fn encode_file(file: &DicomFile) -> (r: Option<Vec<u8>>)
    ensures
        match r {
            Some(bytes) => file_image(*file) == Some(bytes@),
            None => file_image(*file).is_none(),
        },
{
    let mut bytes = Vec::new();
    file.write_all(&mut bytes).ok().map(|_| bytes)
}

/// `InMemDicomObject::get`, with the element found copied out as its tag, the
/// two letters of its representation and the results of its `to_raw_str` and
/// `to_str`. The contract says that an element comes back exactly for a tag
/// that the data set holds, and that it is the one held there.
#[verifier::external_body]
pub(crate) fn lookup_element(file: &DicomFile, tag: Tag) -> (r: Option<Element>)
    ensures
        match r {
            Some(element) => dataset_elements(*file).contains_key(tag) && element.tag == tag
                && element@ == dataset_elements(*file)[tag],
            None => !dataset_elements(*file).contains_key(tag),
        },
{
    file.get(dicom_core::Tag(tag.group, tag.element)).map(|found| Element {
        tag,
        vr: Vr { first: found.vr().to_bytes()[0], second: found.vr().to_bytes()[1] },
        stored: found.to_raw_str().ok().map(|stored| stored.into_owned()),
        text: found.to_str().ok().map(|text| text.into_owned()),
    })
}

/// `InMemDicomObject::apply` with `AttributeAction::SetStr`, on the data set
/// of the file. For a tag that the data set holds, the element keeps its
/// representation and holds `value` as it was given; every other element
/// stays as it is. The action reports no error.
#[verifier::external_body]
pub(crate) fn store_text(file: &mut DicomFile, tag: Tag, value: &str)
    requires
        dataset_elements(*old(file)).contains_key(tag),
    ensures
        dataset_elements(*final(file)) == dataset_elements(*old(file)).insert(
            tag,
            element_holding(dataset_elements(*old(file))[tag].vr, value@),
        ),
{
    let dataset: &mut InMemDicomObject = file;
    let action = AttributeAction::SetStr(value.to_string().into());
    let _ = dataset.apply(AttributeOp::new(dicom_core::Tag(tag.group, tag.element), action));
}

/// `InMemDicomObject::apply` with `AttributeAction::Remove`, on the data set
/// of the file. The element with the tag leaves the data set if it is there;
/// every other element stays as it is. The action reports no error.
#[verifier::external_body]
pub(crate) fn discard_element(file: &mut DicomFile, tag: Tag)
    ensures
        dataset_elements(*final(file)) == dataset_elements(*old(file)).remove(tag),
{
    let dataset: &mut InMemDicomObject = file;
    let action = AttributeAction::Remove;
    let _ = dataset.apply(AttributeOp::new(dicom_core::Tag(tag.group, tag.element), action));
}

/// `InMemDicomObject::tags`, collected. The data set keeps its elements in a
/// map ordered by tag, group first, so the tags come out in strictly
/// ascending order, each tag of the data set once.
#[verifier::external_body]
pub(crate) fn list_tags(file: &DicomFile) -> (r: Vec<Tag>)
    ensures
        ascending(r@),
        forall|tag: Tag| r@.contains(tag) <==> dataset_elements(*file).contains_key(tag),
{
    file.tags().map(|tag| Tag { group: tag.0, element: tag.1 }).collect()
}

/// `StandardDataDictionary::by_name`, with the tag of the entry found. The
/// dictionary is a fixed table: the contract names what it returns.
#[verifier::external_body]
pub(crate) fn dictionary_lookup(name: &str) -> (r: Option<Tag>)
    ensures
        r == dictionary_tag(name@),
{
    StandardDataDictionary.by_name(name).map(|entry| Tag {
        group: entry.tag().0,
        element: entry.tag().1,
    })
}

} // verus!
