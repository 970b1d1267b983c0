use dicom_edit::dictionary::Selector;
use dicom_edit::edit::{
    apply_batch, encode_index, get_tag_value, modify_tag_value, read_attributes,
    remove_attribute, remove_tag, remove_update_tag, set_attribute, AttributeReading, TagValue,
};
use dicom_edit::engine::{apply_operation, apply_operations, BatchFailure};
use dicom_edit::error::{AttributeError, EditError, ParseError};
use dicom_edit::index::ElementIndex;
use dicom_edit::operation::{
    decode_operations, remove_operations, update_operations, Modification, Operation,
};
use dicom_edit::tag::Tag;

fn short_element(group: u16, element: u16, vr: &[u8; 2], value: &[u8]) -> Vec<u8> {
    let mut out = Vec::new();
    out.extend_from_slice(&group.to_le_bytes());
    out.extend_from_slice(&element.to_le_bytes());
    out.extend_from_slice(vr);
    out.extend_from_slice(&(value.len() as u16).to_le_bytes());
    out.extend_from_slice(value);
    out
}

fn long_element(group: u16, element: u16, vr: &[u8; 2], value: &[u8]) -> Vec<u8> {
    let mut out = Vec::new();
    out.extend_from_slice(&group.to_le_bytes());
    out.extend_from_slice(&element.to_le_bytes());
    out.extend_from_slice(vr);
    out.extend_from_slice(&[0, 0]);
    out.extend_from_slice(&(value.len() as u32).to_le_bytes());
    out.extend_from_slice(value);
    out
}

fn file_with_syntax(syntax: &[u8], dataset: &[u8]) -> Vec<u8> {
    let mut group = Vec::new();
    group.extend(long_element(0x0002, 0x0001, b"OB", &[0, 1]));
    group.extend(short_element(0x0002, 0x0002, b"UI", b"1.2.840.10008.5.1.4.1.1.7\0"));
    group.extend(short_element(0x0002, 0x0003, b"UI", b"1.2.3.4.5.6.7\0"));
    group.extend(short_element(0x0002, 0x0010, b"UI", syntax));
    group.extend(short_element(0x0002, 0x0012, b"UI", b"1.2.3.4\0"));
    let mut out = vec![0u8; 128];
    out.extend_from_slice(b"DICM");
    out.extend(short_element(0x0002, 0x0000, b"UL", &(group.len() as u32).to_le_bytes()));
    out.extend(group);
    out.extend_from_slice(dataset);
    out
}

fn file_with(dataset: &[u8]) -> Vec<u8> {
    file_with_syntax(b"1.2.840.10008.1.2.1\0", dataset)
}

fn sample() -> Vec<u8> {
    let mut dataset = Vec::new();
    dataset.extend(short_element(0x0008, 0x0060, b"CS", b"CT"));
    dataset.extend(long_element(0x0008, 0x1140, b"SQ", b""));
    dataset.extend(short_element(0x0010, 0x0010, b"PN", b"DOE^JOHN"));
    dataset.extend(short_element(0x0010, 0x0040, b"CS", b"M "));
    dataset.extend(short_element(0x0020, 0x000D, b"UI", b"1.2.3\0"));
    file_with(&dataset)
}

const MODALITY: Tag = Tag { group: 0x0008, element: 0x0060 };
const REFERENCED_IMAGES: Tag = Tag { group: 0x0008, element: 0x1140 };
const PATIENT_NAME: Tag = Tag { group: 0x0010, element: 0x0010 };
const PATIENT_ID: Tag = Tag { group: 0x0010, element: 0x0020 };
const PATIENT_SEX: Tag = Tag { group: 0x0010, element: 0x0040 };
const STUDY_UID: Tag = Tag { group: 0x0020, element: 0x000D };

fn request(operationtype: u8, tag: Tag, value: &str) -> Modification {
    Modification { operationtype, group: tag.group, element: tag.element, value: value.to_string() }
}

fn update(tag: Tag, value: &str) -> Operation {
    Operation::Update { tag, value: value.to_string() }
}

fn remove(tag: Tag) -> Operation {
    Operation::Remove { tag }
}

fn names(list: &[&str]) -> Vec<String> {
    list.iter().map(|name| name.to_string()).collect()
}

fn text_of(buffer: &[u8], tag: Tag) -> Option<String> {
    ElementIndex::parse(buffer).unwrap().find_by_tag(tag).and_then(|element| element.text)
}

fn tags_of(buffer: &[u8]) -> Vec<Tag> {
    ElementIndex::parse(buffer).unwrap().tags()
}

fn untouched() -> Vec<u8> {
    apply_batch(&sample(), &Vec::new()).unwrap()
}

#[test]
fn decode_operations_reads_every_request_by_its_code() {
    let requests = vec![request(1, PATIENT_NAME, "A"), request(0, PATIENT_SEX, "ignored")];
    assert_eq!(
        decode_operations(&requests),
        Ok(vec![update(PATIENT_NAME, "A"), remove(PATIENT_SEX)])
    );
    assert_eq!(decode_operations(&Vec::new()), Ok(Vec::new()));
}

#[test]
fn decode_operations_reports_the_first_unknown_code() {
    let requests = vec![
        request(1, PATIENT_NAME, "A"),
        request(7, PATIENT_SEX, "B"),
        request(0, MODALITY, ""),
        request(9, MODALITY, ""),
    ];
    assert_eq!(
        decode_operations(&requests),
        Err(EditError::MalformedOperationList { position: 1 })
    );
}

#[test]
fn update_operations_reads_every_request_as_an_update() {
    let requests = vec![request(0, PATIENT_NAME, "A"), request(9, PATIENT_SEX, "F")];
    assert_eq!(
        update_operations(&requests),
        vec![update(PATIENT_NAME, "A"), update(PATIENT_SEX, "F")]
    );
}

#[test]
fn remove_operations_reads_every_request_as_a_removal() {
    let requests = vec![request(1, PATIENT_NAME, "A"), request(9, PATIENT_SEX, "F")];
    assert_eq!(remove_operations(&requests), vec![remove(PATIENT_NAME), remove(PATIENT_SEX)]);
}

#[test]
fn apply_operation_sets_and_removes() {
    let mut index = ElementIndex::parse(&sample()).unwrap();
    assert_eq!(apply_operation(&mut index, &update(PATIENT_NAME, "X")), Ok(()));
    assert_eq!(index.find_by_tag(PATIENT_NAME).unwrap().text, Some("X".to_string()));
    assert_eq!(apply_operation(&mut index, &remove(PATIENT_NAME)), Ok(()));
    assert_eq!(index.find_by_tag(PATIENT_NAME), None);
    assert_eq!(apply_operation(&mut index, &remove(PATIENT_NAME)), Ok(()));
    assert_eq!(
        apply_operation(&mut index, &update(PATIENT_NAME, "Y")),
        Err(AttributeError::AttributeNotFound)
    );
}

#[test]
fn apply_operations_stops_at_the_first_failure_and_keeps_what_was_done() {
    let mut index = ElementIndex::parse(&sample()).unwrap();
    let operations = vec![
        update(PATIENT_NAME, "x"),
        remove(PATIENT_ID),
        update(Tag::new(0x0010, 0x0030), "y"),
        remove(MODALITY),
    ];
    assert_eq!(
        apply_operations(&mut index, &operations),
        Err(BatchFailure {
            position: 2,
            tag: Tag::new(0x0010, 0x0030),
            kind: AttributeError::AttributeNotFound,
        })
    );
    assert_eq!(index.find_by_tag(PATIENT_NAME).unwrap().text, Some("x".to_string()));
    assert_eq!(index.find_by_tag(MODALITY).unwrap().text, Some("CT".to_string()));
    assert_eq!(
        index.tags(),
        vec![MODALITY, REFERENCED_IMAGES, PATIENT_NAME, PATIENT_SEX, STUDY_UID]
    );
}

#[test]
fn apply_operations_applies_a_whole_batch_in_order() {
    let mut index = ElementIndex::parse(&sample()).unwrap();
    let operations = vec![
        update(PATIENT_NAME, "first"),
        update(PATIENT_NAME, "second"),
        remove(PATIENT_SEX),
        remove(PATIENT_SEX),
    ];
    assert_eq!(apply_operations(&mut index, &operations), Ok(()));
    assert_eq!(index.find_by_tag(PATIENT_NAME).unwrap().text, Some("second".to_string()));
    assert_eq!(index.tags(), vec![MODALITY, REFERENCED_IMAGES, PATIENT_NAME, STUDY_UID]);
}

#[test]
fn apply_operations_cannot_set_what_the_batch_removed() {
    let mut index = ElementIndex::parse(&sample()).unwrap();
    let operations = vec![remove(PATIENT_NAME), update(PATIENT_NAME, "again")];
    assert_eq!(
        apply_operations(&mut index, &operations),
        Err(BatchFailure {
            position: 1,
            tag: PATIENT_NAME,
            kind: AttributeError::AttributeNotFound,
        })
    );
    assert_eq!(index.find_by_tag(PATIENT_NAME), None);
}

#[test]
fn apply_batch_returns_an_error_and_no_bytes_when_an_operation_fails() {
    let operations = vec![
        update(PATIENT_NAME, "x"),
        remove(PATIENT_ID),
        update(Tag::new(0x0010, 0x0030), "y"),
    ];
    assert_eq!(
        apply_batch(&sample(), &operations),
        Err(EditError::Operation {
            position: 2,
            tag: Tag::new(0x0010, 0x0030),
            kind: AttributeError::AttributeNotFound,
        })
    );
}

#[test]
fn apply_batch_edits_the_stream() {
    let operations = vec![update(PATIENT_NAME, "SMITH^JANE"), remove(PATIENT_SEX)];
    let edited = apply_batch(&sample(), &operations).unwrap();
    assert_eq!(text_of(&edited, PATIENT_NAME), Some("SMITH^JANE".to_string()));
    assert_eq!(tags_of(&edited), vec![MODALITY, REFERENCED_IMAGES, PATIENT_NAME, STUDY_UID]);
}

#[test]
fn apply_batch_reports_a_stream_that_does_not_decode() {
    let operations = vec![update(PATIENT_NAME, "x")];
    assert_eq!(
        apply_batch(&[7u8; 300], &operations),
        Err(EditError::Parse(ParseError::NotDicom))
    );
    let whole = sample();
    assert_eq!(
        apply_batch(&whole[..whole.len() - 1], &operations),
        Err(EditError::Parse(ParseError::TruncatedStream))
    );
}

#[test]
fn apply_batch_reports_what_the_encoder_refuses() {
    let operations = vec![update(PATIENT_NAME, "\u{65e5}\u{672c}")];
    assert_eq!(apply_batch(&sample(), &operations), Err(EditError::Encode));
}

#[test]
fn encode_index_gives_the_bytes_or_the_refusal() {
    let index = ElementIndex::parse(&sample()).unwrap();
    assert_eq!(encode_index(&index), Ok(untouched()));
    let mut index = ElementIndex::parse(&sample()).unwrap();
    index.set_string(PATIENT_NAME, "\u{65e5}\u{672c}").unwrap();
    assert_eq!(encode_index(&index), Err(EditError::Encode));
}

#[test]
fn modify_tag_value_sets_whatever_the_codes_say() {
    let requests = vec![request(0, PATIENT_NAME, "SMITH^JANE"), request(5, PATIENT_SEX, "F")];
    let edited = modify_tag_value(&sample(), &requests).unwrap();
    assert_eq!(text_of(&edited, PATIENT_NAME), Some("SMITH^JANE".to_string()));
    assert_eq!(text_of(&edited, PATIENT_SEX), Some("F".to_string()));
    assert_eq!(tags_of(&edited), tags_of(&sample()));
}

#[test]
fn modify_tag_value_fails_on_an_absent_tag() {
    let requests = vec![request(1, PATIENT_NAME, "A"), request(1, PATIENT_ID, "7")];
    assert_eq!(
        modify_tag_value(&sample(), &requests),
        Err(EditError::Operation {
            position: 1,
            tag: PATIENT_ID,
            kind: AttributeError::AttributeNotFound,
        })
    );
}

#[test]
fn modify_tag_value_without_requests_encodes_the_stream_again() {
    assert_eq!(modify_tag_value(&sample(), &Vec::new()), Ok(untouched()));
}

#[test]
fn remove_tag_removes_whatever_the_codes_say() {
    let requests = vec![request(1, PATIENT_NAME, "kept?"), request(5, PATIENT_ID, "")];
    let edited = remove_tag(&sample(), &requests).unwrap();
    assert_eq!(tags_of(&edited), vec![MODALITY, REFERENCED_IMAGES, PATIENT_SEX, STUDY_UID]);
}

#[test]
fn remove_update_tag_goes_by_the_codes() {
    let requests = vec![
        request(1, PATIENT_NAME, "SMITH^JANE"),
        request(0, PATIENT_SEX, "ignored"),
        request(0, PATIENT_ID, ""),
    ];
    let edited = remove_update_tag(&sample(), &requests).unwrap();
    assert_eq!(text_of(&edited, PATIENT_NAME), Some("SMITH^JANE".to_string()));
    assert_eq!(tags_of(&edited), vec![MODALITY, REFERENCED_IMAGES, PATIENT_NAME, STUDY_UID]);
}

#[test]
fn remove_update_tag_rejects_an_unknown_code_before_anything_else() {
    let requests = vec![request(1, PATIENT_NAME, "A"), request(2, PATIENT_SEX, "B")];
    assert_eq!(
        remove_update_tag(&sample(), &requests),
        Err(EditError::MalformedOperationList { position: 1 })
    );
    assert_eq!(
        remove_update_tag(&[7u8; 300], &requests),
        Err(EditError::MalformedOperationList { position: 1 })
    );
}

#[test]
fn remove_update_tag_reports_the_failing_operation() {
    let requests = vec![request(0, PATIENT_ID, ""), request(1, PATIENT_ID, "7")];
    assert_eq!(
        remove_update_tag(&sample(), &requests),
        Err(EditError::Operation {
            position: 1,
            tag: PATIENT_ID,
            kind: AttributeError::AttributeNotFound,
        })
    );
    assert_eq!(
        remove_update_tag(&[], &requests),
        Err(EditError::Parse(ParseError::NotDicom))
    );
}

#[test]
fn get_tag_value_reads_in_the_order_asked() {
    let asked = names(&["PatientSex", "PatientName", "Modality", "PatientName"]);
    assert_eq!(
        get_tag_value(&sample(), &asked),
        Ok(vec![
            TagValue { tag: "PatientSex".to_string(), value: "M".to_string() },
            TagValue { tag: "PatientName".to_string(), value: "DOE^JOHN".to_string() },
            TagValue { tag: "Modality".to_string(), value: "CT".to_string() },
            TagValue { tag: "PatientName".to_string(), value: "DOE^JOHN".to_string() },
        ])
    );
    assert_eq!(get_tag_value(&sample(), &Vec::new()), Ok(Vec::new()));
}

#[test]
fn get_tag_value_fails_on_the_first_name_it_cannot_read() {
    let kind_at = |asked: &[&str]| get_tag_value(&sample(), &names(asked));
    assert_eq!(
        kind_at(&["PatientName", "PatientID", "NoSuchThing"]),
        Err(EditError::Attribute { position: 1, kind: AttributeError::AttributeNotFound })
    );
    assert_eq!(
        kind_at(&["NoSuchThing", "PatientID"]),
        Err(EditError::Attribute { position: 0, kind: AttributeError::UnknownAttributeName })
    );
    assert_eq!(
        kind_at(&["Modality", "PatientSex", "ReferencedImageSequence"]),
        Err(EditError::Attribute { position: 2, kind: AttributeError::NotText })
    );
}

#[test]
fn get_tag_value_reports_a_stream_that_does_not_decode() {
    assert_eq!(
        get_tag_value(&[1, 2, 3], &names(&["PatientName"])),
        Err(EditError::Parse(ParseError::NotDicom))
    );
    let stream = file_with_syntax(b"1.2.3.4.5.6.7.8.9\0", &[]);
    assert_eq!(
        get_tag_value(&stream, &Vec::new()),
        Err(EditError::Parse(ParseError::UnsupportedTransferSyntax))
    );
}

#[test]
fn read_attributes_reports_each_name_on_its_own() {
    let asked = names(&["PatientID", "PatientName", "NoSuchThing", "ReferencedImageSequence"]);
    assert_eq!(
        read_attributes(&sample(), &asked),
        Ok(vec![
            AttributeReading {
                name: "PatientID".to_string(),
                value: Err(AttributeError::AttributeNotFound),
            },
            AttributeReading {
                name: "PatientName".to_string(),
                value: Ok("DOE^JOHN".to_string()),
            },
            AttributeReading {
                name: "NoSuchThing".to_string(),
                value: Err(AttributeError::UnknownAttributeName),
            },
            AttributeReading {
                name: "ReferencedImageSequence".to_string(),
                value: Err(AttributeError::NotText),
            },
        ])
    );
    assert_eq!(
        read_attributes(&[], &asked),
        Err(EditError::Parse(ParseError::NotDicom))
    );
}

#[test]
fn set_attribute_replaces_patient_name() {
    let selector = Selector::Name("PatientName".to_string());
    let edited = set_attribute(&sample(), &selector, "SMITH^JANE").unwrap();
    assert_eq!(
        read_attributes(&edited, &names(&["PatientName"])),
        Ok(vec![AttributeReading {
            name: "PatientName".to_string(),
            value: Ok("SMITH^JANE".to_string()),
        }])
    );
}

#[test]
fn set_attribute_takes_a_tag_as_well_as_a_name() {
    let by_name = set_attribute(&sample(), &Selector::Name("PatientSex".to_string()), "F");
    let by_tag = set_attribute(&sample(), &Selector::Tag(PATIENT_SEX), "F");
    assert!(by_name.is_ok());
    assert_eq!(by_name, by_tag);
    assert_eq!(text_of(&by_tag.unwrap(), PATIENT_SEX), Some("F".to_string()));
}

#[test]
fn set_attribute_of_an_odd_value_reads_back_without_its_pad() {
    let edited = set_attribute(&sample(), &Selector::Tag(PATIENT_NAME), "ABC").unwrap();
    let element = ElementIndex::parse(&edited).unwrap().find_by_tag(PATIENT_NAME).unwrap();
    assert_eq!(element.stored, Some("ABC ".to_string()));
    assert_eq!(element.text, Some("ABC".to_string()));
}

#[test]
fn set_attribute_fails_on_absent_and_on_unknown_attributes() {
    assert_eq!(
        set_attribute(&sample(), &Selector::Name("PatientID".to_string()), "7"),
        Err(EditError::Operation {
            position: 0,
            tag: PATIENT_ID,
            kind: AttributeError::AttributeNotFound,
        })
    );
    assert_eq!(
        set_attribute(&sample(), &Selector::Name("NoSuchThing".to_string()), "7"),
        Err(EditError::Attribute { position: 0, kind: AttributeError::UnknownAttributeName })
    );
    assert_eq!(
        set_attribute(&[7u8; 300], &Selector::Name("NoSuchThing".to_string()), "7"),
        Err(EditError::Attribute { position: 0, kind: AttributeError::UnknownAttributeName })
    );
}

#[test]
fn remove_attribute_of_absent_tag_changes_nothing() {
    let edited = remove_attribute(&sample(), &Selector::Name("PatientID".to_string()));
    assert_eq!(edited, Ok(untouched()));
}

#[test]
fn remove_attribute_takes_the_element_out() {
    let edited = remove_attribute(&sample(), &Selector::Name("PatientName".to_string())).unwrap();
    assert_eq!(tags_of(&edited), vec![MODALITY, REFERENCED_IMAGES, PATIENT_SEX, STUDY_UID]);
    assert_ne!(edited, untouched());
    assert_eq!(
        remove_attribute(&sample(), &Selector::Name("NoSuchThing".to_string())),
        Err(EditError::Attribute { position: 0, kind: AttributeError::UnknownAttributeName })
    );
}
