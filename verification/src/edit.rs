use vstd::prelude::*;
use vstd::string::*;
use crate::codec::decoded_file;
use crate::dictionary::Selector;
use crate::element::ElementView;
use crate::engine::{apply_operations, batch_outcome, lemma_removals_never_fail};
use crate::error::{AttributeError, EditError, ParseError, ReadFailure};
use crate::index::{text_of_name, ElementIndex};
use crate::operation::{
    decode_operations, operation_views, remove_operations, update_operations, Modification,
    Operation, OperationView,
};
use crate::tag::Tag;

verus! {

/// One attribute read from a file: the name it was asked for by, and its
/// value as text.
#[derive(Clone, Debug, PartialEq, Eq)]
pub struct TagValue {
    pub tag: String,
    pub value: String,
}

/// One attribute asked of a file: the name it was asked for by, and its value
/// as text or the reason why there is none.
#[derive(Debug, PartialEq, Eq)]
pub struct AttributeReading {
    pub name: String,
    pub value: Result<String, AttributeError>,
}

/// The elements that an edit leaves: the stream has to decode, and every
/// operation of the batch has to succeed. The first thing that goes wrong is
/// the error of the edit.
pub open spec fn edited_elements(bytes: Seq<u8>, operations: Seq<OperationView>) -> Result<
    Map<Tag, ElementView>,
    EditError,
> {
    match decoded_file(bytes) {
        Err(failure) => Err(EditError::Parse(ParseError::of(failure))),
        Ok(elements) => match batch_outcome(elements, operations).failure {
            Some(failure) => Err(
                EditError::Operation {
                    position: failure.position,
                    tag: failure.tag,
                    kind: failure.kind,
                },
            ),
            None => Ok(batch_outcome(elements, operations).elements),
        },
    }
}

/// Whether `r` is what encoding an index that holds `elements` gave: the
/// bytes of its image, or the encoder's refusal.
pub open spec fn encodes(elements: Map<Tag, ElementView>, r: Result<Vec<u8>, EditError>) -> bool {
    exists|index: ElementIndex|
        index@ == elements && match r {
            Ok(bytes) => #[trigger] index.image() == Some(bytes@),
            Err(error) => index.image().is_none() && error == EditError::Encode,
        }
}

/// Whether `r` is the result of decoding `bytes`, applying `operations` and
/// encoding what is left. Nothing is encoded once something went wrong.
pub open spec fn edit_result(
    bytes: Seq<u8>,
    operations: Seq<OperationView>,
    r: Result<Vec<u8>, EditError>,
) -> bool {
    match edited_elements(bytes, operations) {
        Err(error) => r == Err::<Vec<u8>, EditError>(error),
        Ok(elements) => encodes(elements, r),
    }
}

/// Encode an index, turning the encoder's refusal into an error.
pub fn encode_index(index: &ElementIndex) -> (r: Result<Vec<u8>, EditError>)
    ensures
        encodes(index@, r),
        match r {
            Ok(bytes) => index.image() == Some(bytes@),
            Err(error) => index.image().is_none() && error == EditError::Encode,
        },
{
    match index.write() {
        Some(bytes) => Ok(bytes),
        None => Err(EditError::Encode),
    }
}

/// Decode `buffer`, apply `operations` in order, and encode the result. The
/// first failure ends the edit: no bytes come back from a stream that does
/// not decode or from a batch of which one operation failed.
pub fn apply_batch(buffer: &[u8], operations: &Vec<Operation>) -> (r: Result<Vec<u8>, EditError>)
    ensures
        edit_result(buffer@, operation_views(operations@), r),
{
    let mut index = match ElementIndex::parse(buffer) {
        Ok(index) => index,
        Err(error) => {
            return Err(EditError::Parse(error));
        },
    };
    match apply_operations(&mut index, operations) {
        Ok(()) => encode_index(&index),
        Err(failure) => Err(
            EditError::Operation {
                position: failure.position,
                tag: failure.tag,
                kind: failure.kind,
            },
        ),
    }
}

/// The requests of a list, each read as an update.
pub open spec fn update_views(requests: Seq<Modification>) -> Seq<OperationView> {
    Seq::new(requests.len(), |i: int| requests[i].as_update())
}

/// The requests of a list, each read as a removal.
pub open spec fn remove_views(requests: Seq<Modification>) -> Seq<OperationView> {
    Seq::new(requests.len(), |i: int| requests[i].as_remove())
}

/// The requests of a list, each read by its operation code. Only a list in
/// which every code names an operation is read at all.
pub open spec fn decoded_views(requests: Seq<Modification>) -> Seq<OperationView> {
    Seq::new(requests.len(), |i: int| requests[i].decoded().unwrap())
}

/// The position of the first request whose code names no operation.
pub open spec fn first_malformed(requests: Seq<Modification>, position: int) -> bool {
    &&& 0 <= position < requests.len()
    &&& requests[position].decoded().is_none()
    &&& forall|i: int| 0 <= i < position ==> (#[trigger] requests[i]).decoded().is_some()
}

/// Set the value of every element that a request names, whatever the
/// operation code of the request says.
pub fn modify_tag_value(buffer: &[u8], modifications: &Vec<Modification>) -> (r: Result<
    Vec<u8>,
    EditError,
>)
    ensures
        edit_result(buffer@, update_views(modifications@), r),
{
    let operations = update_operations(modifications);
    assert(operation_views(operations@) =~= update_views(modifications@));
    apply_batch(buffer, &operations)
}

/// Remove every element that a request names, whatever the operation code of
/// the request says. No request of the list can fail.
pub fn remove_tag(buffer: &[u8], modifications: &Vec<Modification>) -> (r: Result<
    Vec<u8>,
    EditError,
>)
    ensures
        edit_result(buffer@, remove_views(modifications@), r),
        !(r matches Err(EditError::Operation { .. })),
{
    let operations = remove_operations(modifications);
    assert(operation_views(operations@) =~= remove_views(modifications@));
    proof {
        if decoded_file(buffer@) is Ok {
            lemma_removals_never_fail(
                decoded_file(buffer@)->Ok_0,
                remove_views(modifications@),
                modifications@.len(),
            );
        }
    }
    apply_batch(buffer, &operations)
}

/// Apply a list of requests, each as its operation code says. A list with a
/// code that names no operation is rejected before the stream is looked at.
pub fn remove_update_tag(buffer: &[u8], modifications: &Vec<Modification>) -> (r: Result<
    Vec<u8>,
    EditError,
>)
    ensures
        match r {
            Err(EditError::MalformedOperationList { position }) => first_malformed(
                modifications@,
                position as int,
            ),
            _ => {
                &&& forall|i: int|
                    0 <= i < modifications@.len() ==> (#[trigger] modifications@[i]).decoded().is_some()
                &&& edit_result(buffer@, decoded_views(modifications@), r)
            },
        },
{
    match decode_operations(modifications) {
        Err(error) => Err(error),
        Ok(operations) => {
            assert(operation_views(operations@) =~= decoded_views(modifications@));
            let r = apply_batch(buffer, &operations);
            proof {
                lemma_edit_is_no_list_error(buffer@, decoded_views(modifications@), r);
            }
            r
        },
    }
}

/// An edit never reports a malformed list: that error belongs to reading the
/// list, which comes before.
pub proof fn lemma_edit_is_no_list_error(
    bytes: Seq<u8>,
    operations: Seq<OperationView>,
    r: Result<Vec<u8>, EditError>,
)
    requires
        edit_result(bytes, operations, r),
    ensures
        !(r matches Err(EditError::MalformedOperationList { .. })),
{
}

/// Set the value of one attribute of a file.
pub fn set_attribute(buffer: &[u8], selector: &Selector, value: &str) -> (r: Result<
    Vec<u8>,
    EditError,
>)
    ensures
        match selector.resolved() {
            None => r == Err::<Vec<u8>, EditError>(
                EditError::Attribute { position: 0, kind: AttributeError::UnknownAttributeName },
            ),
            Some(tag) => edit_result(
                buffer@,
                seq![OperationView::Update { tag, value: value@ }],
                r,
            ),
        },
{
    match selector.resolve() {
        None => Err(
            EditError::Attribute { position: 0, kind: AttributeError::UnknownAttributeName },
        ),
        Some(tag) => {
            let mut operations: Vec<Operation> = Vec::new();
            operations.push(Operation::Update { tag, value: String::from_str(value) });
            assert(operation_views(operations@) =~= seq![
                OperationView::Update { tag, value: value@ },
            ]);
            apply_batch(buffer, &operations)
        },
    }
}

/// Remove one attribute from a file. A file without the attribute is encoded
/// as it was decoded.
pub fn remove_attribute(buffer: &[u8], selector: &Selector) -> (r: Result<Vec<u8>, EditError>)
    ensures
        match selector.resolved() {
            None => r == Err::<Vec<u8>, EditError>(
                EditError::Attribute { position: 0, kind: AttributeError::UnknownAttributeName },
            ),
            Some(tag) => edit_result(buffer@, seq![OperationView::Remove { tag }], r),
        },
{
    match selector.resolve() {
        None => Err(
            EditError::Attribute { position: 0, kind: AttributeError::UnknownAttributeName },
        ),
        Some(tag) => {
            let mut operations: Vec<Operation> = Vec::new();
            operations.push(Operation::Remove { tag });
            assert(operation_views(operations@) =~= seq![OperationView::Remove { tag }]);
            apply_batch(buffer, &operations)
        },
    }
}

/// Whether `values` holds the text of every attribute named in `names`, in
/// the order of the names.
pub open spec fn values_of(
    elements: Map<Tag, ElementView>,
    names: Seq<String>,
    values: Seq<TagValue>,
) -> bool {
    &&& values.len() == names.len()
    &&& forall|i: int|
        0 <= i < names.len() ==> {
            &&& (#[trigger] values[i]).tag@ == names[i]@
            &&& text_of_name(elements, names[i]@) == Ok::<Seq<char>, AttributeError>(
                values[i].value@,
            )
        }
}

/// Whether the attribute named at `position` is the first of `names` that
/// cannot be read as text, and `kind` is the reason.
pub open spec fn first_unreadable(
    elements: Map<Tag, ElementView>,
    names: Seq<String>,
    position: int,
    kind: AttributeError,
) -> bool {
    &&& 0 <= position < names.len()
    &&& text_of_name(elements, names[position]@) == Err::<Seq<char>, AttributeError>(kind)
    &&& forall|i: int| 0 <= i < position ==> text_of_name(elements, (#[trigger] names[i])@).is_ok()
}

/// Read the attributes named in `tags` from a file, in the order of the
/// names. The first name that cannot be read fails the whole call.
pub fn get_tag_value(buffer: &[u8], tags: &Vec<String>) -> (r: Result<Vec<TagValue>, EditError>)
    ensures
        match decoded_file(buffer@) {
            Err(failure) => r == Err::<Vec<TagValue>, EditError>(
                EditError::Parse(ParseError::of(failure)),
            ),
            Ok(elements) => match r {
                Ok(values) => values_of(elements, tags@, values@),
                Err(error) => {
                    &&& error matches EditError::Attribute { position, kind }
                    &&& first_unreadable(elements, tags@, position as int, kind)
                },
            },
        },
{
    let index = match ElementIndex::parse(buffer) {
        Ok(index) => index,
        Err(error) => {
            return Err(EditError::Parse(error));
        },
    };
    let mut values: Vec<TagValue> = Vec::new();
    let mut position: usize = 0;
    while position < tags.len()
        invariant
            decoded_file(buffer@) == Ok::<Map<Tag, ElementView>, ReadFailure>(index@),
            position <= tags@.len(),
            values@.len() == position,
            forall|i: int|
                0 <= i < position ==> {
                    &&& (#[trigger] values@[i]).tag@ == tags@[i]@
                    &&& text_of_name(index@, tags@[i]@) == Ok::<Seq<char>, AttributeError>(
                        values@[i].value@,
                    )
                },
            forall|i: int|
                0 <= i < position ==> text_of_name(index@, (#[trigger] tags@[i])@).is_ok(),
        decreases tags@.len() - position,
    {
        let name = &tags[position];
        match index.read_text(name.as_str()) {
            Ok(value) => values.push(TagValue { tag: name.clone(), value }),
            Err(kind) => {
                return Err(EditError::Attribute { position, kind });
            },
        }
        position += 1;
    }
    Ok(values)
}

/// Whether `readings` holds, for every name in `names` and in their order,
/// the text of the attribute or the reason why it has none.
pub open spec fn readings_of(
    elements: Map<Tag, ElementView>,
    names: Seq<String>,
    readings: Seq<AttributeReading>,
) -> bool {
    &&& readings.len() == names.len()
    &&& forall|i: int|
        0 <= i < names.len() ==> {
            &&& (#[trigger] readings[i]).name@ == names[i]@
            &&& match text_of_name(elements, names[i]@) {
                Ok(text) => readings[i].value.is_ok() && readings[i].value->Ok_0@ == text,
                Err(kind) => readings[i].value == Err::<String, AttributeError>(kind),
            }
        }
}

/// Read the attributes named in `names` from a file, each on its own: a name
/// that cannot be read is reported in its place and stops nothing.
pub fn read_attributes(buffer: &[u8], names: &Vec<String>) -> (r: Result<
    Vec<AttributeReading>,
    EditError,
>)
    ensures
        match decoded_file(buffer@) {
            Err(failure) => r == Err::<Vec<AttributeReading>, EditError>(
                EditError::Parse(ParseError::of(failure)),
            ),
            Ok(elements) => r.is_ok() && readings_of(elements, names@, r->Ok_0@),
        },
{
    let index = match ElementIndex::parse(buffer) {
        Ok(index) => index,
        Err(error) => {
            return Err(EditError::Parse(error));
        },
    };
    let mut readings: Vec<AttributeReading> = Vec::new();
    let mut position: usize = 0;
    while position < names.len()
        invariant
            decoded_file(buffer@) == Ok::<Map<Tag, ElementView>, ReadFailure>(index@),
            position <= names@.len(),
            readings@.len() == position,
            forall|i: int|
                0 <= i < position ==> {
                    &&& (#[trigger] readings@[i]).name@ == names@[i]@
                    &&& match text_of_name(index@, names@[i]@) {
                        Ok(text) => readings@[i].value.is_ok() && readings@[i].value->Ok_0@
                            == text,
                        Err(kind) => readings@[i].value == Err::<String, AttributeError>(kind),
                    }
                },
        decreases names@.len() - position,
    {
        let name = &names[position];
        let value = index.read_text(name.as_str());
        readings.push(AttributeReading { name: name.clone(), value });
        position += 1;
    }
    Ok(readings)
}

} // verus!
