use vstd::prelude::*;
use crate::error::EditError;
use crate::tag::Tag;

verus! {

/// The operation code of a request that removes an element.
pub const DELETE_ACTION: u8 = 0;

/// The operation code of a request that sets the value of an element.
pub const UPDATE_ACTION: u8 = 1;

/// One request of a batch as callers send it: an operation code, the two
/// halves of a tag, and the value to store (read only for an update).
#[derive(Clone, Debug, PartialEq, Eq)]
pub struct Modification {
    pub operationtype: u8,
    pub group: u16,
    pub element: u16,
    pub value: String,
}

/// One change to an index.
#[derive(Clone, Debug, PartialEq, Eq)]
pub enum Operation {
    /// Store `value` in the element under `tag`, which has to be there.
    Update { tag: Tag, value: String },
    /// Take the element under `tag` out, if it is there.
    Remove { tag: Tag },
}

/// An operation as contracts see it.
pub enum OperationView {
    Update { tag: Tag, value: Seq<char> },
    Remove { tag: Tag },
}

impl OperationView {
    /// The tag that the operation is aimed at.
    pub open spec fn tag(self) -> Tag {
        match self {
            OperationView::Update { tag, .. } => tag,
            OperationView::Remove { tag } => tag,
        }
    }
}

impl View for Operation {
    type V = OperationView;

    open spec fn view(&self) -> OperationView {
        match *self {
            Operation::Update { tag, value } => OperationView::Update { tag, value: value@ },
            Operation::Remove { tag } => OperationView::Remove { tag },
        }
    }
}

/// The operations of a list, each as contracts see it.
pub open spec fn operation_views(operations: Seq<Operation>) -> Seq<OperationView> {
    Seq::new(operations.len(), |i: int| operations[i]@)
}

impl Operation {
    /// The tag that the operation is aimed at.
    pub fn tag(&self) -> (tag: Tag)
        ensures
            tag == self@.tag(),
    {
        match self {
            Operation::Update { tag, .. } => *tag,
            Operation::Remove { tag } => *tag,
        }
    }
}

impl Modification {
    /// The tag that the request names.
    pub open spec fn tag_spec(self) -> Tag {
        Tag { group: self.group, element: self.element }
    }

    /// The request read as an update, whatever its operation code.
    pub open spec fn as_update(self) -> OperationView {
        OperationView::Update { tag: self.tag_spec(), value: self.value@ }
    }

    /// The request read as a removal, whatever its operation code.
    pub open spec fn as_remove(self) -> OperationView {
        OperationView::Remove { tag: self.tag_spec() }
    }

    /// The operation that the request's code asks for, or `None` where the
    /// code names no operation.
    pub open spec fn decoded(self) -> Option<OperationView> {
        if self.operationtype == DELETE_ACTION {
            Some(self.as_remove())
        } else if self.operationtype == UPDATE_ACTION {
            Some(self.as_update())
        } else {
            None
        }
    }

    /// The tag that the request names.
    pub fn tag(&self) -> (tag: Tag)
        ensures
            tag == self.tag_spec(),
    {
        Tag { group: self.group, element: self.element }
    }

    /// Read the request by its operation code.
    pub fn decode(&self) -> (r: Option<Operation>)
        ensures
            match r {
                Some(operation) => self.decoded() == Some(operation@),
                None => self.decoded().is_none(),
            },
    {
        if self.operationtype == DELETE_ACTION {
            Some(Operation::Remove { tag: self.tag() })
        } else if self.operationtype == UPDATE_ACTION {
            Some(Operation::Update { tag: self.tag(), value: self.value.clone() })
        } else {
            None
        }
    }
}

/// Whether every request before `end` carries a known operation code.
pub open spec fn well_formed_before(requests: Seq<Modification>, end: int) -> bool {
    forall|i: int| 0 <= i < end && i < requests.len() ==> (#[trigger] requests[i]).decoded().is_some()
}

/// Read every request by its operation code. The list is accepted as a whole
/// or not at all: the first request whose code names no operation is
/// reported by its position.
pub fn decode_operations(requests: &Vec<Modification>) -> (r: Result<Vec<Operation>, EditError>)
    ensures
        match r {
            Ok(operations) => {
                &&& well_formed_before(requests@, requests@.len() as int)
                &&& operations@.len() == requests@.len()
                &&& forall|i: int|
                    0 <= i < requests@.len() ==> Some((#[trigger] operations@[i])@)
                        == requests@[i].decoded()
            },
            Err(error) => {
                &&& error matches EditError::MalformedOperationList { position }
                &&& position < requests@.len()
                &&& well_formed_before(requests@, position as int)
                &&& requests@[position as int].decoded().is_none()
            },
        },
{
    let mut operations: Vec<Operation> = Vec::new();
    let mut position: usize = 0;
    while position < requests.len()
        invariant
            position <= requests@.len(),
            operations@.len() == position,
            well_formed_before(requests@, position as int),
            forall|i: int|
                0 <= i < position ==> Some((#[trigger] operations@[i])@) == requests@[i].decoded(),
        decreases requests@.len() - position,
    {
        match requests[position].decode() {
            Some(operation) => operations.push(operation),
            None => {
                return Err(EditError::MalformedOperationList { position });
            },
        }
        position += 1;
    }
    Ok(operations)
}

/// Read every request as an update of the element that it names.
pub fn update_operations(requests: &Vec<Modification>) -> (operations: Vec<Operation>)
    ensures
        operations@.len() == requests@.len(),
        forall|i: int|
            0 <= i < requests@.len() ==> (#[trigger] operations@[i])@ == requests@[i].as_update(),
{
    let mut operations: Vec<Operation> = Vec::new();
    let mut position: usize = 0;
    while position < requests.len()
        invariant
            position <= requests@.len(),
            operations@.len() == position,
            forall|i: int|
                0 <= i < position ==> (#[trigger] operations@[i])@ == requests@[i].as_update(),
        decreases requests@.len() - position,
    {
        let request = &requests[position];
        operations.push(Operation::Update { tag: request.tag(), value: request.value.clone() });
        position += 1;
    }
    operations
}

/// Read every request as the removal of the element that it names.
pub fn remove_operations(requests: &Vec<Modification>) -> (operations: Vec<Operation>)
    ensures
        operations@.len() == requests@.len(),
        forall|i: int|
            0 <= i < requests@.len() ==> (#[trigger] operations@[i])@ == requests@[i].as_remove(),
{
    let mut operations: Vec<Operation> = Vec::new();
    let mut position: usize = 0;
    while position < requests.len()
        invariant
            position <= requests@.len(),
            operations@.len() == position,
            forall|i: int|
                0 <= i < position ==> (#[trigger] operations@[i])@ == requests@[i].as_remove(),
        decreases requests@.len() - position,
    {
        operations.push(Operation::Remove { tag: requests[position].tag() });
        position += 1;
    }
    operations
}

} // verus!
