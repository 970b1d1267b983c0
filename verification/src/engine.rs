use vstd::prelude::*;
use crate::element::ElementView;
use crate::error::AttributeError;
use crate::index::{with_text, without, ElementIndex};
use crate::operation::{operation_views, Operation, OperationView};
use crate::tag::Tag;

verus! {

/// The first operation of a batch that failed: its position in the batch,
/// counted from zero, the tag it was aimed at, and why it failed.
#[derive(Clone, Copy, Debug, PartialEq, Eq, Structural)]
pub struct BatchFailure {
    pub position: usize,
    pub tag: Tag,
    pub kind: AttributeError,
}

/// Where a batch has brought an index: the elements that the index holds
/// now, and the failure that stopped the batch, if one did.
pub struct BatchState {
    pub elements: Map<Tag, ElementView>,
    pub failure: Option<BatchFailure>,
}

/// One operation applied to the elements of an index. An update asks for the
/// element to be there; a removal asks for nothing.
pub open spec fn apply_one(elements: Map<Tag, ElementView>, operation: OperationView) -> Result<
    Map<Tag, ElementView>,
    AttributeError,
> {
    match operation {
        OperationView::Update { tag, value } => if elements.contains_key(tag) {
            Ok(with_text(elements, tag, value))
        } else {
            Err(AttributeError::AttributeNotFound)
        },
        OperationView::Remove { tag } => Ok(without(elements, tag)),
    }
}

/// The first `count` operations of a batch applied in order, stopping at the
/// first one that fails: what was applied before it stays applied, and
/// nothing after it is looked at.
pub open spec fn run_batch(
    elements: Map<Tag, ElementView>,
    operations: Seq<OperationView>,
    count: nat,
) -> BatchState
    decreases count,
{
    if count == 0 {
        BatchState { elements, failure: None }
    } else {
        let before = run_batch(elements, operations, (count - 1) as nat);
        if before.failure.is_some() {
            before
        } else {
            match apply_one(before.elements, operations[count - 1]) {
                Ok(after) => BatchState { elements: after, failure: None },
                Err(kind) => BatchState {
                    elements: before.elements,
                    failure: Some(
                        BatchFailure {
                            position: (count - 1) as usize,
                            tag: operations[count - 1].tag(),
                            kind,
                        },
                    ),
                },
            }
        }
    }
}

/// A whole batch applied to the elements of an index.
pub open spec fn batch_outcome(
    elements: Map<Tag, ElementView>,
    operations: Seq<OperationView>,
) -> BatchState {
    run_batch(elements, operations, operations.len())
}

/// Once a batch has failed, running it further changes nothing.
pub proof fn lemma_failure_is_final(
    elements: Map<Tag, ElementView>,
    operations: Seq<OperationView>,
    failed: nat,
    count: nat,
)
    requires
        failed <= count,
        run_batch(elements, operations, failed).failure.is_some(),
    ensures
        run_batch(elements, operations, count) == run_batch(elements, operations, failed),
    decreases count,
{
    if failed < count {
        lemma_failure_is_final(elements, operations, failed, (count - 1) as nat);
    }
}

/// Whether every operation of the list is a removal.
pub open spec fn all_removals(operations: Seq<OperationView>) -> bool {
    forall|i: int| 0 <= i < operations.len() ==> (#[trigger] operations[i]) is Remove
}

/// A batch of removals cannot fail, however short or long it is run.
pub proof fn lemma_removals_never_fail(
    elements: Map<Tag, ElementView>,
    operations: Seq<OperationView>,
    count: nat,
)
    requires
        all_removals(operations),
        count <= operations.len(),
    ensures
        run_batch(elements, operations, count).failure.is_none(),
    decreases count,
{
    if count > 0 {
        lemma_removals_never_fail(elements, operations, (count - 1) as nat);
        assert(operations[count - 1] is Remove);
    }
}

/// Apply one operation to an index.
pub fn apply_operation(index: &mut ElementIndex, operation: &Operation) -> (r: Result<
    (),
    AttributeError,
>)
    ensures
        match apply_one(old(index)@, operation@) {
            Ok(after) => r.is_ok() && final(index)@ == after,
            Err(kind) => r == Err::<(), AttributeError>(kind) && final(index)@ == old(index)@,
        },
{
    match operation {
        Operation::Update { tag, value } => index.set_string(*tag, value.as_str()),
        Operation::Remove { tag } => {
            index.remove(*tag);
            Ok(())
        },
    }
}

/// Apply a batch of operations to an index, in the order of the list. The
/// first operation that fails ends the batch and is reported; the operations
/// before it stay applied, and those after it are not looked at.
pub fn apply_operations(index: &mut ElementIndex, operations: &Vec<Operation>) -> (r: Result<
    (),
    BatchFailure,
>)
    ensures
        final(index)@ == batch_outcome(old(index)@, operation_views(operations@)).elements,
        r == match batch_outcome(old(index)@, operation_views(operations@)).failure {
            Some(failure) => Err::<(), BatchFailure>(failure),
            None => Ok::<(), BatchFailure>(()),
        },
{
    let ghost views = operation_views(operations@);
    let mut position: usize = 0;
    while position < operations.len()
        invariant
            position <= operations@.len(),
            views == operation_views(operations@),
            run_batch(old(index)@, views, position as nat).failure.is_none(),
            index@ == run_batch(old(index)@, views, position as nat).elements,
        decreases operations@.len() - position,
    {
        let operation = &operations[position];
        assert(views[position as int] == operation@);
        match apply_operation(index, operation) {
            Ok(()) => {},
            Err(kind) => {
                proof {
                    lemma_failure_is_final(
                        old(index)@,
                        views,
                        (position + 1) as nat,
                        views.len(),
                    );
                }
                return Err(BatchFailure { position, tag: operation.tag(), kind });
            },
        }
        position += 1;
    }
    Ok(())
}

} // verus!
