use vstd::prelude::*;

use crate::error::{block_missing, block_missing_message, is_message_error, message_error, ServerError};
use crate::flow::{abort, Action, Event};
use crate::model::{keys_of_names, named_keys, texts, BlockRow};

verus! {

/// The body of a request that deletes some objects of a block, named by
/// their storage names.
#[derive(Debug, Clone)]
pub struct ObjectDelete {
    pub object_uids: Vec<String>,
}

/// Where a deletion of objects stands.
#[derive(Debug)]
pub enum DeleteObjectsFlow {
    /// The transaction is being opened.
    Opening { block_uid: String, object_uids: Vec<String> },
    /// The block is being looked up.
    Finding { object_uids: Vec<String> },
    /// The object named `object_uids[next]` is being looked up.
    Seeking { block: BlockRow, object_uids: Vec<String>, next: usize },
    /// The row of the object named `object_uids[next]` is being deleted.
    Removing { block: BlockRow, object_uids: Vec<String>, next: usize },
    /// The `count` objects' bytes are being deleted from the storage.
    ClearingStorage { count: usize },
    /// The transaction is being committed.
    Committing { count: usize },
    /// The request has been answered.
    Finished,
}

/// The message of the answer when a named object is not in the block.
pub open spec fn object_missing_message() -> Seq<char> {
    seq!['C', 'a', 'n', '\'', 't', ' ', 'f', 'i', 'n', 'd', ' ', 'O', 'b', 'j', 'e', 'c', 't', '.']
}

/// The first step of deleting the objects `req` names from the block `block_uid`.
pub open spec fn delete_objects_begins(
    req: ObjectDelete,
    block_uid: String,
    s: DeleteObjectsFlow,
    a: Action<usize>,
) -> bool {
    &&& s == DeleteObjectsFlow::Opening { block_uid, object_uids: req.object_uids }
    &&& a == Action::<usize>::BeginTransaction
}

/// The step after the object row `object_uids[next]` is deleted: the next
/// name is looked up, or, after the last, the storage keys of all the names
/// are deleted.
pub open spec fn after_row_removed(
    block: BlockRow,
    object_uids: Vec<String>,
    next: usize,
    s2: DeleteObjectsFlow,
    a: Action<usize>,
) -> bool {
    if next + 1 < object_uids.len() {
        &&& s2 == DeleteObjectsFlow::Seeking { block, object_uids, next: (next + 1) as usize }
        &&& a == Action::<usize>::FindObject { block_id: block.id, bucket_name: object_uids@[next + 1] }
    } else {
        &&& s2 == DeleteObjectsFlow::ClearingStorage { count: object_uids.len() }
        &&& a matches Action::DeleteStored { keys }
        &&& texts(keys@) == named_keys(block.block_bucket_path@, object_uids@)
    }
}

/// One step of a deletion of objects: from `s`, on `e`, the flow moves to
/// `s2` and asks for `a`.
pub open spec fn delete_objects_step(
    s: DeleteObjectsFlow,
    e: Event,
    s2: DeleteObjectsFlow,
    a: Action<usize>,
) -> bool {
    if s is Finished {
        s2 is Finished && a is Abort
    } else if e is Failed {
        s2 is Finished && a == Action::<usize>::Reply { result: Err(e->Failed_0) }
    } else {
        match (s, e) {
            (DeleteObjectsFlow::Opening { block_uid, object_uids }, Event::TransactionBegun) => {
                &&& s2 == DeleteObjectsFlow::Finding { object_uids }
                &&& a == Action::<usize>::FindBlock { block_uid, in_transaction: false }
            },
            (DeleteObjectsFlow::Finding { object_uids }, Event::BlockFound(None)) => {
                &&& s2 is Finished
                &&& a matches Action::Reply { result: Err(err) }
                &&& is_message_error(err, block_missing_message())
            },
            (DeleteObjectsFlow::Finding { object_uids }, Event::BlockFound(Some(block))) => {
                if object_uids.len() > 0 {
                    &&& s2 == DeleteObjectsFlow::Seeking { block, object_uids, next: 0 }
                    &&& a == Action::<usize>::FindObject { block_id: block.id, bucket_name: object_uids@[0] }
                } else {
                    &&& s2 == DeleteObjectsFlow::ClearingStorage { count: 0 }
                    &&& a matches Action::DeleteStored { keys }
                    &&& keys@.len() == 0
                }
            },
            (DeleteObjectsFlow::Seeking { block, object_uids, next }, Event::ObjectFound(None)) => {
                &&& s2 is Finished
                &&& a matches Action::Reply { result: Err(err) }
                &&& is_message_error(err, object_missing_message())
            },
            (DeleteObjectsFlow::Seeking { block, object_uids, next }, Event::ObjectFound(Some(object))) => {
                &&& s2 == DeleteObjectsFlow::Removing { block, object_uids, next }
                &&& a == Action::<usize>::DeleteObjectRow { object_id: object.id }
            },
            (DeleteObjectsFlow::Removing { block, object_uids, next }, Event::Done) => {
                after_row_removed(block, object_uids, next, s2, a)
            },
            (DeleteObjectsFlow::ClearingStorage { count }, Event::Done) => {
                &&& s2 == DeleteObjectsFlow::Committing { count }
                &&& a is Commit
            },
            (DeleteObjectsFlow::Committing { count }, Event::Done) => {
                &&& s2 is Finished
                &&& a == Action::<usize>::Reply { result: Ok(count) }
            },
            _ => s2 is Finished && a is Abort,
        }
    }
}

fn object_missing() -> (e: ServerError)
    ensures
        is_message_error(e, object_missing_message()),
{
    let e = message_error("Can't find Object.");
    proof {
        reveal_strlit("Can't find Object.");
        assert("Can't find Object."@ =~= object_missing_message());
    }
    e
}

/// Starts deleting the objects that `req` names from the block `block_uid`:
/// a transaction is opened first.
pub fn delete_objects_start(req: ObjectDelete, block_uid: String) -> (r: (DeleteObjectsFlow, Action<usize>))
    ensures
        delete_objects_begins(req, block_uid, r.0, r.1),
{
    (DeleteObjectsFlow::Opening { block_uid, object_uids: req.object_uids }, Action::BeginTransaction)
}

/// Answers a step of a deletion of objects: the next state and the next action.
pub fn delete_objects_next(s: DeleteObjectsFlow, e: Event) -> (r: (DeleteObjectsFlow, Action<usize>))
    ensures
        delete_objects_step(s, e, r.0, r.1),
{
    if let DeleteObjectsFlow::Finished = s {
        return (DeleteObjectsFlow::Finished, abort("the object deletion is already answered"));
    }
    if let Event::Failed(err) = e {
        return (DeleteObjectsFlow::Finished, Action::Reply { result: Err(err) });
    }
    match s {
        DeleteObjectsFlow::Opening { block_uid, object_uids } => match e {
            Event::TransactionBegun => (
                DeleteObjectsFlow::Finding { object_uids },
                Action::FindBlock { block_uid, in_transaction: false },
            ),
            _ => (DeleteObjectsFlow::Finished, abort("unexpected event while opening the transaction")),
        },
        DeleteObjectsFlow::Finding { object_uids } => match e {
            Event::BlockFound(None) => (DeleteObjectsFlow::Finished, Action::Reply { result: Err(block_missing()) }),
            Event::BlockFound(Some(block)) => {
                if object_uids.len() > 0 {
                    let block_id = block.id;
                    let bucket_name = object_uids[0].clone();
                    (
                        DeleteObjectsFlow::Seeking { block, object_uids, next: 0 },
                        Action::FindObject { block_id, bucket_name },
                    )
                } else {
                    (DeleteObjectsFlow::ClearingStorage { count: 0 }, Action::DeleteStored { keys: Vec::new() })
                }
            },
            _ => (DeleteObjectsFlow::Finished, abort("unexpected event while finding the block")),
        },
        DeleteObjectsFlow::Seeking { block, object_uids, next } => match e {
            Event::ObjectFound(None) => (DeleteObjectsFlow::Finished, Action::Reply { result: Err(object_missing()) }),
            Event::ObjectFound(Some(object)) => (
                DeleteObjectsFlow::Removing { block, object_uids, next },
                Action::DeleteObjectRow { object_id: object.id },
            ),
            _ => (DeleteObjectsFlow::Finished, abort("unexpected event while finding an object")),
        },
        DeleteObjectsFlow::Removing { block, object_uids, next } => match e {
            Event::Done => {
                if next < object_uids.len() && object_uids.len() - next > 1 {
                    let block_id = block.id;
                    let bucket_name = object_uids[next + 1].clone();
                    (
                        DeleteObjectsFlow::Seeking { block, object_uids, next: next + 1 },
                        Action::FindObject { block_id, bucket_name },
                    )
                } else {
                    let keys = keys_of_names(&block.block_bucket_path, &object_uids);
                    (DeleteObjectsFlow::ClearingStorage { count: object_uids.len() }, Action::DeleteStored { keys })
                }
            },
            _ => (DeleteObjectsFlow::Finished, abort("unexpected event while deleting an object row")),
        },
        DeleteObjectsFlow::ClearingStorage { count } => match e {
            Event::Done => (DeleteObjectsFlow::Committing { count }, Action::Commit),
            _ => (DeleteObjectsFlow::Finished, abort("unexpected event while clearing the storage")),
        },
        DeleteObjectsFlow::Committing { count } => match e {
            Event::Done => (DeleteObjectsFlow::Finished, Action::Reply { result: Ok(count) }),
            _ => (DeleteObjectsFlow::Finished, abort("unexpected event while committing")),
        },
        DeleteObjectsFlow::Finished => (DeleteObjectsFlow::Finished, abort("the object deletion is already answered")),
    }
}

} // verus!
