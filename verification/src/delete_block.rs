use vstd::prelude::*;

use crate::error::{is_message_error, ServerError};
use crate::flow::{abort, Action, Event};
use crate::model::{keys_of_objects, object_keys, texts, BlockRow};
use vstd::string::StringExecFns;

verus! {

/// The body of a request that deletes a block with all its objects.
#[derive(Debug, Clone)]
pub struct BlockDelete {
    pub block_uid: String,
}

/// Where a block deletion stands.
#[derive(Debug)]
pub enum DeleteBlockFlow {
    /// The transaction is being opened.
    Opening { block_uid: String },
    /// The block is being looked up.
    Finding,
    /// The block's objects are being listed.
    Listing { block: BlockRow },
    /// The objects' bytes are being deleted from the storage.
    ClearingStorage { block: BlockRow },
    /// The block's object rows are being deleted.
    DeletingObjects { block: BlockRow },
    /// The block row is being deleted; `deleted` object rows went before it.
    DeletingBlock { deleted: u64 },
    /// The transaction is being committed after a deletion.
    Committing { deleted: u64 },
    /// The transaction is being committed after the block was not found.
    CommittingNotFound,
    /// The request has been answered.
    Finished,
}

/// The message of the answer when no block has the uid.
pub open spec fn block_not_found_message() -> Seq<char> {
    seq!['B', 'l', 'o', 'c', 'k', ' ', 'i', 's', ' ', 'n', 'o', 't', ' ', 'f', 'o', 'u', 'n', 'd', '.']
}

/// The first step of deleting the block that `req` names.
pub open spec fn delete_block_begins(req: BlockDelete, s: DeleteBlockFlow, a: Action<u64>) -> bool {
    &&& s == DeleteBlockFlow::Opening { block_uid: req.block_uid }
    &&& a == Action::<u64>::BeginTransaction
}

/// One step of a block deletion: from `s`, on `e`, the flow moves to `s2`
/// and asks for `a`.
pub open spec fn delete_block_step(s: DeleteBlockFlow, e: Event, s2: DeleteBlockFlow, a: Action<u64>) -> bool {
    if s is Finished {
        s2 is Finished && a is Abort
    } else if e is Failed {
        s2 is Finished && a == Action::<u64>::Reply { result: Err(e->Failed_0) }
    } else {
        match (s, e) {
            (DeleteBlockFlow::Opening { block_uid }, Event::TransactionBegun) => {
                &&& s2 is Finding
                &&& a == Action::<u64>::FindBlock { block_uid, in_transaction: true }
            },
            (DeleteBlockFlow::Finding, Event::BlockFound(None)) => {
                &&& s2 is CommittingNotFound
                &&& a is Commit
            },
            (DeleteBlockFlow::Finding, Event::BlockFound(Some(block))) => {
                &&& s2 == DeleteBlockFlow::Listing { block }
                &&& a == Action::<u64>::ListObjects { block_id: block.id }
            },
            (DeleteBlockFlow::Listing { block }, Event::ObjectsListed(objects)) => {
                if objects.len() == 0 {
                    &&& s2 == DeleteBlockFlow::DeletingObjects { block }
                    &&& a == Action::<u64>::DeleteObjectRows { block_id: block.id }
                } else {
                    &&& s2 == DeleteBlockFlow::ClearingStorage { block }
                    &&& a matches Action::DeleteStored { keys }
                    &&& texts(keys@) == object_keys(block.block_bucket_path@, objects@)
                }
            },
            (DeleteBlockFlow::ClearingStorage { block }, Event::Done) => {
                &&& s2 == DeleteBlockFlow::DeletingObjects { block }
                &&& a == Action::<u64>::DeleteObjectRows { block_id: block.id }
            },
            (DeleteBlockFlow::DeletingObjects { block }, Event::RowsDeleted(n)) => {
                &&& s2 == DeleteBlockFlow::DeletingBlock { deleted: n }
                &&& a == Action::<u64>::DeleteBlockRow { block_id: block.id }
            },
            (DeleteBlockFlow::DeletingBlock { deleted }, Event::Done) => {
                &&& s2 == DeleteBlockFlow::Committing { deleted }
                &&& a is Commit
            },
            (DeleteBlockFlow::Committing { deleted }, Event::Done) => {
                &&& s2 is Finished
                &&& a == Action::<u64>::Reply { result: Ok(deleted) }
            },
            (DeleteBlockFlow::CommittingNotFound, Event::Done) => {
                &&& s2 is Finished
                &&& a matches Action::Reply { result: Err(err) }
                &&& is_message_error(err, block_not_found_message())
            },
            _ => s2 is Finished && a is Abort,
        }
    }
}

/// Starts deleting the block that `req` names: a transaction is opened first.
pub fn delete_block_start(req: BlockDelete) -> (r: (DeleteBlockFlow, Action<u64>))
    ensures
        delete_block_begins(req, r.0, r.1),
{
    (DeleteBlockFlow::Opening { block_uid: req.block_uid }, Action::BeginTransaction)
}

/// Answers a step of a block deletion: the next state and the next action.
pub fn delete_block_next(s: DeleteBlockFlow, e: Event) -> (r: (DeleteBlockFlow, Action<u64>))
    ensures
        delete_block_step(s, e, r.0, r.1),
{
    if let DeleteBlockFlow::Finished = s {
        return (DeleteBlockFlow::Finished, abort("the block deletion is already answered"));
    }
    if let Event::Failed(err) = e {
        return (DeleteBlockFlow::Finished, Action::Reply { result: Err(err) });
    }
    match s {
        DeleteBlockFlow::Opening { block_uid } => match e {
            Event::TransactionBegun => (
                DeleteBlockFlow::Finding,
                Action::FindBlock { block_uid, in_transaction: true },
            ),
            _ => (DeleteBlockFlow::Finished, abort("unexpected event while opening the transaction")),
        },
        DeleteBlockFlow::Finding => match e {
            Event::BlockFound(None) => (DeleteBlockFlow::CommittingNotFound, Action::Commit),
            Event::BlockFound(Some(block)) => {
                let block_id = block.id;
                (DeleteBlockFlow::Listing { block }, Action::ListObjects { block_id })
            },
            _ => (DeleteBlockFlow::Finished, abort("unexpected event while finding the block")),
        },
        DeleteBlockFlow::Listing { block } => match e {
            Event::ObjectsListed(objects) => {
                if objects.len() == 0 {
                    let block_id = block.id;
                    (DeleteBlockFlow::DeletingObjects { block }, Action::DeleteObjectRows { block_id })
                } else {
                    let keys = keys_of_objects(&block.block_bucket_path, &objects);
                    (DeleteBlockFlow::ClearingStorage { block }, Action::DeleteStored { keys })
                }
            },
            _ => (DeleteBlockFlow::Finished, abort("unexpected event while listing the objects")),
        },
        DeleteBlockFlow::ClearingStorage { block } => match e {
            Event::Done => {
                let block_id = block.id;
                (DeleteBlockFlow::DeletingObjects { block }, Action::DeleteObjectRows { block_id })
            },
            _ => (DeleteBlockFlow::Finished, abort("unexpected event while clearing the storage")),
        },
        DeleteBlockFlow::DeletingObjects { block } => match e {
            Event::RowsDeleted(n) => (
                DeleteBlockFlow::DeletingBlock { deleted: n },
                Action::DeleteBlockRow { block_id: block.id },
            ),
            _ => (DeleteBlockFlow::Finished, abort("unexpected event while deleting the object rows")),
        },
        DeleteBlockFlow::DeletingBlock { deleted } => match e {
            Event::Done => (DeleteBlockFlow::Committing { deleted }, Action::Commit),
            _ => (DeleteBlockFlow::Finished, abort("unexpected event while deleting the block row")),
        },
        DeleteBlockFlow::Committing { deleted } => match e {
            Event::Done => (DeleteBlockFlow::Finished, Action::Reply { result: Ok(deleted) }),
            _ => (DeleteBlockFlow::Finished, abort("unexpected event while committing")),
        },
        DeleteBlockFlow::CommittingNotFound => match e {
            Event::Done => {
                let msg = String::from_str("Block is not found.");
                proof {
                    reveal_strlit("Block is not found.");
                    assert(msg@ =~= block_not_found_message());
                }
                (
                    DeleteBlockFlow::Finished,
                    Action::Reply { result: Err(ServerError::OtherWithMessage(msg)) },
                )
            },
            _ => (DeleteBlockFlow::Finished, abort("unexpected event while committing")),
        },
        DeleteBlockFlow::Finished => (DeleteBlockFlow::Finished, abort("the block deletion is already answered")),
    }
}

} // verus!
