use vstd::prelude::*;

use crate::error::{block_missing, block_missing_message, is_message_error};
use crate::flow::{abort, Action, Event};
use crate::model::ObjectRow;

verus! {

/// The answer to a listing: how many objects the block holds, and their rows.
#[derive(Debug)]
pub struct ObjectListing {
    pub object_num: usize,
    pub objects: Vec<ObjectRow>,
}

/// Where a listing of a block's objects stands.
#[derive(Debug)]
pub enum ListObjectsFlow {
    /// The block is being looked up.
    Finding,
    /// The block's objects are being listed.
    Listing,
    /// The request has been answered.
    Finished,
}

/// The first step of listing the objects of the block `block_uid`.
pub open spec fn list_objects_begins(block_uid: String, s: ListObjectsFlow, a: Action<ObjectListing>) -> bool {
    &&& s is Finding
    &&& a == Action::<ObjectListing>::FindBlock { block_uid, in_transaction: false }
}

/// One step of a listing: from `s`, on `e`, the flow moves to `s2` and asks for `a`.
pub open spec fn list_objects_step(
    s: ListObjectsFlow,
    e: Event,
    s2: ListObjectsFlow,
    a: Action<ObjectListing>,
) -> bool {
    if s is Finished {
        s2 is Finished && a is Abort
    } else if e is Failed {
        s2 is Finished && a == Action::<ObjectListing>::Reply { result: Err(e->Failed_0) }
    } else {
        match (s, e) {
            (ListObjectsFlow::Finding, Event::BlockFound(None)) => {
                &&& s2 is Finished
                &&& a matches Action::Reply { result: Err(err) }
                &&& is_message_error(err, block_missing_message())
            },
            (ListObjectsFlow::Finding, Event::BlockFound(Some(block))) => {
                &&& s2 is Listing
                &&& a == Action::<ObjectListing>::ListObjects { block_id: block.id }
            },
            (ListObjectsFlow::Listing, Event::ObjectsListed(objects)) => {
                &&& s2 is Finished
                &&& a == Action::<ObjectListing>::Reply {
                    result: Ok(ObjectListing { object_num: objects.len(), objects }),
                }
            },
            _ => s2 is Finished && a is Abort,
        }
    }
}

/// Starts listing the objects of the block `block_uid`: the block is looked up first.
pub fn list_objects_start(block_uid: String) -> (r: (ListObjectsFlow, Action<ObjectListing>))
    ensures
        list_objects_begins(block_uid, r.0, r.1),
{
    (ListObjectsFlow::Finding, Action::FindBlock { block_uid, in_transaction: false })
}

/// Answers a step of a listing: the next state and the next action.
pub fn list_objects_next(s: ListObjectsFlow, e: Event) -> (r: (ListObjectsFlow, Action<ObjectListing>))
    ensures
        list_objects_step(s, e, r.0, r.1),
{
    if let ListObjectsFlow::Finished = s {
        return (ListObjectsFlow::Finished, abort("the listing is already answered"));
    }
    if let Event::Failed(err) = e {
        return (ListObjectsFlow::Finished, Action::Reply { result: Err(err) });
    }
    match s {
        ListObjectsFlow::Finding => match e {
            Event::BlockFound(None) => (ListObjectsFlow::Finished, Action::Reply { result: Err(block_missing()) }),
            Event::BlockFound(Some(block)) => (ListObjectsFlow::Listing, Action::ListObjects { block_id: block.id }),
            _ => (ListObjectsFlow::Finished, abort("unexpected event while finding the block")),
        },
        ListObjectsFlow::Listing => match e {
            Event::ObjectsListed(objects) => {
                let object_num = objects.len();
                (ListObjectsFlow::Finished, Action::Reply { result: Ok(ObjectListing { object_num, objects }) })
            },
            _ => (ListObjectsFlow::Finished, abort("unexpected event while listing the objects")),
        },
        ListObjectsFlow::Finished => (ListObjectsFlow::Finished, abort("the listing is already answered")),
    }
}

} // verus!
