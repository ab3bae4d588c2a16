use vstd::prelude::*;

use crate::error::{block_missing, block_missing_message, is_message_error};
use crate::flow::{abort, Action, Event};
use crate::model::{storage_key, BlockRow, NewObject, ObjectRow, Upload};
use crate::text::join_with_slash;
use crate::util::{is_uuid_v4_text, lemma_uuid_drawn, new_uuid_text, uuid_drawn};

verus! {

/// Where an upload into a block stands.
#[derive(Debug)]
pub enum PutObjectFlow {
    /// The block is being looked up.
    Finding,
    /// The upload's first file field is being read.
    Receiving { block: BlockRow },
    /// The file `file_name`, of type `content_type` and `size` bytes, is being
    /// stored under the name `bucket_name`.
    Storing { block: BlockRow, file_name: String, content_type: String, size: usize, bucket_name: String },
    /// The object row is being inserted.
    Inserting,
    /// The request has been answered.
    Finished,
}

/// The first step of uploading into the block `block_uid`.
pub open spec fn put_object_begins(block_uid: String, s: PutObjectFlow, a: Action<Option<ObjectRow>>) -> bool {
    &&& s is Finding
    &&& a == Action::<Option<ObjectRow>>::FindBlock { block_uid, in_transaction: false }
}

/// The object row recorded for the file `file_name` of type `content_type`
/// and `size` bytes, stored as `bucket_name` in `block`: the file's name and
/// type, its size, an empty description.
pub open spec fn object_for_upload(
    block: BlockRow,
    file_name: Seq<char>,
    content_type: Seq<char>,
    size: usize,
    bucket_name: Seq<char>,
    o: NewObject,
) -> bool {
    &&& o.object_name@ == file_name
    &&& o.object_type@ == content_type
    &&& o.object_size == size as i64
    &&& o.object_description@ == Seq::<char>::empty()
    &&& o.object_bucket_name@ == bucket_name
    &&& o.block_id == block.id
}

/// One step of an upload: from `s`, on `e`, the flow moves to `s2` and asks
/// for `a`; `name` is the storage name that a received file is given.
pub open spec fn put_object_step(
    s: PutObjectFlow,
    e: Event,
    name: String,
    s2: PutObjectFlow,
    a: Action<Option<ObjectRow>>,
) -> bool {
    if s is Finished {
        s2 is Finished && a is Abort
    } else if e is Failed {
        s2 is Finished && a == Action::<Option<ObjectRow>>::Reply { result: Err(e->Failed_0) }
    } else {
        match (s, e) {
            (PutObjectFlow::Finding, Event::BlockFound(None)) => {
                &&& s2 is Finished
                &&& a matches Action::Reply { result: Err(err) }
                &&& is_message_error(err, block_missing_message())
            },
            (PutObjectFlow::Finding, Event::BlockFound(Some(block))) => {
                &&& s2 == PutObjectFlow::Receiving { block }
                &&& a is NextUpload
            },
            (PutObjectFlow::Receiving { block }, Event::Uploaded(None)) => {
                &&& s2 is Finished
                &&& a == Action::<Option<ObjectRow>>::Reply { result: Ok(None) }
            },
            (PutObjectFlow::Receiving { block }, Event::Uploaded(Some(upload))) => {
                &&& s2 == PutObjectFlow::Storing {
                    block,
                    file_name: upload.file_name,
                    content_type: upload.content_type,
                    size: upload.data.len(),
                    bucket_name: name,
                }
                &&& a matches Action::StoreObject { key, content_type, length, body }
                &&& key@ == storage_key(block.block_bucket_path@, name@)
                &&& content_type@ == upload.content_type@
                &&& length == upload.data.len() as i64
                &&& body == upload.data
            },
            (PutObjectFlow::Storing { block, file_name, content_type, size, bucket_name }, Event::Done) => {
                &&& s2 is Inserting
                &&& a matches Action::InsertObject { object }
                &&& object_for_upload(block, file_name@, content_type@, size, bucket_name@, object)
            },
            (PutObjectFlow::Inserting, Event::ObjectInserted(row)) => {
                &&& s2 is Finished
                &&& a == Action::<Option<ObjectRow>>::Reply { result: Ok(Some(row)) }
            },
            _ => s2 is Finished && a is Abort,
        }
    }
}

/// Starts an upload into the block `block_uid`: the block is looked up first.
pub fn put_object_start(block_uid: String) -> (r: (PutObjectFlow, Action<Option<ObjectRow>>))
    ensures
        put_object_begins(block_uid, r.0, r.1),
{
    (PutObjectFlow::Finding, Action::FindBlock { block_uid, in_transaction: false })
}

/// Answers a step of an upload, where a received file is stored as `name`.
pub fn put_object_next_named(s: PutObjectFlow, e: Event, name: String) -> (r: (
    PutObjectFlow,
    Action<Option<ObjectRow>>,
))
    ensures
        put_object_step(s, e, name, r.0, r.1),
{
    if let PutObjectFlow::Finished = s {
        return (PutObjectFlow::Finished, abort("the upload is already answered"));
    }
    if let Event::Failed(err) = e {
        return (PutObjectFlow::Finished, Action::Reply { result: Err(err) });
    }
    match s {
        PutObjectFlow::Finding => match e {
            Event::BlockFound(None) => (PutObjectFlow::Finished, Action::Reply { result: Err(block_missing()) }),
            Event::BlockFound(Some(block)) => (PutObjectFlow::Receiving { block }, Action::NextUpload),
            _ => (PutObjectFlow::Finished, abort("unexpected event while finding the block")),
        },
        PutObjectFlow::Receiving { block } => match e {
            Event::Uploaded(None) => (PutObjectFlow::Finished, Action::Reply { result: Ok(None) }),
            Event::Uploaded(Some(upload)) => {
                let key = join_with_slash(block.block_bucket_path.as_str(), name.as_str());
                let size = upload.data.len();
                let length = size as i64;
                let Upload { file_name, content_type, data } = upload;
                let stored_type = content_type.clone();
                (
                    PutObjectFlow::Storing { block, file_name, content_type, size, bucket_name: name },
                    Action::StoreObject { key, content_type: stored_type, length, body: data },
                )
            },
            _ => (PutObjectFlow::Finished, abort("unexpected event while reading the upload")),
        },
        PutObjectFlow::Storing { block, file_name, content_type, size, bucket_name } => match e {
            Event::Done => {
                let object = NewObject {
                    object_name: file_name,
                    object_type: content_type,
                    object_size: size as i64,
                    object_description: String::new(),
                    object_bucket_name: bucket_name,
                    block_id: block.id,
                };
                (PutObjectFlow::Inserting, Action::InsertObject { object })
            },
            _ => (PutObjectFlow::Finished, abort("unexpected event while storing the file")),
        },
        PutObjectFlow::Inserting => match e {
            Event::ObjectInserted(row) => (PutObjectFlow::Finished, Action::Reply { result: Ok(Some(row)) }),
            _ => (PutObjectFlow::Finished, abort("unexpected event while inserting the object row")),
        },
        PutObjectFlow::Finished => (PutObjectFlow::Finished, abort("the upload is already answered")),
    }
}

/// Answers a step of an upload; a received file is stored under a fresh
/// random UUID, drawn for this upload only when a file has been received.
pub fn put_object_next(s: PutObjectFlow, e: Event) -> (r: (PutObjectFlow, Action<Option<ObjectRow>>))
    ensures
        exists|name: String|
            {
                &&& (s is Receiving && e matches Event::Uploaded(Some(_))) ==> is_uuid_v4_text(name@)
                    && uuid_drawn(name)
                &&& #[trigger] put_object_step(s, e, name, r.0, r.1)
            },
{
    let receives = match (&s, &e) {
        (PutObjectFlow::Receiving { .. }, Event::Uploaded(Some(_))) => true,
        _ => false,
    };
    let name = if receives {
        let drawn = new_uuid_text();
        proof {
            lemma_uuid_drawn(drawn);
        }
        drawn
    } else {
        String::new()
    };
    let ghost n = name;
    let r = put_object_next_named(s, e, name);
    assert(put_object_step(s, e, n, r.0, r.1));
    r
}

} // verus!
