use vstd::prelude::*;

use crate::error::ServerError;
use crate::model::{BlockRow, NewObject, ObjectRow, Upload};
use vstd::string::StringExecFns;

verus! {

/// What a request handler asks its caller to do next. The caller performs
/// the action against the database, the object storage or the request, and
/// hands back the `Event` that came of it.
#[derive(Debug)]
pub enum Action<R> {
    /// Open a database transaction.
    BeginTransaction,
    /// Look the block up by its uid, inside the open transaction or not.
    FindBlock { block_uid: String, in_transaction: bool },
    /// List every object row of the block, outside any transaction.
    ListObjects { block_id: i32 },
    /// Look up the object of the block with the given storage name, outside any transaction.
    FindObject { block_id: i32, bucket_name: String },
    /// Delete one object row, inside the transaction.
    DeleteObjectRow { object_id: i32 },
    /// Delete every object row of the block, inside the transaction.
    DeleteObjectRows { block_id: i32 },
    /// Delete the block row, inside the transaction.
    DeleteBlockRow { block_id: i32 },
    /// Delete these keys from the object storage.
    DeleteStored { keys: Vec<String> },
    /// Read the next file field of the uploaded form.
    NextUpload,
    /// Store `body`, of `length` bytes, under `key`.
    StoreObject { key: String, content_type: String, length: i64, body: Vec<u8> },
    /// Insert an object row.
    InsertObject { object: NewObject },
    /// Read the bytes stored under `key`.
    FetchObject { key: String },
    /// Open the file at `path`, to check that it can be opened.
    ProbeFile { path: String },
    /// Commit the transaction.
    Commit,
    /// Answer the request; the flow is over.
    Reply { result: Result<R, ServerError> },
    /// Give up on the request by panicking with this reason; the flow is over.
    Abort { reason: String },
}

/// What came of the last action.
#[derive(Debug)]
pub enum Event {
    TransactionBegun,
    BlockFound(Option<BlockRow>),
    ObjectsListed(Vec<ObjectRow>),
    ObjectFound(Option<ObjectRow>),
    /// The number of rows a bulk delete removed.
    RowsDeleted(u64),
    /// The next file field of the upload, if there is one.
    Uploaded(Option<Upload>),
    ObjectInserted(ObjectRow),
    /// The bytes read from the storage.
    Fetched(Vec<u8>),
    /// The action succeeded and has nothing to report.
    Done,
    /// The probed file could not be opened; the text is the error's report.
    ProbeFailed(String),
    /// The action failed with this error.
    Failed(ServerError),
}

/// An `Abort` action with the given reason.
pub fn abort<R>(reason: &str) -> (a: Action<R>)
    ensures
        a matches Action::Abort { reason: r } && r@ == reason@,
{
    Action::Abort { reason: String::from_str(reason) }
}

} // verus!
