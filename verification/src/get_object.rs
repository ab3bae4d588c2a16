use vstd::prelude::*;
use vstd::string::StringExecFns;

use crate::flow::{abort, Action, Event};
use crate::model::{storage_key, ObjectRow};
use crate::text::{after_first_slash, join_with_slash, split_after_first_slash};

verus! {

/// The response headers of a download.
#[derive(Debug)]
pub struct ObjectHeaders {
    pub content_type: String,
    pub content_disposition: String,
}

/// How a download is answered.
#[derive(Debug)]
pub enum GetOutcome {
    /// `body`, the bytes read from the storage, is sent with these headers.
    Download { headers: ObjectHeaders, body: Vec<u8> },
    /// The request is refused as not found, with this message.
    FileMissing(String),
}

/// Where a download stands.
#[derive(Debug)]
pub enum GetObjectFlow {
    /// The block is being looked up; `object_uid` names the wanted object.
    Finding { object_uid: String },
    /// The object is being looked up.
    Seeking { block_path: String },
    /// The object's bytes are being read from the storage.
    Fetching { object: ObjectRow },
    /// The probe file is being opened; `body` holds the bytes read.
    Probing { object: ObjectRow, body: Vec<u8> },
    /// The request has been answered or given up.
    Finished,
}

/// The `Content-Type` of a download of an object of type `object_type`.
pub open spec fn content_type_header(object_type: Seq<char>) -> Seq<char> {
    object_type + "; charset=utf-8"@
}

/// The `Content-Disposition` of a download of a file saved as `file_name`.
pub open spec fn disposition_header(file_name: Seq<char>) -> Seq<char> {
    "attachment; filename=\""@ + file_name + "\""@
}

/// The headers of a download of `object`: its type with the UTF-8 charset,
/// and as attachment name the part of its name after the first `/`.
pub open spec fn headers_for(object: ObjectRow, h: ObjectHeaders) -> bool {
    &&& after_first_slash(object.object_name@) is Some
    &&& h.content_type@ == content_type_header(object.object_type@)
    &&& h.content_disposition@ == disposition_header(after_first_slash(object.object_name@)->0)
}

/// The first step of downloading the object `object_uid` of the block
/// `block_uid`; a request that names no object is given up.
pub open spec fn get_object_begins(
    block_uid: String,
    object_uid: Option<String>,
    s: GetObjectFlow,
    a: Action<GetOutcome>,
) -> bool {
    match object_uid {
        None => s is Finished && a is Abort,
        Some(object_uid) => {
            &&& s == GetObjectFlow::Finding { object_uid }
            &&& a == Action::<GetOutcome>::FindBlock { block_uid, in_transaction: false }
        },
    }
}

/// One step of a download: from `s`, on `e`, the flow moves to `s2` and asks
/// for `a`. Every failure, missing block or missing object gives the request
/// up.
pub open spec fn get_object_step(s: GetObjectFlow, e: Event, s2: GetObjectFlow, a: Action<GetOutcome>) -> bool {
    match (s, e) {
        (GetObjectFlow::Finding { object_uid }, Event::BlockFound(Some(block))) => {
            &&& s2 == GetObjectFlow::Seeking { block_path: block.block_bucket_path }
            &&& a == Action::<GetOutcome>::FindObject { block_id: block.id, bucket_name: object_uid }
        },
        (GetObjectFlow::Seeking { block_path }, Event::ObjectFound(Some(object))) => {
            &&& s2 == GetObjectFlow::Fetching { object }
            &&& a matches Action::FetchObject { key }
            &&& key@ == storage_key(block_path@, object.object_bucket_name@)
        },
        (GetObjectFlow::Fetching { object }, Event::Fetched(body)) => {
            &&& s2 == GetObjectFlow::Probing { object, body }
            &&& a matches Action::ProbeFile { path }
            &&& path@ == "Cargo.toml"@
        },
        (GetObjectFlow::Probing { object, body }, Event::ProbeFailed(report)) => {
            &&& s2 is Finished
            &&& a matches Action::Reply { result: Ok(GetOutcome::FileMissing(msg)) }
            &&& msg@ == "File not found: "@ + report@
        },
        (GetObjectFlow::Probing { object, body }, Event::Done) => {
            &&& s2 is Finished
            &&& if after_first_slash(object.object_name@) is Some {
                a matches Action::Reply { result: Ok(GetOutcome::Download { headers, body: sent }) }
                    && headers_for(object, headers) && sent == body
            } else {
                a is Abort
            }
        },
        _ => s2 is Finished && a is Abort,
    }
}

/// Starts downloading the object `object_uid` of the block `block_uid`: the
/// block is looked up first.
pub fn get_object_start(block_uid: String, object_uid: Option<String>) -> (r: (GetObjectFlow, Action<GetOutcome>))
    ensures
        get_object_begins(block_uid, object_uid, r.0, r.1),
{
    match object_uid {
        None => (GetObjectFlow::Finished, abort("the query names no obj_uid")),
        Some(object_uid) => (
            GetObjectFlow::Finding { object_uid },
            Action::FindBlock { block_uid, in_transaction: false },
        ),
    }
}

/// The headers of a download of `object`, or `None` where its name holds no `/`.
pub fn object_headers(object: &ObjectRow) -> (h: Option<ObjectHeaders>)
    ensures
        h is Some <==> after_first_slash(object.object_name@) is Some,
        h matches Some(h) ==> headers_for(*object, h),
{
    match split_after_first_slash(object.object_name.as_str()) {
        None => None,
        Some(file_name) => {
            let content_type = object.object_type.clone().concat("; charset=utf-8");
            let mut content_disposition = String::from_str("attachment; filename=\"");
            content_disposition.append(file_name.as_str());
            content_disposition.append("\"");
            Some(ObjectHeaders { content_type, content_disposition })
        },
    }
}

/// Answers a step of a download: the next state and the next action.
pub fn get_object_next(s: GetObjectFlow, e: Event) -> (r: (GetObjectFlow, Action<GetOutcome>))
    ensures
        get_object_step(s, e, r.0, r.1),
{
    match s {
        GetObjectFlow::Finding { object_uid } => match e {
            Event::BlockFound(Some(block)) => {
                let block_id = block.id;
                (
                    GetObjectFlow::Seeking { block_path: block.block_bucket_path },
                    Action::FindObject { block_id, bucket_name: object_uid },
                )
            },
            _ => (GetObjectFlow::Finished, abort("the block could not be found")),
        },
        GetObjectFlow::Seeking { block_path } => match e {
            Event::ObjectFound(Some(object)) => {
                let key = join_with_slash(block_path.as_str(), object.object_bucket_name.as_str());
                (GetObjectFlow::Fetching { object }, Action::FetchObject { key })
            },
            _ => (GetObjectFlow::Finished, abort("the object could not be found")),
        },
        GetObjectFlow::Fetching { object } => match e {
            Event::Fetched(body) => (
                GetObjectFlow::Probing { object, body },
                Action::ProbeFile { path: String::from_str("Cargo.toml") },
            ),
            _ => (GetObjectFlow::Finished, abort("the object could not be read")),
        },
        GetObjectFlow::Probing { object, body } => match e {
            Event::ProbeFailed(report) => {
                let msg = String::from_str("File not found: ").concat(report.as_str());
                (GetObjectFlow::Finished, Action::Reply { result: Ok(GetOutcome::FileMissing(msg)) })
            },
            Event::Done => match object_headers(&object) {
                Some(headers) => (
                    GetObjectFlow::Finished,
                    Action::Reply { result: Ok(GetOutcome::Download { headers, body }) },
                ),
                None => (GetObjectFlow::Finished, abort("the object's name holds no '/'")),
            },
            _ => (GetObjectFlow::Finished, abort("unexpected event while probing the file")),
        },
        GetObjectFlow::Finished => (GetObjectFlow::Finished, abort("the download is already answered")),
    }
}

} // verus!
