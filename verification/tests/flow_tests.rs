use shark_share::delete_block::{delete_block_next, delete_block_start, BlockDelete, DeleteBlockFlow};
use shark_share::delete_objects::{delete_objects_next, delete_objects_start, DeleteObjectsFlow, ObjectDelete};
use shark_share::error::ServerError;
use shark_share::flow::{Action, Event};
use shark_share::get_object::{get_object_next, get_object_start, object_headers, GetObjectFlow, GetOutcome};
use shark_share::list_objects::{list_objects_next, list_objects_start, ListObjectsFlow};
use shark_share::model::{keys_of_names, keys_of_objects, BlockRow, ObjectRow, StoredBlockType, Upload};
use shark_share::put_object::{put_object_next, put_object_next_named, put_object_start, PutObjectFlow};

fn block() -> BlockRow {
    BlockRow {
        id: 7,
        block_name: "b".to_string(),
        block_uid: "uid-7".to_string(),
        block_description: "".to_string(),
        block_type: StoredBlockType::Send,
        block_bucket_path: "send/uid-7".to_string(),
        block_format: "".to_string(),
        block_fields: vec![],
        create_at: 738000,
    }
}

fn object(id: i32, name: &str, bucket: &str) -> ObjectRow {
    ObjectRow {
        id,
        object_name: name.to_string(),
        object_type: "text/plain".to_string(),
        object_size: 3,
        object_description: "".to_string(),
        object_bucket_name: bucket.to_string(),
        block_id: 7,
    }
}

fn db_error() -> ServerError {
    ServerError::Database("connection lost".to_string())
}

// ---------- block deletion ----------

#[test]
fn delete_block_with_objects() {
    let (s, a) = delete_block_start(BlockDelete { block_uid: "uid-7".to_string() });
    assert!(matches!(a, Action::BeginTransaction));
    let (s, a) = delete_block_next(s, Event::TransactionBegun);
    match a {
        Action::FindBlock { block_uid, in_transaction } => {
            assert_eq!(block_uid, "uid-7");
            assert!(in_transaction);
        },
        other => panic!("{:?}", other),
    }
    let (s, a) = delete_block_next(s, Event::BlockFound(Some(block())));
    assert!(matches!(a, Action::ListObjects { block_id: 7 }));
    let (s, a) = delete_block_next(s, Event::ObjectsListed(vec![object(1, "a", "x1"), object(2, "b", "x2")]));
    match a {
        Action::DeleteStored { keys } => assert_eq!(keys, vec!["send/uid-7/x1", "send/uid-7/x2"]),
        other => panic!("{:?}", other),
    }
    let (s, a) = delete_block_next(s, Event::Done);
    assert!(matches!(a, Action::DeleteObjectRows { block_id: 7 }));
    let (s, a) = delete_block_next(s, Event::RowsDeleted(2));
    assert!(matches!(a, Action::DeleteBlockRow { block_id: 7 }));
    let (s, a) = delete_block_next(s, Event::Done);
    assert!(matches!(a, Action::Commit));
    let (s, a) = delete_block_next(s, Event::Done);
    assert!(matches!(a, Action::Reply { result: Ok(2) }));
    assert!(matches!(s, DeleteBlockFlow::Finished));
    let (_, a) = delete_block_next(s, Event::Done);
    assert!(matches!(a, Action::Abort { .. }));
}

#[test]
fn delete_block_without_objects_skips_storage() {
    let (s, _) = delete_block_start(BlockDelete { block_uid: "u".to_string() });
    let (s, _) = delete_block_next(s, Event::TransactionBegun);
    let (s, _) = delete_block_next(s, Event::BlockFound(Some(block())));
    let (s, a) = delete_block_next(s, Event::ObjectsListed(vec![]));
    assert!(matches!(a, Action::DeleteObjectRows { block_id: 7 }));
    let (s, a) = delete_block_next(s, Event::RowsDeleted(0));
    assert!(matches!(a, Action::DeleteBlockRow { block_id: 7 }));
    let (s, _) = delete_block_next(s, Event::Done);
    let (_, a) = delete_block_next(s, Event::Done);
    assert!(matches!(a, Action::Reply { result: Ok(0) }));
}

#[test]
fn delete_block_not_found() {
    let (s, _) = delete_block_start(BlockDelete { block_uid: "nope".to_string() });
    let (s, _) = delete_block_next(s, Event::TransactionBegun);
    let (s, a) = delete_block_next(s, Event::BlockFound(None));
    assert!(matches!(a, Action::Commit));
    let (s, a) = delete_block_next(s, Event::Done);
    match a {
        Action::Reply { result: Err(ServerError::OtherWithMessage(m)) } => assert_eq!(m, "Block is not found."),
        other => panic!("{:?}", other),
    }
    assert!(matches!(s, DeleteBlockFlow::Finished));
}

#[test]
fn delete_block_failure_is_answered() {
    let (s, _) = delete_block_start(BlockDelete { block_uid: "u".to_string() });
    let (s, _) = delete_block_next(s, Event::TransactionBegun);
    let (s, _) = delete_block_next(s, Event::BlockFound(Some(block())));
    let (s, a) = delete_block_next(s, Event::Failed(db_error()));
    match a {
        Action::Reply { result: Err(ServerError::Database(m)) } => assert_eq!(m, "connection lost"),
        other => panic!("{:?}", other),
    }
    assert!(matches!(s, DeleteBlockFlow::Finished));
}

#[test]
fn delete_block_unexpected_event_aborts() {
    let (s, _) = delete_block_start(BlockDelete { block_uid: "u".to_string() });
    let (s, a) = delete_block_next(s, Event::Done);
    assert!(matches!(a, Action::Abort { .. }));
    assert!(matches!(s, DeleteBlockFlow::Finished));
}

// ---------- object deletion ----------

#[test]
fn delete_objects_two_names() {
    let req = ObjectDelete { object_uids: vec!["x1".to_string(), "x2".to_string()] };
    let (s, a) = delete_objects_start(req, "uid-7".to_string());
    assert!(matches!(a, Action::BeginTransaction));
    let (s, a) = delete_objects_next(s, Event::TransactionBegun);
    assert!(matches!(a, Action::FindBlock { in_transaction: false, .. }));
    let (s, a) = delete_objects_next(s, Event::BlockFound(Some(block())));
    match a {
        Action::FindObject { block_id, bucket_name } => {
            assert_eq!(block_id, 7);
            assert_eq!(bucket_name, "x1");
        },
        other => panic!("{:?}", other),
    }
    let (s, a) = delete_objects_next(s, Event::ObjectFound(Some(object(11, "a", "x1"))));
    assert!(matches!(a, Action::DeleteObjectRow { object_id: 11 }));
    let (s, a) = delete_objects_next(s, Event::Done);
    match a {
        Action::FindObject { bucket_name, .. } => assert_eq!(bucket_name, "x2"),
        other => panic!("{:?}", other),
    }
    let (s, a) = delete_objects_next(s, Event::ObjectFound(Some(object(12, "b", "x2"))));
    assert!(matches!(a, Action::DeleteObjectRow { object_id: 12 }));
    let (s, a) = delete_objects_next(s, Event::Done);
    match a {
        Action::DeleteStored { keys } => assert_eq!(keys, vec!["send/uid-7/x1", "send/uid-7/x2"]),
        other => panic!("{:?}", other),
    }
    let (s, a) = delete_objects_next(s, Event::Done);
    assert!(matches!(a, Action::Commit));
    let (s, a) = delete_objects_next(s, Event::Done);
    assert!(matches!(a, Action::Reply { result: Ok(2) }));
    assert!(matches!(s, DeleteObjectsFlow::Finished));
}

#[test]
fn delete_objects_no_names() {
    let (s, _) = delete_objects_start(ObjectDelete { object_uids: vec![] }, "uid-7".to_string());
    let (s, _) = delete_objects_next(s, Event::TransactionBegun);
    let (s, a) = delete_objects_next(s, Event::BlockFound(Some(block())));
    match a {
        Action::DeleteStored { keys } => assert!(keys.is_empty()),
        other => panic!("{:?}", other),
    }
    let (s, _) = delete_objects_next(s, Event::Done);
    let (_, a) = delete_objects_next(s, Event::Done);
    assert!(matches!(a, Action::Reply { result: Ok(0) }));
}

#[test]
fn delete_objects_missing_block() {
    let (s, _) = delete_objects_start(ObjectDelete { object_uids: vec!["x".to_string()] }, "u".to_string());
    let (s, _) = delete_objects_next(s, Event::TransactionBegun);
    let (_, a) = delete_objects_next(s, Event::BlockFound(None));
    match a {
        Action::Reply { result: Err(ServerError::OtherWithMessage(m)) } => assert_eq!(m, "Can't find Block."),
        other => panic!("{:?}", other),
    }
}

#[test]
fn delete_objects_missing_object() {
    let req = ObjectDelete { object_uids: vec!["x1".to_string(), "x2".to_string()] };
    let (s, _) = delete_objects_start(req, "uid-7".to_string());
    let (s, _) = delete_objects_next(s, Event::TransactionBegun);
    let (s, _) = delete_objects_next(s, Event::BlockFound(Some(block())));
    let (s, _) = delete_objects_next(s, Event::ObjectFound(Some(object(11, "a", "x1"))));
    let (s, _) = delete_objects_next(s, Event::Done);
    let (s, a) = delete_objects_next(s, Event::ObjectFound(None));
    match a {
        Action::Reply { result: Err(ServerError::OtherWithMessage(m)) } => assert_eq!(m, "Can't find Object."),
        other => panic!("{:?}", other),
    }
    assert!(matches!(s, DeleteObjectsFlow::Finished));
}

// ---------- listing ----------

#[test]
fn list_objects_counts() {
    let (s, a) = list_objects_start("uid-7".to_string());
    assert!(matches!(a, Action::FindBlock { in_transaction: false, .. }));
    let (s, a) = list_objects_next(s, Event::BlockFound(Some(block())));
    assert!(matches!(a, Action::ListObjects { block_id: 7 }));
    let (s, a) = list_objects_next(s, Event::ObjectsListed(vec![object(1, "a", "x1"), object(2, "b", "x2")]));
    match a {
        Action::Reply { result: Ok(listing) } => {
            assert_eq!(listing.object_num, 2);
            assert_eq!(listing.objects[1].object_bucket_name, "x2");
        },
        other => panic!("{:?}", other),
    }
    assert!(matches!(s, ListObjectsFlow::Finished));
}

#[test]
fn list_objects_missing_block() {
    let (s, _) = list_objects_start("u".to_string());
    let (_, a) = list_objects_next(s, Event::BlockFound(None));
    match a {
        Action::Reply { result: Err(ServerError::OtherWithMessage(m)) } => assert_eq!(m, "Can't find Block."),
        other => panic!("{:?}", other),
    }
}

#[test]
fn list_objects_failure() {
    let (s, _) = list_objects_start("u".to_string());
    let (s, _) = list_objects_next(s, Event::BlockFound(Some(block())));
    let (_, a) = list_objects_next(s, Event::Failed(db_error()));
    assert!(matches!(a, Action::Reply { result: Err(ServerError::Database(_)) }));
}

// ---------- upload ----------

fn upload() -> Upload {
    Upload { file_name: "notes.txt".to_string(), content_type: "text/plain".to_string(), data: vec![7u8; 42] }
}

#[test]
fn put_object_named() {
    let (s, a) = put_object_start("uid-7".to_string());
    assert!(matches!(a, Action::FindBlock { in_transaction: false, .. }));
    let (s, a) = put_object_next_named(s, Event::BlockFound(Some(block())), String::new());
    assert!(matches!(a, Action::NextUpload));
    let (s, a) = put_object_next_named(s, Event::Uploaded(Some(upload())), "n1".to_string());
    match a {
        Action::StoreObject { key, content_type, length, body } => {
            assert_eq!(key, "send/uid-7/n1");
            assert_eq!(content_type, "text/plain");
            assert_eq!(length, 42);
            assert_eq!(body, vec![7u8; 42]);
        },
        other => panic!("{:?}", other),
    }
    let (s, a) = put_object_next_named(s, Event::Done, String::new());
    match a {
        Action::InsertObject { object } => {
            assert_eq!(object.object_name, "notes.txt");
            assert_eq!(object.object_type, "text/plain");
            assert_eq!(object.object_size, 42);
            assert_eq!(object.object_description, "");
            assert_eq!(object.object_bucket_name, "n1");
            assert_eq!(object.block_id, 7);
        },
        other => panic!("{:?}", other),
    }
    let (s, a) = put_object_next_named(s, Event::ObjectInserted(object(5, "notes.txt", "n1")), String::new());
    match a {
        Action::Reply { result: Ok(Some(row)) } => assert_eq!(row.id, 5),
        other => panic!("{:?}", other),
    }
    assert!(matches!(s, PutObjectFlow::Finished));
}

#[test]
fn put_object_draws_uuid_name() {
    let (s, _) = put_object_start("uid-7".to_string());
    let (s, _) = put_object_next(s, Event::BlockFound(Some(block())));
    let (s, a) = put_object_next(s, Event::Uploaded(Some(upload())));
    let key = match a {
        Action::StoreObject { key, .. } => key,
        other => panic!("{:?}", other),
    };
    assert!(key.starts_with("send/uid-7/"));
    let name = &key["send/uid-7/".len()..];
    assert_eq!(name.len(), 36);
    assert_eq!(name.as_bytes()[14], b'4');
    let (_, a) = put_object_next(s, Event::Done);
    match a {
        Action::InsertObject { object } => assert_eq!(object.object_bucket_name, name),
        other => panic!("{:?}", other),
    }
}

#[test]
fn put_object_without_file() {
    let (s, _) = put_object_start("uid-7".to_string());
    let (s, _) = put_object_next(s, Event::BlockFound(Some(block())));
    let (s, a) = put_object_next(s, Event::Uploaded(None));
    assert!(matches!(a, Action::Reply { result: Ok(None) }));
    assert!(matches!(s, PutObjectFlow::Finished));
}

#[test]
fn put_object_missing_block() {
    let (s, _) = put_object_start("x".to_string());
    let (_, a) = put_object_next(s, Event::BlockFound(None));
    match a {
        Action::Reply { result: Err(ServerError::OtherWithMessage(m)) } => assert_eq!(m, "Can't find Block."),
        other => panic!("{:?}", other),
    }
}

#[test]
fn put_object_storage_failure() {
    let (s, _) = put_object_start("x".to_string());
    let (s, _) = put_object_next(s, Event::BlockFound(Some(block())));
    let (s, _) = put_object_next(s, Event::Uploaded(Some(upload())));
    let err = ServerError::OtherWithMessage("Failed to put object.".to_string());
    let (_, a) = put_object_next(s, Event::Failed(err));
    match a {
        Action::Reply { result: Err(ServerError::OtherWithMessage(m)) } => assert_eq!(m, "Failed to put object."),
        other => panic!("{:?}", other),
    }
}

// ---------- download ----------

#[test]
fn get_object_download() {
    let (s, a) = get_object_start("uid-7".to_string(), Some("x1".to_string()));
    assert!(matches!(a, Action::FindBlock { in_transaction: false, .. }));
    let (s, a) = get_object_next(s, Event::BlockFound(Some(block())));
    match a {
        Action::FindObject { block_id, bucket_name } => {
            assert_eq!(block_id, 7);
            assert_eq!(bucket_name, "x1");
        },
        other => panic!("{:?}", other),
    }
    let (s, a) = get_object_next(s, Event::ObjectFound(Some(object(1, "dir/report.pdf", "x1"))));
    match a {
        Action::FetchObject { key } => assert_eq!(key, "send/uid-7/x1"),
        other => panic!("{:?}", other),
    }
    let (s, a) = get_object_next(s, Event::Fetched(b"hello".to_vec()));
    match a {
        Action::ProbeFile { path } => assert_eq!(path, "Cargo.toml"),
        other => panic!("{:?}", other),
    }
    let (s, a) = get_object_next(s, Event::Done);
    match a {
        Action::Reply { result: Ok(GetOutcome::Download { headers: h, body }) } => {
            assert_eq!(h.content_type, "text/plain; charset=utf-8");
            assert_eq!(h.content_disposition, "attachment; filename=\"report.pdf\"");
            assert_eq!(body, b"hello".to_vec());
        },
        other => panic!("{:?}", other),
    }
    assert!(matches!(s, GetObjectFlow::Finished));
}

#[test]
fn get_object_name_without_slash_aborts() {
    let (s, _) = get_object_start("uid-7".to_string(), Some("x1".to_string()));
    let (s, _) = get_object_next(s, Event::BlockFound(Some(block())));
    let (s, _) = get_object_next(s, Event::ObjectFound(Some(object(1, "report.pdf", "x1"))));
    let (s, _) = get_object_next(s, Event::Fetched(vec![]));
    let (_, a) = get_object_next(s, Event::Done);
    assert!(matches!(a, Action::Abort { .. }));
}

#[test]
fn get_object_probe_failure() {
    let (s, _) = get_object_start("uid-7".to_string(), Some("x1".to_string()));
    let (s, _) = get_object_next(s, Event::BlockFound(Some(block())));
    let (s, _) = get_object_next(s, Event::ObjectFound(Some(object(1, "a/b", "x1"))));
    let (s, _) = get_object_next(s, Event::Fetched(vec![1, 2]));
    let (_, a) = get_object_next(s, Event::ProbeFailed("No such file".to_string()));
    match a {
        Action::Reply { result: Ok(GetOutcome::FileMissing(m)) } => assert_eq!(m, "File not found: No such file"),
        other => panic!("{:?}", other),
    }
}

#[test]
fn get_object_without_uid_aborts() {
    let (s, a) = get_object_start("uid-7".to_string(), None);
    assert!(matches!(a, Action::Abort { .. }));
    assert!(matches!(s, GetObjectFlow::Finished));
}

#[test]
fn get_object_missing_rows_abort() {
    let (s, _) = get_object_start("uid-7".to_string(), Some("x".to_string()));
    let (_, a) = get_object_next(s, Event::BlockFound(None));
    assert!(matches!(a, Action::Abort { .. }));
    let (s, _) = get_object_start("uid-7".to_string(), Some("x".to_string()));
    let (s, _) = get_object_next(s, Event::BlockFound(Some(block())));
    let (_, a) = get_object_next(s, Event::ObjectFound(None));
    assert!(matches!(a, Action::Abort { .. }));
    let (s, _) = get_object_start("uid-7".to_string(), Some("x".to_string()));
    let (_, a) = get_object_next(s, Event::Failed(db_error()));
    assert!(matches!(a, Action::Abort { .. }));
}

#[test]
fn headers_of_object() {
    let h = object_headers(&object(1, "a/b/c.txt", "x")).unwrap();
    assert_eq!(h.content_disposition, "attachment; filename=\"b/c.txt\"");
    assert!(object_headers(&object(1, "c.txt", "x")).is_none());
}

#[test]
fn keys_in_order() {
    let path = "receive/u".to_string();
    assert_eq!(
        keys_of_names(&path, &vec!["a".to_string(), "b".to_string()]),
        vec!["receive/u/a", "receive/u/b"]
    );
    assert_eq!(keys_of_objects(&path, &vec![object(1, "n", "z")]), vec!["receive/u/z"]);
    assert!(keys_of_objects(&path, &vec![]).is_empty());
}
