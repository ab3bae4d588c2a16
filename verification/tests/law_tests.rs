use shark_share::delete_block::{delete_block_next, delete_block_start, BlockDelete};
use shark_share::delete_objects::{delete_objects_next, delete_objects_start, ObjectDelete};
use shark_share::error::ServerError;
use shark_share::flow::{Action, Event};
use shark_share::get_object::{get_object_next, get_object_start, GetOutcome};
use shark_share::list_objects::{list_objects_next, list_objects_start};
use shark_share::model::{BlockRow, ObjectRow, StoredBlockType, Upload};
use shark_share::block::{create_block, BlockCreate, BlockType};
use shark_share::put_object::{put_object_next, put_object_next_named, put_object_start};

fn block() -> BlockRow {
    BlockRow {
        id: 3,
        block_name: "b".to_string(),
        block_uid: "uid-3".to_string(),
        block_description: "".to_string(),
        block_type: StoredBlockType::Receive,
        block_bucket_path: "receive/uid-3".to_string(),
        block_format: "".to_string(),
        block_fields: vec![],
        create_at: 1,
    }
}

/// Uploads a file and returns the key it was stored under and the row recorded.
fn upload_one() -> (String, ObjectRow) {
    let (s, _) = put_object_start("uid-3".to_string());
    let (s, _) = put_object_next(s, Event::BlockFound(Some(block())));
    let upload = Upload { file_name: "x/y.txt".to_string(), content_type: "text/plain".to_string(), data: b"abcde".to_vec() };
    let (s, a) = put_object_next(s, Event::Uploaded(Some(upload)));
    let key = match a {
        Action::StoreObject { key, .. } => key,
        other => panic!("{:?}", other),
    };
    let (_, a) = put_object_next(s, Event::Done);
    let new = match a {
        Action::InsertObject { object } => object,
        other => panic!("{:?}", other),
    };
    let row = ObjectRow {
        id: 9,
        object_name: new.object_name,
        object_type: new.object_type,
        object_size: new.object_size,
        object_description: new.object_description,
        object_bucket_name: new.object_bucket_name,
        block_id: new.block_id,
    };
    (key, row)
}

#[test]
fn law_download_reads_uploaded_key_example() {
    let (key, row) = upload_one();
    let (s, _) = get_object_start("uid-3".to_string(), Some(row.object_bucket_name.clone()));
    let (s, _) = get_object_next(s, Event::BlockFound(Some(block())));
    let (_, a) = get_object_next(s, Event::ObjectFound(Some(row)));
    match a {
        Action::FetchObject { key: read } => assert_eq!(read, key),
        other => panic!("{:?}", other),
    }
}

#[test]
fn law_object_deletion_clears_uploaded_key_example() {
    let (key, row) = upload_one();
    let req = ObjectDelete { object_uids: vec![row.object_bucket_name.clone()] };
    let (s, _) = delete_objects_start(req, "uid-3".to_string());
    let (s, _) = delete_objects_next(s, Event::TransactionBegun);
    let (s, _) = delete_objects_next(s, Event::BlockFound(Some(block())));
    let (s, _) = delete_objects_next(s, Event::ObjectFound(Some(row)));
    let (_, a) = delete_objects_next(s, Event::Done);
    match a {
        Action::DeleteStored { keys } => assert_eq!(keys, vec![key]),
        other => panic!("{:?}", other),
    }
}

#[test]
fn law_block_deletion_clears_uploaded_key_example() {
    let (key, row) = upload_one();
    let (s, _) = delete_block_start(BlockDelete { block_uid: "uid-3".to_string() });
    let (s, _) = delete_block_next(s, Event::TransactionBegun);
    let (s, _) = delete_block_next(s, Event::BlockFound(Some(block())));
    let (_, a) = delete_block_next(s, Event::ObjectsListed(vec![row]));
    match a {
        Action::DeleteStored { keys } => assert_eq!(keys, vec![key]),
        other => panic!("{:?}", other),
    }
}

#[test]
fn law_failures_are_answered_example() {
    let err = || ServerError::Database("boom".to_string());
    let (s, _) = delete_block_start(BlockDelete { block_uid: "u".to_string() });
    let (_, a) = delete_block_next(s, Event::Failed(err()));
    assert!(matches!(a, Action::Reply { result: Err(ServerError::Database(ref m)) } if m == "boom"));
    let (s, _) = delete_objects_start(ObjectDelete { object_uids: vec![] }, "u".to_string());
    let (_, a) = delete_objects_next(s, Event::Failed(err()));
    assert!(matches!(a, Action::Reply { result: Err(ServerError::Database(ref m)) } if m == "boom"));
    let (s, _) = list_objects_start("u".to_string());
    let (_, a) = list_objects_next(s, Event::Failed(err()));
    assert!(matches!(a, Action::Reply { result: Err(ServerError::Database(ref m)) } if m == "boom"));
    let (s, _) = put_object_start("u".to_string());
    let (_, a) = put_object_next(s, Event::Failed(err()));
    assert!(matches!(a, Action::Reply { result: Err(ServerError::Database(ref m)) } if m == "boom"));
}

#[test]
fn law_block_deletion_success_order_example() {
    let mut actions = Vec::new();
    let (mut s, a) = delete_block_start(BlockDelete { block_uid: "uid-3".to_string() });
    actions.push(format!("{:?}", a));
    let events = vec![
        Event::TransactionBegun,
        Event::BlockFound(Some(block())),
        Event::ObjectsListed(vec![]),
        Event::RowsDeleted(4),
        Event::Done,
        Event::Done,
    ];
    for e in events {
        let (s2, a) = delete_block_next(s, e);
        s = s2;
        actions.push(format!("{:?}", a));
    }
    let n = actions.len();
    assert_eq!(actions[n - 4], "DeleteObjectRows { block_id: 3 }");
    assert_eq!(actions[n - 3], "DeleteBlockRow { block_id: 3 }");
    assert_eq!(actions[n - 2], "Commit");
    assert_eq!(actions[n - 1], "Reply { result: Ok(4) }");
}

#[test]
fn law_object_deletion_success_example() {
    let names = vec!["p".to_string(), "q".to_string(), "r".to_string()];
    let (mut s, _) = delete_objects_start(ObjectDelete { object_uids: names.clone() }, "uid-3".to_string());
    let (s2, _) = delete_objects_next(s, Event::TransactionBegun);
    s = s2;
    let (s2, _) = delete_objects_next(s, Event::BlockFound(Some(block())));
    s = s2;
    let mut last = None;
    for (i, n) in names.iter().enumerate() {
        let row = ObjectRow {
            id: i as i32,
            object_name: "f".to_string(),
            object_type: "t".to_string(),
            object_size: 0,
            object_description: "".to_string(),
            object_bucket_name: n.clone(),
            block_id: 3,
        };
        let (s2, _) = delete_objects_next(s, Event::ObjectFound(Some(row)));
        let (s3, a) = delete_objects_next(s2, Event::Done);
        s = s3;
        last = Some(a);
    }
    match last.unwrap() {
        Action::DeleteStored { keys } => {
            assert_eq!(keys, vec!["receive/uid-3/p", "receive/uid-3/q", "receive/uid-3/r"])
        },
        other => panic!("{:?}", other),
    }
    let (s2, a) = delete_objects_next(s, Event::Done);
    assert!(matches!(a, Action::Commit));
    let (_, a) = delete_objects_next(s2, Event::Done);
    assert!(matches!(a, Action::Reply { result: Ok(3) }));
}

#[test]
fn law_upload_key_names_block_example() {
    let created = create_block(&BlockCreate {
        name: "n".to_string(),
        description: "d".to_string(),
        block_type: BlockType::Receive,
        block_format: None,
        block_fields: None,
    });
    let mut row = block();
    row.block_uid = created.block_uid.clone();
    row.block_bucket_path = created.block_bucket_path.clone();
    let (s, _) = put_object_start(created.block_uid.clone());
    let (s, _) = put_object_next_named(s, Event::BlockFound(Some(row)), String::new());
    let upload = Upload { file_name: "f".to_string(), content_type: "t".to_string(), data: vec![0] };
    let (_, a) = put_object_next_named(s, Event::Uploaded(Some(upload)), "obj".to_string());
    match a {
        Action::StoreObject { key, .. } => assert_eq!(key, format!("receive/{}/obj", created.block_uid)),
        other => panic!("{:?}", other),
    }
}

#[test]
fn law_download_returns_uploaded_file_example() {
    // a storage that gives back under a key what was stored under it
    let mut storage: std::collections::HashMap<String, Vec<u8>> = std::collections::HashMap::new();
    let (s, _) = put_object_start("uid-3".to_string());
    let (s, _) = put_object_next(s, Event::BlockFound(Some(block())));
    let upload = Upload { file_name: "dir/photo.png".to_string(), content_type: "image/png".to_string(), data: vec![1, 2, 3, 250] };
    let (s, a) = put_object_next(s, Event::Uploaded(Some(upload)));
    match a {
        Action::StoreObject { key, body, .. } => {
            storage.insert(key, body);
        },
        other => panic!("{:?}", other),
    }
    let (_, a) = put_object_next(s, Event::Done);
    let new = match a {
        Action::InsertObject { object } => object,
        other => panic!("{:?}", other),
    };
    let row = ObjectRow {
        id: 1,
        object_name: new.object_name,
        object_type: new.object_type,
        object_size: new.object_size,
        object_description: new.object_description,
        object_bucket_name: new.object_bucket_name,
        block_id: new.block_id,
    };
    let (s, _) = get_object_start("uid-3".to_string(), Some(row.object_bucket_name.clone()));
    let (s, _) = get_object_next(s, Event::BlockFound(Some(block())));
    let (s, a) = get_object_next(s, Event::ObjectFound(Some(row)));
    let fetched = match a {
        Action::FetchObject { key } => storage.get(&key).unwrap().clone(),
        other => panic!("{:?}", other),
    };
    let (s, _) = get_object_next(s, Event::Fetched(fetched));
    let (_, a) = get_object_next(s, Event::Done);
    match a {
        Action::Reply { result: Ok(GetOutcome::Download { headers, body }) } => {
            assert_eq!(body, vec![1, 2, 3, 250]);
            assert_eq!(headers.content_type, "image/png; charset=utf-8");
            assert_eq!(headers.content_disposition, "attachment; filename=\"photo.png\"");
        },
        other => panic!("{:?}", other),
    }
}
