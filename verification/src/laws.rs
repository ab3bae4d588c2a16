use vstd::prelude::*;

use crate::auth::{
    accepted_claims, all_claims, decoded_fields, decoding_refused, hs256_signature_valid, issued_token, verify_token, Claims,
};
use crate::block::{block_for_request, BlockCreate};
use crate::error::ServerError;
use crate::delete_block::{delete_block_begins, delete_block_step, BlockDelete, DeleteBlockFlow};
use crate::delete_objects::{delete_objects_begins, delete_objects_step, DeleteObjectsFlow, ObjectDelete};
use crate::flow::{Action, Event};
use crate::get_object::{
    content_type_header, disposition_header, get_object_step, headers_for, GetObjectFlow, GetOutcome, ObjectHeaders,
};
use crate::list_objects::{list_objects_step, ListObjectsFlow, ObjectListing};
use crate::model::{named_keys, object_keys, storage_key, texts, BlockRow, NewBlock, ObjectRow, Upload};
use crate::text::{after_first_slash, slash_join};
use crate::put_object::{put_object_next, put_object_step, PutObjectFlow};
use crate::util::{is_uuid_v4_text, lemma_drawn_uuid_form, uuid_drawn};

verus! {

/// A run of a block deletion: the first step, then one step per event.
pub open spec fn delete_block_run(
    req: BlockDelete,
    states: Seq<DeleteBlockFlow>,
    events: Seq<Event>,
    actions: Seq<Action<u64>>,
) -> bool {
    &&& states.len() == events.len() + 1
    &&& actions.len() == events.len() + 1
    &&& delete_block_begins(req, states[0], actions[0])
    &&& forall|i: int|
        #![trigger events[i]]
        0 <= i < events.len() ==> delete_block_step(states[i], events[i], states[i + 1], actions[i + 1])
}

/// A run of a deletion of objects: the first step, then one step per event.
pub open spec fn delete_objects_run(
    req: ObjectDelete,
    block_uid: String,
    states: Seq<DeleteObjectsFlow>,
    events: Seq<Event>,
    actions: Seq<Action<usize>>,
) -> bool {
    &&& states.len() == events.len() + 1
    &&& actions.len() == events.len() + 1
    &&& delete_objects_begins(req, block_uid, states[0], actions[0])
    &&& forall|i: int|
        #![trigger events[i]]
        0 <= i < events.len() ==> delete_objects_step(states[i], events[i], states[i + 1], actions[i + 1])
}

/// The uploaded file is downloaded from where the upload stored it: the key
/// that an upload into a block stores a file under is the key that a download
/// of the recorded object from that block reads.
pub proof fn law_download_reads_uploaded_key(
    block: BlockRow,
    upload: Upload,
    name: String,
    stored: PutObjectFlow,
    store: Action<Option<ObjectRow>>,
    inserting: PutObjectFlow,
    insert: Action<Option<ObjectRow>>,
    row: ObjectRow,
    object_uid: String,
    seeking: GetObjectFlow,
    find: Action<GetOutcome>,
    fetching: GetObjectFlow,
    fetch: Action<GetOutcome>,
)
    requires
        put_object_step(PutObjectFlow::Receiving { block }, Event::Uploaded(Some(upload)), name, stored, store),
        put_object_step(stored, Event::Done, name, inserting, insert),
        insert matches Action::InsertObject { object } && row.object_bucket_name@ == object.object_bucket_name@,
        get_object_step(GetObjectFlow::Finding { object_uid }, Event::BlockFound(Some(block)), seeking, find),
        get_object_step(seeking, Event::ObjectFound(Some(row)), fetching, fetch),
    ensures
        store matches Action::StoreObject { key, .. } && fetch matches Action::FetchObject { key: read }
            && read@ == key@,
{
}

/// An object deletion removes, for each named object, the key that the upload
/// of that object stored it under.
pub proof fn law_object_deletion_clears_uploaded_key(
    block: BlockRow,
    upload: Upload,
    name: String,
    stored: PutObjectFlow,
    store: Action<Option<ObjectRow>>,
    object_uids: Vec<String>,
    next: usize,
    i: int,
    cleared: DeleteObjectsFlow,
    clear: Action<usize>,
)
    requires
        put_object_step(PutObjectFlow::Receiving { block }, Event::Uploaded(Some(upload)), name, stored, store),
        delete_objects_step(
            DeleteObjectsFlow::Removing { block, object_uids, next },
            Event::Done,
            cleared,
            clear,
        ),
        clear is DeleteStored,
        0 <= i < object_uids.len(),
        object_uids@[i]@ == name@,
    ensures
        store matches Action::StoreObject { key, .. } && clear matches Action::DeleteStored { keys }
            && keys@.len() == object_uids.len() && keys@[i]@ == key@,
{
    let keys = clear->DeleteStored_keys;
    assert(texts(keys@) == named_keys(block.block_bucket_path@, object_uids@));
    assert(texts(keys@).len() == keys@.len());
    assert(texts(keys@)[i] == keys@[i]@);
    assert(named_keys(block.block_bucket_path@, object_uids@)[i] == keys@[i]@);
}

/// A block deletion removes, for each object listed in the block, the key that
/// the upload of that object stored it under.
pub proof fn law_block_deletion_clears_uploaded_key(
    block: BlockRow,
    upload: Upload,
    name: String,
    stored: PutObjectFlow,
    store: Action<Option<ObjectRow>>,
    objects: Vec<ObjectRow>,
    i: int,
    cleared: DeleteBlockFlow,
    clear: Action<u64>,
)
    requires
        put_object_step(PutObjectFlow::Receiving { block }, Event::Uploaded(Some(upload)), name, stored, store),
        delete_block_step(
            DeleteBlockFlow::Listing { block },
            Event::ObjectsListed(objects),
            cleared,
            clear,
        ),
        0 <= i < objects.len(),
        objects@[i].object_bucket_name@ == name@,
    ensures
        store matches Action::StoreObject { key, .. } && clear matches Action::DeleteStored { keys }
            && keys@.len() == objects.len() && keys@[i]@ == key@,
{
    let keys = clear->DeleteStored_keys;
    assert(texts(keys@) == object_keys(block.block_bucket_path@, objects@));
    assert(texts(keys@).len() == keys@.len());
    assert(texts(keys@)[i] == keys@[i]@);
    assert(object_keys(block.block_bucket_path@, objects@)[i] == keys@[i]@);
}

/// A failed database or storage operation answers the pending request with
/// that very error, in every flow that answers errors.
pub proof fn law_failures_are_answered(
    e: ServerError,
    s1: DeleteBlockFlow,
    t1: DeleteBlockFlow,
    a1: Action<u64>,
    s2: DeleteObjectsFlow,
    t2: DeleteObjectsFlow,
    a2: Action<usize>,
    s3: ListObjectsFlow,
    t3: ListObjectsFlow,
    a3: Action<ObjectListing>,
    s4: PutObjectFlow,
    name: String,
    t4: PutObjectFlow,
    a4: Action<Option<ObjectRow>>,
)
    requires
        !(s1 is Finished) && delete_block_step(s1, Event::Failed(e), t1, a1),
        !(s2 is Finished) && delete_objects_step(s2, Event::Failed(e), t2, a2),
        !(s3 is Finished) && list_objects_step(s3, Event::Failed(e), t3, a3),
        !(s4 is Finished) && put_object_step(s4, Event::Failed(e), name, t4, a4),
    ensures
        (t1 is Finished && a1 == (Action::<u64>::Reply { result: Err(e) })),
        (t2 is Finished && a2 == (Action::<usize>::Reply { result: Err(e) })),
        (t3 is Finished && a3 == (Action::<ObjectListing>::Reply { result: Err(e) })),
        (t4 is Finished && a4 == (Action::<Option<ObjectRow>>::Reply { result: Err(e) })),
{
}

/// A block deletion answers success only after it has deleted the block's
/// object rows, then the block row, then committed the transaction, and the
/// number it reports is the number of object rows the database deleted.
pub proof fn law_block_deletion_success_order(
    req: BlockDelete,
    states: Seq<DeleteBlockFlow>,
    events: Seq<Event>,
    actions: Seq<Action<u64>>,
    n: u64,
)
    requires
        delete_block_run(req, states, events, actions),
        actions.last() == (Action::<u64>::Reply { result: Ok(n) }),
    ensures
        actions.len() >= 5,
        (actions[actions.len() - 2] is Commit),
        (actions[actions.len() - 3] matches Action::DeleteBlockRow { block_id: b }
            && actions[actions.len() - 4] matches Action::DeleteObjectRows { block_id: o } && b == o),
        events[events.len() - 3] == Event::RowsDeleted(n),
{
    let m = actions.len() as int;
    assert(m >= 2);
    assert(delete_block_step(states[m - 2], events[m - 2], states[m - 1], actions[m - 1]));
    assert(states[m - 2] == DeleteBlockFlow::Committing { deleted: n });
    assert(m - 2 >= 1);
    assert(delete_block_step(states[m - 3], events[m - 3], states[m - 2], actions[m - 2]));
    assert(states[m - 3] == DeleteBlockFlow::DeletingBlock { deleted: n });
    assert(m - 3 >= 1);
    assert(delete_block_step(states[m - 4], events[m - 4], states[m - 3], actions[m - 3]));
    let block = states[m - 4]->DeletingObjects_block;
    assert(states[m - 4] == DeleteBlockFlow::DeletingObjects { block });
    assert(m - 4 >= 1);
    assert(delete_block_step(states[m - 5], events[m - 5], states[m - 4], actions[m - 4]));
}

/// What a state of an object deletion still holds of its request: the names
/// of the objects, or the count of them once the rows are gone.
pub open spec fn carries_names(s: DeleteObjectsFlow, object_uids: Vec<String>) -> bool {
    match s {
        DeleteObjectsFlow::Opening { object_uids: u, .. } => u == object_uids,
        DeleteObjectsFlow::Finding { object_uids: u } => u == object_uids,
        DeleteObjectsFlow::Seeking { object_uids: u, .. } => u == object_uids,
        DeleteObjectsFlow::Removing { object_uids: u, .. } => u == object_uids,
        DeleteObjectsFlow::ClearingStorage { count } => count == object_uids.len(),
        DeleteObjectsFlow::Committing { count } => count == object_uids.len(),
        DeleteObjectsFlow::Finished => true,
    }
}

proof fn lemma_run_carries_names(
    req: ObjectDelete,
    block_uid: String,
    states: Seq<DeleteObjectsFlow>,
    events: Seq<Event>,
    actions: Seq<Action<usize>>,
    k: int,
)
    requires
        delete_objects_run(req, block_uid, states, events, actions),
        0 <= k < states.len(),
    ensures
        carries_names(states[k], req.object_uids),
    decreases k,
{
    if k > 0 {
        lemma_run_carries_names(req, block_uid, states, events, actions, k - 1);
        assert(delete_objects_step(states[k - 1], events[k - 1], states[k], actions[k]));
    }
}

/// An object deletion answers success only after it has deleted from the
/// storage exactly the keys of the named objects of the block, in the order
/// named, and then committed; the number it reports is the number of names.
pub proof fn law_object_deletion_success(
    req: ObjectDelete,
    block_uid: String,
    states: Seq<DeleteObjectsFlow>,
    events: Seq<Event>,
    actions: Seq<Action<usize>>,
    n: usize,
)
    requires
        delete_objects_run(req, block_uid, states, events, actions),
        actions.last() == (Action::<usize>::Reply { result: Ok(n) }),
    ensures
        n == req.object_uids.len(),
        actions.len() >= 4,
        (actions[actions.len() - 2] is Commit),
        (actions[actions.len() - 3] matches Action::DeleteStored { keys } && exists|i: int|
            0 <= i < events.len() - 2 && (#[trigger] events[i] matches Event::BlockFound(Some(block))
                && texts(keys@) == named_keys(block.block_bucket_path@, req.object_uids@))),
{
    let m = actions.len() as int;
    assert(m >= 2);
    assert(delete_objects_step(states[m - 2], events[m - 2], states[m - 1], actions[m - 1]));
    assert(states[m - 2] == DeleteObjectsFlow::Committing { count: n });
    lemma_run_carries_names(req, block_uid, states, events, actions, m - 2);
    assert(m - 2 >= 1);
    assert(delete_objects_step(states[m - 3], events[m - 3], states[m - 2], actions[m - 2]));
    assert(states[m - 3] == DeleteObjectsFlow::ClearingStorage { count: n });
    assert(m - 3 >= 1);
    assert(delete_objects_step(states[m - 4], events[m - 4], states[m - 3], actions[m - 3]));
    lemma_run_carries_names(req, block_uid, states, events, actions, m - 4);
    if let Action::DeleteStored { keys } = actions[m - 3] {
        match states[m - 4] {
            DeleteObjectsFlow::Finding { object_uids } => {
                let block = events[m - 4]->BlockFound_0->Some_0;
                assert(texts(keys@) =~= named_keys(block.block_bucket_path@, req.object_uids@));
                assert(events[m - 4] == Event::BlockFound(Some(block)));
                assert(events[m - 4] matches Event::BlockFound(Some(b)) && texts(keys@) == named_keys(
                    b.block_bucket_path@,
                    req.object_uids@,
                ));
            },
            DeleteObjectsFlow::Removing { block, object_uids, next } => {
                lemma_block_was_found(req, block_uid, states, events, actions, m - 4);
                assert(texts(keys@) == named_keys(block.block_bucket_path@, req.object_uids@));
                let i = choose|i: int| 0 <= i < m - 4 && #[trigger] events[i] == Event::BlockFound(Some(block));
                assert(events[i] matches Event::BlockFound(Some(b)) && texts(keys@) == named_keys(
                    b.block_bucket_path@,
                    req.object_uids@,
                ));
            },
            _ => {},
        }
    }
}

/// The block a state of an object deletion works on, if any.
pub open spec fn working_block(s: DeleteObjectsFlow) -> Option<BlockRow> {
    match s {
        DeleteObjectsFlow::Seeking { block, .. } => Some(block),
        DeleteObjectsFlow::Removing { block, .. } => Some(block),
        _ => None,
    }
}

proof fn lemma_block_was_found(
    req: ObjectDelete,
    block_uid: String,
    states: Seq<DeleteObjectsFlow>,
    events: Seq<Event>,
    actions: Seq<Action<usize>>,
    k: int,
)
    requires
        delete_objects_run(req, block_uid, states, events, actions),
        0 <= k < states.len(),
    ensures
        (working_block(states[k]) matches Some(block) ==> exists|i: int|
            0 <= i < k && #[trigger] events[i] == Event::BlockFound(Some(block))),
    decreases k,
{
    if k > 0 {
        lemma_block_was_found(req, block_uid, states, events, actions, k - 1);
        assert(delete_objects_step(states[k - 1], events[k - 1], states[k], actions[k]));
        if working_block(states[k]) is Some && states[k - 1] is Finding {
            assert(events[k - 1] == Event::BlockFound(working_block(states[k])));
        }
    } else {
        assert(states[0] is Opening);
    }
}

/// `a` looks up the object with the storage name `name`.
pub open spec fn is_lookup_of(a: Action<usize>, name: String) -> bool {
    a matches Action::FindObject { bucket_name, .. } && bucket_name == name
}

/// Before the action at index `k`, the object named `name` was looked up and
/// the row found was deleted by the next action.
pub open spec fn removed_before(actions: Seq<Action<usize>>, name: String, k: int) -> bool {
    exists|j: int| 0 <= j < k && #[trigger] is_lookup_of(actions[j], name) && actions[j + 1] is DeleteObjectRow
}

/// What the run has done by the state at index `k`, while it works through
/// the names one by one.
pub open spec fn names_progress(states: Seq<DeleteObjectsFlow>, actions: Seq<Action<usize>>, k: int) -> bool {
    &&& states[k] matches DeleteObjectsFlow::Seeking { block, object_uids, next } ==> {
        &&& next < object_uids.len()
        &&& is_lookup_of(actions[k], object_uids@[next as int])
        &&& forall|i: int| 0 <= i < next ==> removed_before(actions, #[trigger] object_uids@[i], k)
    }
    &&& states[k] matches DeleteObjectsFlow::Removing { block, object_uids, next } ==> {
        &&& next < object_uids.len()
        &&& forall|i: int| 0 <= i <= next ==> removed_before(actions, #[trigger] object_uids@[i], k + 1)
    }
}

proof fn lemma_names_progress(
    req: ObjectDelete,
    block_uid: String,
    states: Seq<DeleteObjectsFlow>,
    events: Seq<Event>,
    actions: Seq<Action<usize>>,
    k: int,
)
    requires
        delete_objects_run(req, block_uid, states, events, actions),
        0 <= k < states.len(),
    ensures
        names_progress(states, actions, k),
    decreases k,
{
    if k > 0 {
        lemma_names_progress(req, block_uid, states, events, actions, k - 1);
        assert(delete_objects_step(states[k - 1], events[k - 1], states[k], actions[k]));
        match states[k] {
            DeleteObjectsFlow::Seeking { block, object_uids, next } => {
                if states[k - 1] is Removing {
                    let prev_next = states[k - 1]->Removing_next;
                    assert forall|i: int| 0 <= i < next implies removed_before(
                        actions,
                        #[trigger] object_uids@[i],
                        k,
                    ) by {
                        assert(0 <= i <= prev_next);
                    }
                }
            },
            DeleteObjectsFlow::Removing { block, object_uids, next } => {
                assert(states[k - 1] is Seeking);
                assert(is_lookup_of(actions[k - 1], object_uids@[next as int]));
                assert(actions[k] is DeleteObjectRow);
                assert forall|i: int| 0 <= i <= next implies removed_before(
                    actions,
                    #[trigger] object_uids@[i],
                    k + 1,
                ) by {
                    if i == next {
                        assert(is_lookup_of(actions[k - 1], object_uids@[i]));
                        assert(actions[(k - 1) + 1] is DeleteObjectRow);
                    } else {
                        assert(removed_before(actions, object_uids@[i], k));
                    }
                }
            },
            _ => {},
        }
    } else {
        assert(states[0] is Opening);
    }
}

/// An object deletion answers success only after it has looked up every named
/// object of the block and deleted the row it found.
pub proof fn law_object_deletion_removes_every_row(
    req: ObjectDelete,
    block_uid: String,
    states: Seq<DeleteObjectsFlow>,
    events: Seq<Event>,
    actions: Seq<Action<usize>>,
    n: usize,
)
    requires
        delete_objects_run(req, block_uid, states, events, actions),
        actions.last() == (Action::<usize>::Reply { result: Ok(n) }),
    ensures
        forall|i: int|
            0 <= i < req.object_uids.len() ==> removed_before(actions, #[trigger] req.object_uids@[i], actions.len() - 1),
{
    let m = actions.len() as int;
    law_object_deletion_success(req, block_uid, states, events, actions, n);
    assert(delete_objects_step(states[m - 2], events[m - 2], states[m - 1], actions[m - 1]));
    assert(delete_objects_step(states[m - 3], events[m - 3], states[m - 2], actions[m - 2]));
    assert(delete_objects_step(states[m - 4], events[m - 4], states[m - 3], actions[m - 3]));
    lemma_run_carries_names(req, block_uid, states, events, actions, m - 4);
    lemma_names_progress(req, block_uid, states, events, actions, m - 4);
    if let DeleteObjectsFlow::Removing { block, object_uids, next } = states[m - 4] {
        assert forall|i: int| 0 <= i < req.object_uids.len() implies removed_before(
            actions,
            #[trigger] req.object_uids@[i],
            m - 1,
        ) by {
            assert(removed_before(actions, object_uids@[i], m - 3));
            let j = choose|j: int|
                0 <= j < m - 3 && #[trigger] is_lookup_of(actions[j], object_uids@[i]) && actions[j + 1] is DeleteObjectRow;
            assert(0 <= j < m - 1);
        }
    }
}

/// A file uploaded into a block is stored under the block's kind, the
/// block's uid and the file's storage name: `<kind>/<block uid>/<name>`.
pub proof fn law_upload_key_names_block(
    req: BlockCreate,
    uid: Seq<char>,
    create_at: i32,
    created: NewBlock,
    block: BlockRow,
    upload: Upload,
    name: String,
    stored: PutObjectFlow,
    store: Action<Option<ObjectRow>>,
)
    requires
        block_for_request(req, uid, create_at, created),
        block.block_bucket_path@ == created.block_bucket_path@,
        put_object_step(PutObjectFlow::Receiving { block }, Event::Uploaded(Some(upload)), name, stored, store),
    ensures
        (store matches Action::StoreObject { key, .. } && key@ == slash_join(
            slash_join(req.block_type.name(), uid),
            name@,
        )),
{
}

/// A download of an uploaded file answers with the bytes the upload stored,
/// typed as the upload was and named after the part of the file name after
/// its first `/` — given that the storage gives back under a key what was
/// stored under it, and the database gives back the row that was inserted.
pub proof fn law_download_returns_uploaded_file(
    block: BlockRow,
    upload: Upload,
    name: String,
    stored: PutObjectFlow,
    store: Action<Option<ObjectRow>>,
    inserting: PutObjectFlow,
    insert: Action<Option<ObjectRow>>,
    row: ObjectRow,
    object_uid: String,
    seeking: GetObjectFlow,
    find: Action<GetOutcome>,
    fetching: GetObjectFlow,
    fetch: Action<GetOutcome>,
    fetched: Vec<u8>,
    probing: GetObjectFlow,
    probe: Action<GetOutcome>,
    done: GetObjectFlow,
    answer: Action<GetOutcome>,
)
    requires
        put_object_step(PutObjectFlow::Receiving { block }, Event::Uploaded(Some(upload)), name, stored, store),
        put_object_step(stored, Event::Done, name, inserting, insert),
        (insert matches Action::InsertObject { object } && row.object_name@ == object.object_name@
            && row.object_type@ == object.object_type@ && row.object_bucket_name@ == object.object_bucket_name@),
        get_object_step(GetObjectFlow::Finding { object_uid }, Event::BlockFound(Some(block)), seeking, find),
        get_object_step(seeking, Event::ObjectFound(Some(row)), fetching, fetch),
        (store matches Action::StoreObject { body, .. } && fetched == body),
        get_object_step(fetching, Event::Fetched(fetched), probing, probe),
        get_object_step(probing, Event::Done, done, answer),
        after_first_slash(upload.file_name@) is Some,
    ensures
        (store matches Action::StoreObject { key, .. } && fetch matches Action::FetchObject { key: read }
            && read@ == key@),
        (answer matches Action::Reply { result: Ok(GetOutcome::Download { headers, body }) }
            && body@ == upload.data@
            && headers.content_type@ == content_type_header(upload.content_type@)
            && headers.content_disposition@ == disposition_header(after_first_slash(upload.file_name@)->0)),
{
}

/// A token issued for some claims under a secret, read back under the same
/// secret, gives back those very claims: whenever the reading accepts it, the
/// claims accepted are the subject, expiry and issue time it was issued with.
pub proof fn law_token_round_trip(
    sub: Seq<char>,
    exp: int,
    iat: int,
    secret: Seq<u8>,
    token: Seq<char>,
    back: Claims,
)
    requires
        issued_token(sub, exp, iat, secret, token),
        accepted_claims(token, secret, back),
    ensures
        back.sub@ == sub,
        back.exp == exp,
        back.iat == iat,
{
}

/// An issued token carries a valid signature under the secret it was issued
/// with, so reading it back under that secret is never refused for its
/// signature.
pub proof fn law_issued_token_signature_valid(sub: Seq<char>, exp: int, iat: int, secret: Seq<u8>, token: Seq<char>)
    requires
        issued_token(sub, exp, iat, secret, token),
    ensures
        hs256_signature_valid(token, secret),
{
}

/// Listing the objects of a found block answers success with every row
/// listed and their number, whatever that number is, none included.
pub proof fn law_listing_answers_every_row(objects: Vec<ObjectRow>, s2: ListObjectsFlow, a: Action<ObjectListing>)
    requires
        list_objects_step(ListObjectsFlow::Listing, Event::ObjectsListed(objects), s2, a),
    ensures
        (a matches Action::Reply { result: Ok(listing) } && listing.object_num == objects@.len()
            && listing.objects@ == objects@),
{
}

/// A listing answers an error only where an operation failed, with that very
/// failure, or where the block is missing.
pub proof fn law_listing_errors_only_on_failure_or_missing_block(
    s: ListObjectsFlow,
    e: Event,
    s2: ListObjectsFlow,
    a: Action<ObjectListing>,
)
    requires
        list_objects_step(s, e, s2, a),
        (a matches Action::Reply { result: Err(_) }),
    ensures
        (e matches Event::Failed(f) && a == Action::<ObjectListing>::Reply { result: Err(f) })
            || (s is Finding && e matches Event::BlockFound(None)),
{
}

/// The state of an object deletion, some time after the block `b` was found,
/// works on `b` whenever it works on a block at all.
pub open spec fn works_on_found_block(s: DeleteObjectsFlow, b: BlockRow) -> bool {
    match s {
        DeleteObjectsFlow::Opening { .. } => false,
        DeleteObjectsFlow::Finding { .. } => false,
        DeleteObjectsFlow::Seeking { block, .. } => block == b,
        DeleteObjectsFlow::Removing { block, .. } => block == b,
        _ => true,
    }
}

proof fn lemma_deletion_keeps_found_block(
    req: ObjectDelete,
    block_uid: String,
    states: Seq<DeleteObjectsFlow>,
    events: Seq<Event>,
    actions: Seq<Action<usize>>,
    j: int,
    b: BlockRow,
    i: int,
)
    requires
        delete_objects_run(req, block_uid, states, events, actions),
        0 <= j < events.len(),
        events[j] == Event::BlockFound(Some(b)),
        j < i < states.len(),
    ensures
        works_on_found_block(states[i], b),
    decreases i,
{
    assert(delete_objects_step(states[i - 1], events[i - 1], states[i], actions[i]));
    if i > j + 1 {
        lemma_deletion_keeps_found_block(req, block_uid, states, events, actions, j, b, i - 1);
    }
}

/// Once the block of an object deletion is found, every object the deletion
/// looks up is looked up in that block, for every name, not only the first.
pub proof fn law_object_deletion_seeks_in_found_block(
    req: ObjectDelete,
    block_uid: String,
    states: Seq<DeleteObjectsFlow>,
    events: Seq<Event>,
    actions: Seq<Action<usize>>,
    j: int,
    b: BlockRow,
    k: int,
)
    requires
        delete_objects_run(req, block_uid, states, events, actions),
        0 <= j < events.len(),
        events[j] == Event::BlockFound(Some(b)),
        j < k < actions.len(),
    ensures
        actions[k] matches Action::FindObject { block_id, .. } ==> block_id == b.id,
{
    assert(delete_objects_step(states[k - 1], events[k - 1], states[k], actions[k]));
    if k - 1 > j {
        lemma_deletion_keeps_found_block(req, block_uid, states, events, actions, j, b, k - 1);
    }
}

/// The part of a name after its first `/` is what follows a first part that
/// holds no `/`.
proof fn lemma_after_first_slash_of(dir: Seq<char>, file: Seq<char>)
    requires
        forall|i: int| 0 <= i < dir.len() ==> dir[i] != '/',
    ensures
        after_first_slash(dir + seq!['/'] + file) == Some(file),
    decreases dir.len(),
{
    let s = dir + seq!['/'] + file;
    if dir.len() == 0 {
        assert(s.drop_first() =~= file);
    } else {
        lemma_after_first_slash_of(dir.drop_first(), file);
        assert(s.drop_first() =~= dir.drop_first() + seq!['/'] + file);
    }
}

/// A download of an object named `<dir>/<file>`, where `<dir>` holds no `/`,
/// is an attachment named `<file>`, character for character, typed as the
/// object is with the UTF-8 charset.
pub proof fn law_download_headers(object: ObjectRow, h: ObjectHeaders, dir: Seq<char>, file: Seq<char>)
    requires
        object.object_name@ == dir + seq!['/'] + file,
        forall|i: int| 0 <= i < dir.len() ==> dir[i] != '/',
        headers_for(object, h),
    ensures
        h.content_disposition@ == "attachment; filename=\""@ + file + "\""@,
        h.content_type@ == object.object_type@ + "; charset=utf-8"@,
{
    lemma_after_first_slash_of(dir, file);
}

/// A name with a `/` in it always gives download headers: its part after
/// the first `/` is there.
pub proof fn law_named_object_has_attachment_name(dir: Seq<char>, file: Seq<char>)
    requires
        forall|i: int| 0 <= i < dir.len() ==> dir[i] != '/',
    ensures
        after_first_slash(dir + seq!['/'] + file) == Some(file),
{
    lemma_after_first_slash_of(dir, file);
}

/// Two files received into a block under different storage names are stored
/// under different keys, so neither overwrites the other.
pub proof fn law_distinct_names_distinct_keys(
    block: BlockRow,
    first: Upload,
    second: Upload,
    name1: String,
    name2: String,
    s1: PutObjectFlow,
    a1: Action<Option<ObjectRow>>,
    s2: PutObjectFlow,
    a2: Action<Option<ObjectRow>>,
)
    requires
        put_object_step(PutObjectFlow::Receiving { block }, Event::Uploaded(Some(first)), name1, s1, a1),
        put_object_step(PutObjectFlow::Receiving { block }, Event::Uploaded(Some(second)), name2, s2, a2),
        name1@ != name2@,
    ensures
        (a1 matches Action::StoreObject { key: k1, .. } && a2 matches Action::StoreObject { key: k2, .. }
            && k1@ != k2@),
{
    if let Action::StoreObject { key: k1, .. } = a1 {
        if let Action::StoreObject { key: k2, .. } = a2 {
            let p: int = block.block_bucket_path@.len() as int + 1;
            assert(k1@.subrange(p, k1@.len() as int) =~= name1@);
            assert(k2@.subrange(p, k2@.len() as int) =~= name2@);
        }
    }
}

/// Every file received into a block is stored, and recorded, under a UUID
/// drawn at random for that upload: the key is `<block path>/<uuid>`, and the
/// uuid is one that the draw gave back, not a name the flow chose.
pub proof fn law_received_file_stored_under_drawn_uuid(
    block: BlockRow,
    upload: Upload,
    r: (PutObjectFlow, Action<Option<ObjectRow>>),
)
    requires
        call_ensures(put_object_next, (PutObjectFlow::Receiving { block }, Event::Uploaded(Some(upload))), r),
    ensures
        exists|name: String|
            {
                &&& #[trigger] uuid_drawn(name)
                &&& is_uuid_v4_text(name@)
                &&& r.1 matches Action::StoreObject { key, .. } && key@ == storage_key(block.block_bucket_path@, name@)
                &&& r.0 matches PutObjectFlow::Storing { bucket_name, .. } && bucket_name == name
            },
{
    let s = PutObjectFlow::Receiving { block };
    let e = Event::Uploaded(Some(upload));
    let name = choose|name: String|
        {
            &&& (s is Receiving && e matches Event::Uploaded(Some(_))) ==> is_uuid_v4_text(name@) && uuid_drawn(name)
            &&& #[trigger] put_object_step(s, e, name, r.0, r.1)
        };
    lemma_drawn_uuid_form(name);
}

/// A bearer token is answered as `jsonwebtoken` decoded it: accepted claims
/// are those of a decoding of the token under the secret, and a refusal comes
/// only from a decoding that failed or lacked a claim, never from anything
/// else once a decoding has given all three claims.
pub proof fn law_token_verdict_follows_decoding(token: &str, secret: &[u8], r: Result<Claims, ServerError>)
    requires
        call_ensures(verify_token, (token, secret), r),
    ensures
        r matches Ok(c) ==> decoded_fields(token, secret, (Some(c.sub), Some(c.exp), Some(c.iat))),
        r is Err ==> decoding_refused(token, secret) || exists|f: (Option<String>, Option<i64>, Option<i64>)|
            #[trigger] decoded_fields(token, secret, f) && !all_claims(f),
{
}

} // verus!
