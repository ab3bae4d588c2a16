use vstd::prelude::*;

verus! {

/// Whether a block hands files out or collects them, as the database stores it.
#[derive(Debug, Clone, Copy, PartialEq, Eq)]
pub enum StoredBlockType {
    Send,
    Receive,
}

/// A row of the `block` table.
#[derive(Debug, Clone)]
pub struct BlockRow {
    pub id: i32,
    pub block_name: String,
    pub block_uid: String,
    pub block_description: String,
    pub block_type: StoredBlockType,
    pub block_bucket_path: String,
    pub block_format: String,
    pub block_fields: Vec<String>,
    /// The creation date, as days from the first day of the common era.
    pub create_at: i32,
}

/// A row of the `object` table: one stored file of a block.
#[derive(Debug, Clone)]
pub struct ObjectRow {
    pub id: i32,
    pub object_name: String,
    pub object_type: String,
    pub object_size: i64,
    pub object_description: String,
    /// The object's name inside its block's storage path.
    pub object_bucket_name: String,
    pub block_id: i32,
}

/// A block row still to be inserted; the database assigns its id.
#[derive(Debug, Clone)]
pub struct NewBlock {
    pub block_name: String,
    pub block_uid: String,
    pub block_description: String,
    pub block_type: StoredBlockType,
    pub block_bucket_path: String,
    pub block_format: String,
    pub block_fields: Vec<String>,
    pub create_at: i32,
}

/// An object row still to be inserted; the database assigns its id.
#[derive(Debug, Clone)]
pub struct NewObject {
    pub object_name: String,
    pub object_type: String,
    pub object_size: i64,
    pub object_description: String,
    pub object_bucket_name: String,
    pub block_id: i32,
}

/// The first file field of an upload: its file name, its content type and
/// its bytes.
#[derive(Debug, Clone)]
pub struct Upload {
    pub file_name: String,
    pub content_type: String,
    pub data: Vec<u8>,
}

/// The storage key of an object: its block's path, `/`, its name.
pub open spec fn storage_key(block_path: Seq<char>, bucket_name: Seq<char>) -> Seq<char> {
    crate::text::slash_join(block_path, bucket_name)
}

/// The views of a sequence of strings.
pub open spec fn texts(v: Seq<String>) -> Seq<Seq<char>> {
    Seq::new(v.len(), |i: int| v[i]@)
}

/// The storage keys of the given objects of a block, in order.
pub open spec fn object_keys(block_path: Seq<char>, objects: Seq<ObjectRow>) -> Seq<Seq<char>> {
    Seq::new(objects.len(), |i: int| storage_key(block_path, objects[i].object_bucket_name@))
}

/// The storage keys of the named objects of a block, in order.
pub open spec fn named_keys(block_path: Seq<char>, names: Seq<String>) -> Seq<Seq<char>> {
    Seq::new(names.len(), |i: int| storage_key(block_path, names[i]@))
}

/// Storage keys of `objects` under `block_path`, in order.
pub fn keys_of_objects(block_path: &String, objects: &Vec<ObjectRow>) -> (keys: Vec<String>)
    ensures
        texts(keys@) == object_keys(block_path@, objects@),
{
    let mut keys: Vec<String> = Vec::new();
    let mut i: usize = 0;
    while i < objects.len()
        invariant
            i <= objects.len(),
            keys@.len() == i,
            forall|j: int| 0 <= j < i ==> #[trigger] keys@[j]@ == storage_key(block_path@, objects@[j].object_bucket_name@),
        decreases objects.len() - i,
    {
        let k = crate::text::join_with_slash(block_path.as_str(), objects[i].object_bucket_name.as_str());
        keys.push(k);
        i = i + 1;
    }
    assert(texts(keys@) =~= object_keys(block_path@, objects@));
    keys
}

/// Storage keys of the objects named `names` under `block_path`, in order.
pub fn keys_of_names(block_path: &String, names: &Vec<String>) -> (keys: Vec<String>)
    ensures
        texts(keys@) == named_keys(block_path@, names@),
{
    let mut keys: Vec<String> = Vec::new();
    let mut i: usize = 0;
    while i < names.len()
        invariant
            i <= names.len(),
            keys@.len() == i,
            forall|j: int| 0 <= j < i ==> #[trigger] keys@[j]@ == storage_key(block_path@, names@[j]@),
        decreases names.len() - i,
    {
        let k = crate::text::join_with_slash(block_path.as_str(), names[i].as_str());
        keys.push(k);
        i = i + 1;
    }
    assert(texts(keys@) =~= named_keys(block_path@, names@));
    keys
}

} // verus!
