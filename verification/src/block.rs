use vstd::prelude::*;
use vstd::string::StringExecFns;

use crate::model::{NewBlock, StoredBlockType};
use crate::text::{join_with_slash, slash_join};
use crate::util::{is_uuid_v4_text, local_today, new_uuid_text, DAY_BEFORE_EPOCH};

verus! {

/// Whether a new block hands files out (`send`) or collects them (`receive`).
#[derive(Debug, Clone, Copy, PartialEq, Eq)]
pub enum BlockType {
    Send,
    Receive,
}

impl BlockType {
    /// The lowercase name of the kind: `send` or `receive`.
    pub open spec fn name(self) -> Seq<char> {
        match self {
            BlockType::Send => seq!['s', 'e', 'n', 'd'],
            BlockType::Receive => seq!['r', 'e', 'c', 'e', 'i', 'v', 'e'],
        }
    }

    /// The lowercase name of the kind: `send` or `receive`.
    pub fn to_string(&self) -> (s: String)
        ensures
            s@ == self.name(),
    {
        match self {
            BlockType::Send => {
                let s = String::from_str("send");
                proof {
                    reveal_strlit("send");
                    assert(s@ =~= self.name());
                }
                s
            },
            BlockType::Receive => {
                let s = String::from_str("receive");
                proof {
                    reveal_strlit("receive");
                    assert(s@ =~= self.name());
                }
                s
            },
        }
    }
}

/// The stored kind of a block of the given kind.
pub open spec fn stored_type(bt: BlockType) -> StoredBlockType {
    match bt {
        BlockType::Send => StoredBlockType::Send,
        BlockType::Receive => StoredBlockType::Receive,
    }
}

impl From<BlockType> for StoredBlockType {
    fn from(bt: BlockType) -> (r: Self) {
        match bt {
            BlockType::Send => StoredBlockType::Send,
            BlockType::Receive => StoredBlockType::Receive,
        }
    }
}

impl vstd::std_specs::convert::FromSpecImpl<BlockType> for StoredBlockType {
    open spec fn obeys_from_spec() -> bool {
        true
    }

    open spec fn from_spec(bt: BlockType) -> StoredBlockType {
        stored_type(bt)
    }
}

/// The body of a request that creates a block.
#[derive(Debug, Clone)]
pub struct BlockCreate {
    pub name: String,
    pub description: String,
    pub block_type: BlockType,
    pub block_format: Option<String>,
    pub block_fields: Option<Vec<String>>,
}

/// Whether a block creation request is acceptable; every request is.
pub fn verify_data() -> (ok: bool)
    ensures
        ok,
{
    true
}

/// The format template that a creation request asks for: the one it names,
/// or the empty template.
pub open spec fn requested_format(req: BlockCreate) -> Seq<char> {
    match req.block_format {
        Some(f) => f@,
        None => Seq::empty(),
    }
}

/// The format fields that a creation request asks for: the ones it lists, or
/// none.
pub open spec fn requested_fields(req: BlockCreate) -> Seq<String> {
    match req.block_fields {
        Some(v) => v@,
        None => Seq::empty(),
    }
}

/// A copy of the strings of `v`, in order.
fn copy_texts(v: &Vec<String>) -> (r: Vec<String>)
    ensures
        r@ == v@,
{
    let mut r: Vec<String> = Vec::new();
    let mut i: usize = 0;
    while i < v.len()
        invariant
            i <= v.len(),
            r@ == v@.subrange(0, i as int),
        decreases v.len() - i,
    {
        r.push(v[i].clone());
        i = i + 1;
    }
    assert(v@.subrange(0, v.len() as int) =~= v@);
    r
}

/// The row that a creation request `req` gives, with the uid `uid` and the
/// creation date `create_at`: the request's name and description, its kind,
/// the storage path `<kind>/<uid>`, the requested format template (empty when
/// none is given) and the requested format fields (none when none are given).
pub open spec fn block_for_request(req: BlockCreate, uid: Seq<char>, create_at: i32, b: NewBlock) -> bool {
    &&& b.block_name@ == req.name@
    &&& b.block_uid@ == uid
    &&& b.block_description@ == req.description@
    &&& b.block_type == stored_type(req.block_type)
    &&& b.block_bucket_path@ == slash_join(req.block_type.name(), uid)
    &&& b.block_format@ == requested_format(req)
    &&& b.block_fields@ == requested_fields(req)
    &&& b.create_at == create_at
}

/// The row to insert for the creation request `req`, given the new block's
/// uid and creation date.
pub fn block_from_request(req: &BlockCreate, uid: String, create_at: i32) -> (b: NewBlock)
    ensures
        block_for_request(*req, uid@, create_at, b),
{
    let kind = req.block_type.to_string();
    let path = join_with_slash(kind.as_str(), uid.as_str());
    NewBlock {
        block_name: req.name.clone(),
        block_uid: uid,
        block_description: req.description.clone(),
        block_type: StoredBlockType::from(req.block_type),
        block_bucket_path: path,
        block_format: match &req.block_format {
            Some(f) => f.clone(),
            None => String::new(),
        },
        block_fields: match &req.block_fields {
            Some(v) => copy_texts(v),
            None => Vec::new(),
        },
        create_at,
    }
}

/// The row to insert for the creation request `req`: a fresh random UUID is
/// the block's uid and names its storage path, and the local date, never
/// before the day before the Unix epoch, is its creation date.
pub fn create_block(req: &BlockCreate) -> (b: NewBlock)
    ensures
        is_uuid_v4_text(b.block_uid@),
        b.create_at >= DAY_BEFORE_EPOCH,
        block_for_request(*req, b.block_uid@, b.create_at, b),
{
    let uid = new_uuid_text();
    let today = local_today();
    block_from_request(req, uid, today)
}

} // verus!
