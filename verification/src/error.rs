use vstd::prelude::*;
use vstd::string::StringExecFns;

verus! {

/// The errors that a request can be answered with.
#[derive(Debug, Clone)]
pub enum ServerError {
    /// The caller is not allowed in: wrong credentials or an invalid token.
    Auth(String),
    /// A failure explained by a message, such as a block that does not exist.
    OtherWithMessage(String),
    /// The database refused or failed an operation; the text is its report.
    Database(String),
}

/// `e` is an authentication error with the message `msg`.
pub open spec fn is_auth_error(e: ServerError, msg: Seq<char>) -> bool {
    e matches ServerError::Auth(m) && m@ == msg
}

/// `e` is a failure with the message `msg`.
pub open spec fn is_message_error(e: ServerError, msg: Seq<char>) -> bool {
    e matches ServerError::OtherWithMessage(m) && m@ == msg
}

/// The message of the answer when no block has the uid a request names.
pub open spec fn block_missing_message() -> Seq<char> {
    seq!['C', 'a', 'n', '\'', 't', ' ', 'f', 'i', 'n', 'd', ' ', 'B', 'l', 'o', 'c', 'k', '.']
}

/// A failure with the given message.
pub fn message_error(msg: &str) -> (e: ServerError)
    ensures
        is_message_error(e, msg@),
{
    ServerError::OtherWithMessage(String::from_str(msg))
}

/// The failure for a block uid that no block has.
pub fn block_missing() -> (e: ServerError)
    ensures
        is_message_error(e, block_missing_message()),
{
    let e = message_error("Can't find Block.");
    proof {
        reveal_strlit("Can't find Block.");
        assert("Can't find Block."@ =~= block_missing_message());
    }
    e
}

/// The failure of storing an object.
pub fn put_object_failed() -> (e: ServerError)
    ensures
        is_message_error(e, "Failed to put object."@),
{
    message_error("Failed to put object.")
}

/// The failure of reading a stored object.
pub fn get_object_failed() -> (e: ServerError)
    ensures
        is_message_error(e, "Failed to get object."@),
{
    message_error("Failed to get object.")
}

/// The failure of deleting stored objects.
pub fn delete_objects_failed() -> (e: ServerError)
    ensures
        is_message_error(e, "Failed to delete objects."@),
{
    message_error("Failed to delete objects.")
}

} // verus!
