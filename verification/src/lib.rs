//! A file-sharing service organised around blocks: each block is a sending or
//! receiving task, and holds the objects uploaded to it.

pub mod text;
pub mod util;
pub mod error;
pub mod model;
pub mod flow;
pub mod delete_block;
pub mod delete_objects;
pub mod block;
pub mod list_objects;
pub mod put_object;
pub mod get_object;
pub mod auth;
pub mod laws;
pub mod s3;
