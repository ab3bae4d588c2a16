use vstd::prelude::*;

verus! {

/// The S3 client of `rusoto_s3`.
#[verifier::external_type_specification]
#[verifier::external_body]
pub struct ExS3Client(rusoto_s3::S3Client);

/// The object storage of the service: one bucket of an S3 service, and the
/// client that reaches it.
pub struct SharkS3Client {
    pub bucket_name: String,
    pub client: rusoto_s3::S3Client,
}

impl SharkS3Client {
    /// The storage in the bucket `name`, reached through `s3`.
    pub fn new(name: String, s3: rusoto_s3::S3Client) -> (c: SharkS3Client)
        ensures
            c.bucket_name == name,
            c.client == s3,
    {
        SharkS3Client { bucket_name: name, client: s3 }
    }
}

} // verus!
