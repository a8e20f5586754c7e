//! The remote adapter: blobs handed to an object-storage bucket.
//!
//! The adapter owns a reusable bucket handle, the credential set it was
//! built from, and the retry budget it gives every upload. A `save` is
//! non-blocking by design: the verified part packages the key, a copy of
//! the blob and a fresh [`UploadTask`] into an [`UploadJob`], and the
//! unverified layer hands that job to the scheduler and returns to the
//! caller at once — acceptance, not durability. A `load` is a single
//! synchronous get; reads fail fast, only writes are retried.

use vstd::prelude::*;

use crate::error::StorageError;
use crate::retry::UploadJob;
use crate::retry::UploadTask;

verus! {

/// s3's bucket handle, opaque here: a thin, cloneable client bound to one
/// bucket, region and credential set.
#[verifier::external_type_specification]
#[verifier::external_body]
pub struct ExBucket(s3::Bucket);

/// aws-creds' credential set, opaque here; carried, never inspected.
#[verifier::external_type_specification]
#[verifier::external_body]
pub struct ExCredentials(s3::creds::Credentials);

/// aws-region's region, opaque here; produced by its string parser and
/// handed straight to the bucket constructor.
#[verifier::external_type_specification]
#[verifier::external_body]
pub struct ExRegion(s3::region::Region);

/// s3's error type, opaque here; every occurrence is mapped to
/// `StorageError::InvalidRemoteConfig` by the one caller that sees it.
#[verifier::external_type_specification]
#[verifier::external_body]
pub struct ExS3Error(s3::error::S3Error);

/// The error type aws-region's string parser names but never returns.
#[verifier::external_type_specification]
#[verifier::external_body]
pub struct ExUtf8Error(core::str::Utf8Error);

/// Relies on aws-region's Region::from_str, which returns a region for
/// every string — known names map to named regions, anything else to a
/// custom region with the string as both name and endpoint — so the result
/// is always `Ok`.
#[verifier::external_body]
fn parse_region(region: &String) -> (r: Result<s3::region::Region, core::str::Utf8Error>)
    ensures
        r is Ok,
{
    region.as_str().parse::<s3::region::Region>()
}

/// Relies on s3's Bucket::new: it assembles a reusable handle bound to the
/// given name, region and credential set without touching the network, and
/// fails only when the backing HTTP client cannot be set up.
#[verifier::external_body]
fn new_bucket(
    name: &String,
    region: s3::region::Region,
    credentials: &s3::creds::Credentials,
) -> Result<s3::Bucket, s3::error::S3Error> {
    match s3::Bucket::new(name.as_str(), region, credentials.clone()) {
        Ok(bucket) => Ok(*bucket),
        Err(e) => Err(e),
    }
}

/// A blob store over one remote bucket.
pub struct S3Adapter {
    bucket: s3::Bucket,
    credentials: s3::creds::Credentials,
    retries: usize,
}

impl S3Adapter {
    /// The attempt budget every upload spawned by this adapter gets.
    pub closed spec fn retries_spec(&self) -> nat {
        self.retries as nat
    }

    /// Builds the adapter from a credential set, a bucket name, a region
    /// name and the retry budget. Every failure — only the construction of
    /// the store handle can fail — is reported as `InvalidRemoteConfig`;
    /// on success the adapter carries exactly the given budget.
    pub fn from_credentials(
        credentials: s3::creds::Credentials,
        name: String,
        region: String,
        retries: usize,
    ) -> (r: Result<S3Adapter, StorageError>)
        ensures
            r matches Ok(a) ==> a.retries_spec() == retries,
            r matches Err(e) ==> e == StorageError::InvalidRemoteConfig,
    {
        let parsed = match parse_region(&region) {
            Ok(parsed) => parsed,
            Err(_) => {
                return Err(StorageError::InvalidRemoteConfig);
            },
        };
        match new_bucket(&name, parsed, &credentials) {
            Ok(bucket) => Ok(S3Adapter { bucket, credentials, retries }),
            Err(_) => Err(StorageError::InvalidRemoteConfig),
        }
    }

    /// The attempt budget every upload spawned by this adapter gets.
    pub fn retries(&self) -> (n: usize)
        ensures
            n == self.retries_spec(),
    {
        self.retries
    }

    /// A borrow of the store handle, for the unverified I/O layer to issue
    /// put and get calls on. The handle is cheap to duplicate and safe to
    /// share across concurrent uploads; duplicating it creates no new
    /// connection, only another logical reference.
    pub fn bucket(&self) -> &s3::Bucket {
        &self.bucket
    }

    /// The non-blocking half of a `save`: the detached unit of work,
    /// carrying its own copy of the blob — the task outlives the caller's
    /// stack frame, so it cannot borrow — the key as given, and a fresh
    /// task with this adapter's budget. Handing the job to the scheduler,
    /// and everything that happens to it afterwards, is the driver's
    /// affair and never alters the original call's result.
    pub fn make_upload_job(&self, key: String, data: &[u8]) -> (job: UploadJob)
        ensures
            job.key@ == key@,
            job.data@ == data@,
            job.task.wf(),
            job.task.attempts() == 0,
            job.task.sleeps() == 0,
            job.task.outcomes() == Seq::<bool>::empty(),
            job.task.budget() == self.retries_spec(),
            self.retries_spec() == 0 ==> job.task.gave_up(),
            self.retries_spec() > 0 ==> job.task.running(),
    {
        UploadJob { key, data: vstd::slice::slice_to_vec(data), task: UploadTask::new(self.retries) }
    }
}

/// The verdict on a remote read, given the status of the store's response
/// and the bytes that came with it: a success status yields the bytes
/// unchanged, a missing key is told apart as not-found, and every other
/// status is a plain remote failure. Reads are never retried.
pub fn interpret_remote_get(status: u16, body: Vec<u8>) -> (r: Result<Vec<u8>, StorageError>)
    ensures
        200 <= status < 300 ==> (r matches Ok(b) && b@ == body@),
        status == 404 ==> r == Err::<Vec<u8>, StorageError>(
            StorageError::RemoteError { not_found: true },
        ),
        !(200 <= status < 300) && status != 404 ==> r == Err::<Vec<u8>, StorageError>(
            StorageError::RemoteError { not_found: false },
        ),
{
    if 200 <= status && status < 300 {
        Ok(body)
    } else if status == 404 {
        Err(StorageError::RemoteError { not_found: true })
    } else {
        Err(StorageError::RemoteError { not_found: false })
    }
}

} // verus!
