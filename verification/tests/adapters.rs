use blobstore::error::StorageError;
use blobstore::local::LocalStorage;
use blobstore::remote::interpret_remote_get;
use blobstore::remote::S3Adapter;
use s3::creds::Credentials;

fn test_credentials() -> Credentials {
    Credentials::new(Some("access"), Some("secret"), None, None, None).unwrap()
}

#[test]
fn local_adapter_accepts_an_existing_path() {
    let adapter = LocalStorage::from_location(String::from(".")).unwrap();
    assert_eq!(adapter.location().as_str(), ".");
}

#[test]
fn local_adapter_rejects_a_missing_path() {
    let result = LocalStorage::from_location(String::from("/no/such/directory/anywhere/here"));
    match result {
        Ok(_) => panic!("a missing path must be refused"),
        Err(error) => assert_eq!(error, StorageError::InvalidPath),
    }
}

#[test]
fn location_decision_follows_the_existence_check() {
    let accepted = LocalStorage::accept_location(String::from("somewhere"), true);
    assert_eq!(accepted.unwrap().location().as_str(), "somewhere");
    let refused = LocalStorage::accept_location(String::from("somewhere"), false);
    match refused {
        Ok(_) => panic!("an absent path must be refused"),
        Err(error) => assert_eq!(error, StorageError::InvalidPath),
    }
}

#[test]
fn remote_adapter_carries_its_budget() {
    let adapter = S3Adapter::from_credentials(
        test_credentials(),
        String::from("blobs"),
        String::from("us-east-1"),
        4,
    )
    .unwrap();
    assert_eq!(adapter.retries(), 4);
}

#[test]
fn remote_adapter_accepts_an_unknown_region_name() {
    let adapter = S3Adapter::from_credentials(
        test_credentials(),
        String::from("blobs"),
        String::from("nowhere-on-earth-1"),
        0,
    )
    .unwrap();
    assert_eq!(adapter.retries(), 0);
}

#[test]
fn upload_job_owns_a_copy_of_the_blob() {
    let adapter = S3Adapter::from_credentials(
        test_credentials(),
        String::from("blobs"),
        String::from("us-east-1"),
        3,
    )
    .unwrap();
    let blob = vec![1u8, 2, 3, 4];
    let job = adapter.make_upload_job(String::from("a/key"), &blob);
    assert_eq!(job.key, "a/key");
    assert_eq!(job.data, blob);
    assert_eq!(job.task.attempt_budget(), 3);
    assert_eq!(job.task.attempt_count(), 0);
    assert!(!job.task.is_finished());
}

#[test]
fn upload_job_of_an_empty_blob() {
    let adapter = S3Adapter::from_credentials(
        test_credentials(),
        String::from("blobs"),
        String::from("us-east-1"),
        1,
    )
    .unwrap();
    let job = adapter.make_upload_job(String::from("empty"), &[]);
    assert_eq!(job.data, Vec::<u8>::new());
}

#[test]
fn remote_get_success_hands_the_body_through() {
    let body = vec![10u8, 20, 30];
    assert_eq!(interpret_remote_get(200, body.clone()), Ok(body));
    assert_eq!(interpret_remote_get(204, Vec::new()), Ok(Vec::new()));
}

#[test]
fn remote_get_missing_key_is_not_found() {
    assert_eq!(
        interpret_remote_get(404, Vec::new()),
        Err(StorageError::RemoteError { not_found: true })
    );
}

#[test]
fn remote_get_other_failures_are_remote_errors() {
    assert_eq!(
        interpret_remote_get(500, Vec::new()),
        Err(StorageError::RemoteError { not_found: false })
    );
    assert_eq!(
        interpret_remote_get(403, b"denied".to_vec()),
        Err(StorageError::RemoteError { not_found: false })
    );
}
