use blobstore::config::Config;

#[test]
fn config_holds_exactly_what_it_was_given() {
    let config = Config::new(
        String::from("us-east-1"),
        String::from("https://s3.example.test"),
        String::from("access"),
        String::from("secret"),
        String::from("blobs"),
        5,
        String::from("127.0.0.1"),
        8080,
    );
    assert_eq!(config.s3_region, "us-east-1");
    assert_eq!(config.s3_endpoint, "https://s3.example.test");
    assert_eq!(config.s3_access_key, "access");
    assert_eq!(config.s3_secret_key, "secret");
    assert_eq!(config.s3_bucket, "blobs");
    assert_eq!(config.s3_retries, 5);
    assert_eq!(config.http_host, "127.0.0.1");
    assert_eq!(config.http_port, 8080);
}
