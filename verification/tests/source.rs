use parq::source::{object_store_location, starts_with, trim_start_slashes, FileSource, ParsedUrl, SourceError};

#[test]
fn local_paths() {
    match FileSource::parse("data/file.parquet") {
        Ok(FileSource::Local(p)) => assert_eq!(p, "data/file.parquet"),
        _ => panic!("expected a local path"),
    }
    match FileSource::parse("file:///tmp/x.parquet") {
        Ok(FileSource::Local(p)) => assert_eq!(p, "/tmp/x.parquet"),
        _ => panic!("expected a local path"),
    }
}

#[test]
fn s3_urls() {
    match FileSource::parse("s3://bucket/key.parquet") {
        Ok(FileSource::ObjectStore(u)) => {
            assert_eq!(u.text, "s3://bucket/key.parquet");
            assert_eq!(u.host, Some("bucket".to_string()));
            assert_eq!(u.path, "/key.parquet");
        },
        _ => panic!("expected an object store URL"),
    }
    match FileSource::parse("s3://[bad") {
        Err(SourceError::UrlParseError(m)) => {
            assert_eq!(m, url::Url::parse("s3://[bad").unwrap_err().to_string());
            assert_eq!(m, "invalid IPv6 address");
        },
        _ => panic!("expected a URL error"),
    }
}

fn url(host: Option<&str>, path: &str, text: &str) -> ParsedUrl {
    ParsedUrl { text: text.to_string(), host: host.map(|h| h.to_string()), path: path.to_string() }
}

#[test]
fn bucket_and_key() {
    match object_store_location(&url(Some("bucket"), "//dir/key.parquet", "s3://bucket//dir/key.parquet")) {
        Ok((b, k)) => {
            assert_eq!(b, "bucket");
            assert_eq!(k, "dir/key.parquet");
        },
        Err(_) => panic!("expected a location"),
    }
    match object_store_location(&url(Some("data.parquet"), "/", "s3://data.parquet/")) {
        Err(SourceError::InvalidUrl(m)) => assert_eq!(m, "no bucket in URL: s3://data.parquet/"),
        _ => panic!("expected an invalid URL"),
    }
    match object_store_location(&url(None, "/key", "s3:///key")) {
        Err(SourceError::InvalidUrl(m)) => assert_eq!(m, "no bucket in URL: s3:///key"),
        _ => panic!("expected an invalid URL"),
    }
    match object_store_location(&url(Some("b"), "", "s3://b")) {
        Err(SourceError::InvalidUrl(_)) => {},
        _ => panic!("expected an invalid URL"),
    }
}

#[test]
fn prefixes_and_slashes() {
    assert!(starts_with("s3://x", "s3://"));
    assert!(!starts_with("s3:/", "s3://"));
    assert!(starts_with("abc", ""));
    assert_eq!(trim_start_slashes("///a/b"), "a/b");
    assert_eq!(trim_start_slashes("///"), "");
    assert_eq!(trim_start_slashes("a/"), "a/");
}

#[test]
fn parsed_s3_url_locates_its_object() {
    match FileSource::parse("s3://data.parquet") {
        Ok(FileSource::ObjectStore(u)) => match object_store_location(&u) {
            Err(SourceError::InvalidUrl(m)) => assert_eq!(m, "no bucket in URL: s3://data.parquet"),
            _ => panic!("expected an invalid URL"),
        },
        _ => panic!("expected an object store URL"),
    }
    match FileSource::parse("s3://bucket/dir/file.parquet") {
        Ok(FileSource::ObjectStore(u)) => {
            assert_eq!(object_store_location(&u), Ok(("bucket".to_string(), "dir/file.parquet".to_string())));
        },
        _ => panic!("expected an object store URL"),
    }
}
