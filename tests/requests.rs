use supabase_storage::client::{Body, Method, Request, StorageClient};
use supabase_storage::errors::ClientError;
use supabase_storage::mime::MimeType;
use supabase_storage::text::decimal_string;
use supabase_storage::models::{
    Column, DownloadOptions, FileOptions, FileSearchOptions, Order, SortBy, TransformOptions,
};

fn client() -> StorageClient {
    StorageClient::new("https://demo.supabase.co".to_string(), "key123".to_string())
}

fn header<'a>(req: &'a Request, name: &str) -> Option<&'a str> {
    req.headers.entries.iter().rev().find(|(n, _)| n == name).map(|(_, v)| v.as_str())
}

fn json(req: &Request) -> &str {
    match &req.body {
        Body::Json(s) => s.as_str(),
        other => panic!("expected a JSON body, got {:?}", other),
    }
}

#[test]
fn create_bucket_without_id_uses_name() {
    let req = client()
        .create_bucket_request("a-cool-name-for-a-bucket", None, false, None, None)
        .unwrap();
    assert_eq!(req.method, Method::Post);
    assert_eq!(req.url, "https://demo.supabase.co/storage/v1/bucket");
    assert_eq!(
        json(&req),
        r#"{"id":"a-cool-name-for-a-bucket","name":"a-cool-name-for-a-bucket","public":false,"allowed_mime_types":null,"file_size_limit":null}"#
    );
    assert_eq!(header(&req, "apikey"), Some("key123"));
    assert_eq!(header(&req, "authorization"), Some("Bearer key123"));
    assert_eq!(header(&req, "content-type"), Some("application/json"));
}

#[test]
fn create_bucket_with_id_and_options() {
    let req = client()
        .create_bucket_request(
            "a-totally-different-cool-name-for-a-bucket",
            Some("0190-abc"),
            true,
            Some(vec![MimeType::WAV, MimeType::PNG, MimeType::Custom("image/*")]),
            Some(12431243),
        )
        .unwrap();
    assert_eq!(
        json(&req),
        r#"{"id":"0190-abc","name":"a-totally-different-cool-name-for-a-bucket","public":true,"allowed_mime_types":["audio/wav","image/png","image/*"],"file_size_limit":12431243}"#
    );
}

#[test]
fn json_strings_are_escaped() {
    let req = client().create_bucket_request("a\"b", None, false, Some(vec![]), Some(0)).unwrap();
    assert_eq!(
        json(&req),
        r#"{"id":"a\"b","name":"a\"b","public":false,"allowed_mime_types":[],"file_size_limit":0}"#
    );
}

#[test]
fn delete_bucket_request_shape() {
    let req = client().delete_bucket_request("test_delete_bucket").unwrap();
    assert_eq!(req.method, Method::Delete);
    assert_eq!(req.url, "https://demo.supabase.co/storage/v1/bucket/test_delete_bucket");
    assert!(matches!(req.body, Body::Empty));
    assert_eq!(header(&req, "authorization"), Some("Bearer key123"));
    assert_eq!(header(&req, "apikey"), Some("key123"));
}

#[test]
fn get_and_list_buckets_requests() {
    let get = client().get_bucket_request("example_private_bucket_1").unwrap();
    assert_eq!(get.method, Method::Get);
    assert_eq!(get.url, "https://demo.supabase.co/storage/v1/bucket/example_private_bucket_1");
    assert_eq!(header(&get, "content-type"), Some("application/json"));
    let list = client().list_buckets_request().unwrap();
    assert_eq!(list.method, Method::Get);
    assert_eq!(list.url, "https://demo.supabase.co/storage/v1/bucket");
}

#[test]
fn update_bucket_sends_public_flag() {
    let req = client()
        .update_bucket_request("test_update_bucket", true, None, None)
        .unwrap();
    assert_eq!(req.method, Method::Put);
    assert_eq!(req.url, "https://demo.supabase.co/storage/v1/bucket/test_update_bucket");
    assert_eq!(
        json(&req),
        r#"{"id":"test_update_bucket","public":true,"allowed_mime_types":null,"file_size_limit":null}"#
    );
    assert_eq!(header(&req, "apikey"), Some("key123"));
}

#[test]
fn empty_bucket_request_shape() {
    let req = client().empty_bucket_request("empty_bucket_test").unwrap();
    assert_eq!(req.method, Method::Post);
    assert_eq!(req.url, "https://demo.supabase.co/storage/v1/bucket/empty_bucket_test/empty");
    assert_eq!(header(&req, "apikey"), Some("key123"));
}

#[test]
fn upload_update_and_replace_differ_only_in_verb() {
    let c = client();
    let up = c.upload_file_request("upload_tests", b"byte array".to_vec(), "tests/Upload", None).unwrap();
    let update = c.update_file_request("upload_tests", b"byte array".to_vec(), "tests/Upload", None).unwrap();
    let replace = c.replace_file_request("upload_tests", b"byte array".to_vec(), "tests/Upload", None).unwrap();
    assert_eq!(up.method, Method::Post);
    assert_eq!(update.method, Method::Put);
    assert_eq!(replace.method, Method::Put);
    for r in [&up, &update, &replace] {
        assert_eq!(r.url, "https://demo.supabase.co/storage/v1/object/upload_tests/tests/Upload");
        assert!(matches!(&r.body, Body::Bytes(b) if b.as_slice() == b"byte array"));
        assert_eq!(header(r, "x-upsert"), None);
    }
}

#[test]
fn upload_options_set_headers() {
    let options = FileOptions {
        cache_control: Some(3600),
        content_type: Some("text/plain"),
        duplex: None,
        upsert: true,
    };
    let req = client()
        .upload_file_request("b", vec![1, 2, 3], "p.txt", Some(options))
        .unwrap();
    assert_eq!(header(&req, "cache-control"), Some("3600"));
    assert_eq!(header(&req, "content-type"), Some("text/plain"));
    assert_eq!(header(&req, "x-upsert"), Some("true"));
    let quiet = FileOptions { upsert: false, ..FileOptions::default() };
    let req = client().upload_file_request("b", vec![], "p.txt", Some(quiet)).unwrap();
    assert_eq!(header(&req, "x-upsert"), None);
    assert_eq!(header(&req, "cache-control"), None);
}

#[test]
fn invalid_upload_content_type_is_a_header_error() {
    let options = FileOptions { content_type: Some("text/plain\n"), ..FileOptions::default() };
    let r = client().upload_file_request("b", vec![], "p", Some(options));
    assert!(matches!(r, Err(ClientError::InvalidHeaderValue(_))));
}

#[test]
fn bucket_changes_all_carry_the_api_key() {
    let c = client();
    let reqs = [
        c.create_bucket_request("b", None, false, None, None).unwrap(),
        c.update_bucket_request("b", true, None, None).unwrap(),
        c.empty_bucket_request("b").unwrap(),
        c.delete_bucket_request("b").unwrap(),
    ];
    for r in reqs.iter() {
        assert_eq!(header(r, "apikey"), Some("key123"));
        assert_eq!(header(r, "authorization"), Some("Bearer key123"));
    }
}

#[test]
fn invalid_api_key_is_a_header_error() {
    let c = StorageClient::new("https://demo.supabase.co".to_string(), "bad\u{7f}key".to_string());
    assert!(matches!(c.delete_bucket_request("x"), Err(ClientError::InvalidHeaderValue(_))));
    assert!(matches!(
        c.create_bucket_request("x", None, false, None, None),
        Err(ClientError::InvalidHeaderValue(_))
    ));
}

#[test]
fn download_path_depends_on_transform() {
    let plain = client().download_file_request("list_files", "folder/aaa.jpg", None).unwrap();
    assert_eq!(plain.url, "https://demo.supabase.co/storage/v1/object/list_files/folder/aaa.jpg");
    let options = DownloadOptions {
        transform: Some(TransformOptions {
            width: Some(100),
            height: Some(300),
            resize: Some("cover"),
            format: None,
            quality: Some(80),
        }),
        download: None,
    };
    let rendered = client()
        .download_file_request("list_files", "folder/aaa.jpg", Some(options))
        .unwrap();
    assert_eq!(
        rendered.url,
        "https://demo.supabase.co/storage/v1/render/image/authenticated/list_files/folder/aaa.jpg"
    );
    assert_eq!(rendered.method, Method::Get);
}

#[test]
fn delete_file_request_shape() {
    let req = client().delete_file_request("upload_tests", "tests/Upload").unwrap();
    assert_eq!(req.method, Method::Delete);
    assert_eq!(req.url, "https://demo.supabase.co/storage/v1/object/upload_tests/tests/Upload");
}

#[test]
fn list_files_from_root_by_default() {
    let req = client().list_files_request("list_files", None, None).unwrap();
    assert_eq!(req.method, Method::Post);
    assert_eq!(req.url, "https://demo.supabase.co/storage/v1/object/list/list_files");
    assert_eq!(json(&req), r#"{"prefix":""}"#);
}

#[test]
fn list_files_with_options() {
    let options = FileSearchOptions {
        limit: Some(5),
        offset: Some(1),
        sort_by: Some(SortBy { column: Column::Name, order: Order::Asc }),
        search: Some("photo"),
    };
    let req = client()
        .list_files_request("list_files", Some("folder_of_folders"), Some(options))
        .unwrap();
    assert_eq!(
        json(&req),
        r#"{"limit":5,"offset":1,"sortBy":{"column":"name","order":"asc"},"prefix":"folder_of_folders","search":"photo"}"#
    );
}

#[test]
fn sort_defaults_are_name_ascending() {
    let s = SortBy::default();
    assert_eq!(s.column, Column::Name);
    assert_eq!(s.order, Order::Asc);
    let o = FileSearchOptions::default();
    assert!(o.limit.is_none() && o.offset.is_none() && o.sort_by.is_none() && o.search.is_none());
}

#[test]
fn copy_file_same_bucket() {
    let req = client()
        .copy_file_request("B", None, "x.txt", Some("y.txt"), true)
        .unwrap();
    assert_eq!(req.url, "https://demo.supabase.co/storage/v1/object/copy");
    assert_eq!(
        json(&req),
        r#"{"bucketId":"B","sourceKey":"x.txt","destinationBucket":"B","destinationKey":"y.txt","copyMetadata":true}"#
    );
}

#[test]
fn copy_file_defaults_destination_key() {
    let req = client().copy_file_request("list_files", Some("other"), "3.txt", None, false).unwrap();
    assert_eq!(
        json(&req),
        r#"{"bucketId":"list_files","sourceKey":"3.txt","destinationBucket":"other","destinationKey":"3.txt","copyMetadata":false}"#
    );
}

#[test]
fn move_there_and_back_swaps_source_and_destination() {
    let there = client().move_file_request("list_files", None, "1.txt", "moved.txt").unwrap();
    let back = client().move_file_request("list_files", None, "moved.txt", "1.txt").unwrap();
    assert_eq!(there.url, "https://demo.supabase.co/storage/v1/object/move");
    assert_eq!(
        json(&there),
        r#"{"bucketId":"list_files","sourceKey":"1.txt","destinationBucket":"list_files","destinationKey":"moved.txt"}"#
    );
    assert_eq!(
        json(&back),
        r#"{"bucketId":"list_files","sourceKey":"moved.txt","destinationBucket":"list_files","destinationKey":"1.txt"}"#
    );
}

#[test]
fn signed_url_requests() {
    let req = client().create_signed_url_request("list_files", "3.txt", 12431234, None).unwrap();
    assert_eq!(req.url, "https://demo.supabase.co/storage/v1/object/sign/list_files/3.txt");
    assert_eq!(json(&req), r#"{"expiresIn":12431234}"#);
    let options = DownloadOptions {
        transform: Some(TransformOptions {
            width: Some(100),
            height: None,
            resize: None,
            format: Some("origin"),
            quality: None,
        }),
        download: Some(false),
    };
    let req = client()
        .create_signed_url_request("list_files", "3.txt", 60, Some(options))
        .unwrap();
    assert_eq!(
        json(&req),
        r#"{"expiresIn":60,"transform":{"width":100,"height":null,"resize":null,"format":"origin","quality":null}}"#
    );
    let many = client()
        .create_multiple_signed_urls_request("list_files", vec!["1.txt", "2.txt", "3.txt"], 12431234)
        .unwrap();
    assert_eq!(many.url, "https://demo.supabase.co/storage/v1/object/sign/list_files");
    assert_eq!(json(&many), r#"{"expiresIn":12431234,"paths":["1.txt","2.txt","3.txt"]}"#);
}

#[test]
fn signed_upload_requests() {
    let req = client().create_signed_upload_url_request("list_files", "42.txt").unwrap();
    assert_eq!(req.method, Method::Post);
    assert_eq!(req.url, "https://demo.supabase.co/storage/v1/object/upload/sign/list_files/42.txt");
    let up = client()
        .upload_to_signed_url_request("upload_tests", "tok", b"byte array".to_vec(), "tests/signed_upload", None)
        .unwrap();
    assert_eq!(up.method, Method::Put);
    assert_eq!(
        up.url,
        "https://demo.supabase.co/storage/v1/object/upload/sign/upload_tests/tests/signed_upload?token=tok"
    );
}

#[test]
fn insert_header_normalizes_and_overrides() {
    let c = client().insert_header("Authorization", "Bearer other").unwrap();
    let req = c.delete_bucket_request("x").unwrap();
    assert_eq!(header(&req, "authorization"), Some("Bearer other"));
    assert_eq!(req.headers.entries.iter().filter(|(n, _)| n == "authorization").count(), 1);
    let c = client().insert_header("X-Client-Info", "storage-rs").unwrap();
    assert_eq!(c.headers.entries, vec![("x-client-info".to_string(), "storage-rs".to_string())]);
}

#[test]
fn insert_header_rejects_bad_names_and_values() {
    assert!(matches!(
        client().insert_header("bad name", "v"),
        Err(ClientError::InvalidHeaderName(_))
    ));
    assert!(matches!(client().insert_header("", "v"), Err(ClientError::InvalidHeaderName(_))));
    assert!(matches!(
        client().insert_header("x-ok", "line\nbreak"),
        Err(ClientError::InvalidHeaderValue(_))
    ));
    assert!(client().insert_header("x-ok", "tab\tand ünïcode").is_ok());
}

#[test]
fn largest_size_limit_is_written_in_full() {
    let req = client()
        .create_bucket_request("big", Some("big"), false, None, Some(u64::MAX))
        .unwrap();
    assert_eq!(
        json(&req),
        r#"{"id":"big","name":"big","public":false,"allowed_mime_types":null,"file_size_limit":18446744073709551615}"#
    );
}

#[test]
fn decimal_numerals() {
    assert_eq!(decimal_string(0), "0");
    assert_eq!(decimal_string(9), "9");
    assert_eq!(decimal_string(10), "10");
    assert_eq!(decimal_string(12431243), "12431243");
}

#[test]
fn default_headers_reach_every_request() {
    let c = client().insert_header("x-client-info", "storage-rs/0.1").unwrap();
    let req = c.list_buckets_request().unwrap();
    assert_eq!(header(&req, "x-client-info"), Some("storage-rs/0.1"));
    assert_eq!(header(&req, "authorization"), Some("Bearer key123"));
}
