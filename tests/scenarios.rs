use supabase_storage::client::{Body, Method, Request, StorageClient};
use supabase_storage::mime::MimeType;
use supabase_storage::models::{
    Bucket, BucketResponse, Column, CopyFileResponse, CreateBucketResponse, FileSearchOptions,
    Order, SignedUrlResponse, SortBy,
};
use supabase_storage::responses::{
    copy_file_response, create_bucket_response, decode_response, delete_bucket_response,
    download_file_response, message_response, signed_upload_url_response,
};

fn create_test_client() -> StorageClient {
    StorageClient::new("https://project.supabase.co".to_string(), "service-key".to_string())
}

fn body_text(req: &Request) -> &str {
    match &req.body {
        Body::Json(s) => s.as_str(),
        other => panic!("expected a JSON body, got {:?}", other),
    }
}

fn bucket(name: &str, public: bool, types: Option<Vec<String>>, limit: Option<i64>) -> Bucket {
    Bucket {
        id: name.to_string(),
        name: name.to_string(),
        owner: String::new(),
        public,
        file_size_limit: limit,
        allowed_mime_types: types,
        created_at: "2024-01-01T00:00:00Z".to_string(),
        updated_at: "2024-01-01T00:00:00Z".to_string(),
    }
}

fn created(name: &str) -> String {
    let answer = CreateBucketResponse { name: name.to_string() };
    create_bucket_response(200, format!("{{\"name\":\"{}\"}}", name), Some(answer)).unwrap()
}

#[test]
fn test_create_bucket() {
    let client = create_test_client();
    let req = client
        .create_bucket_request("a-cool-name-for-a-bucket", None, false, None, None)
        .unwrap();
    assert!(body_text(&req).starts_with(r#"{"id":"a-cool-name-for-a-bucket","name":"a-cool-name-for-a-bucket","#));
    let bucket_name = created("a-cool-name-for-a-bucket");
    assert_eq!(bucket_name, "a-cool-name-for-a-bucket");
    let del = client.delete_bucket_request("a-cool-name-for-a-bucket").unwrap();
    assert_eq!(del.url, "https://project.supabase.co/storage/v1/bucket/a-cool-name-for-a-bucket");

    let bucket_id = "01900000-0000-7000-8000-000000000000";
    let req = client
        .create_bucket_request(
            "a-totally-different-cool-name-for-a-bucket",
            Some(bucket_id),
            false,
            None,
            None,
        )
        .unwrap();
    assert!(body_text(&req).starts_with(
        r#"{"id":"01900000-0000-7000-8000-000000000000","name":"a-totally-different-cool-name-for-a-bucket","#
    ));
    let new_name = created("a-totally-different-cool-name-for-a-bucket");
    assert_eq!("a-totally-different-cool-name-for-a-bucket", new_name);
}

#[test]
fn test_create_bucket_with_options() {
    let client = create_test_client();
    let req = client
        .create_bucket_request(
            "a-cool-name-for-a-bucket-with-options",
            None,
            false,
            Some(vec![MimeType::WAV, MimeType::PNG, MimeType::Custom("image/*")]),
            Some(12431243),
        )
        .unwrap();
    assert!(body_text(&req).ends_with(
        r#""allowed_mime_types":["audio/wav","image/png","image/*"],"file_size_limit":12431243}"#
    ));
    let name = created("a-cool-name-for-a-bucket-with-options");
    let stored = bucket(
        "a-cool-name-for-a-bucket-with-options",
        false,
        Some(vec!["audio/wav".to_string(), "image/png".to_string(), "image/*".to_string()]),
        Some(12431243),
    );
    let bucket = decode_response(200, String::new(), Some(stored)).unwrap();
    assert!(bucket.allowed_mime_types.is_some() && 12431243 == bucket.file_size_limit.unwrap());
    assert_eq!(name, "a-cool-name-for-a-bucket-with-options");
}

#[test]
fn test_list_buckets() {
    let client = create_test_client();
    let req = client.list_buckets_request().unwrap();
    assert_eq!(req.method, Method::Get);
    let listed = vec![bucket("example_private_bucket_1", false, None, None), bucket("test_bucket_for_list", false, None, Some(0))];
    let buckets = decode_response(200, String::new(), Some(listed)).unwrap();
    assert!(
        buckets.iter().any(|bucket| bucket.name == "test_bucket_for_list"),
        "test_bucket_for_list should exist in buckets"
    );
}

#[test]
fn test_get_bucket() {
    let client = create_test_client();
    let req = client.get_bucket_request("example_private_bucket_1").unwrap();
    assert_eq!(req.url, "https://project.supabase.co/storage/v1/bucket/example_private_bucket_1");
    let bucket = decode_response(200, String::new(), Some(bucket("example_private_bucket_1", false, None, None))).unwrap();
    assert!(bucket.name == "example_private_bucket_1")
}

#[test]
fn test_delete_bucket() {
    let client = create_test_client();
    let bucket = created("test_delete_bucket");
    assert_eq!(bucket, "test_delete_bucket");
    let req = client.delete_bucket_request("test_delete_bucket").unwrap();
    assert_eq!(req.method, Method::Delete);
    let delete = delete_bucket_response(200, "{\"message\":\"Successfully deleted\"}".to_string());
    assert!(delete.is_ok())
}

#[test]
fn test_update_bucket() {
    let client = create_test_client();
    client
        .create_bucket_request(
            "test_update_bucket",
            None,
            false,
            Some(vec![MimeType::WAV, MimeType::PNG, MimeType::Custom("")]),
            Some(12431243),
        )
        .unwrap();
    let req = client.update_bucket_request("test_update_bucket", true, None, None).unwrap();
    assert!(body_text(&req).contains(r#""public":true"#));
    let bucket = decode_response(200, String::new(), Some(bucket("test_update_bucket", true, None, Some(12431243)))).unwrap();
    assert!(bucket.public);
    let delete = delete_bucket_response(200, String::new());
    assert!(delete.is_ok());
}

#[test]
fn test_empty_bucket() {
    let client = create_test_client();
    let bytes = "byte array".as_bytes().to_vec();
    let _upload = client.upload_file_request("empty_bucket_test", bytes, "empty_test", None);
    let req = client.empty_bucket_request("empty_bucket_test").unwrap();
    assert_eq!(req.url, "https://project.supabase.co/storage/v1/bucket/empty_bucket_test/empty");
    let answer = BucketResponse { message: "Successfully emptied".to_string() };
    let empty = message_response(200, String::new(), Some(answer)).unwrap();
    assert!(empty == "Successfully emptied")
}

#[test]
fn test_upload_file() {
    let client = create_test_client();
    let bytes = "byte array".as_bytes().to_vec();
    let upload = client.upload_file_request("upload_tests", bytes, "tests/Upload", None);
    assert!(upload.is_ok());
    client.delete_file_request("upload_tests", "tests/Upload").unwrap();
}

#[test]
fn test_upload_to_signed_url() {
    let client = create_test_client();
    let bytes = "byte array".as_bytes().to_vec();
    client.create_signed_upload_url_request("upload_tests", "tests/signed_upload").unwrap();
    let signed = "/object/upload/sign/upload_tests/tests/signed_upload?token=eyJhbGciOiJIUzI1NiJ9.e30.sig";
    let upload = signed_upload_url_response(200, String::new(), Some(signed.to_string())).unwrap();
    let req = client
        .upload_to_signed_url_request("upload_tests", &upload.token, bytes, "tests/signed_upload", None)
        .unwrap();
    assert!(req.url.ends_with("?token=eyJhbGciOiJIUzI1NiJ9.e30.sig"));
    client.delete_file_request("upload_tests", "tests/signed_upload").unwrap();
}

#[test]
fn test_update_file() {
    let client = create_test_client();
    let bytes = "updated byte array".as_bytes().to_vec();
    let new_bytes = "updated byte array".as_bytes().to_vec();
    let _upload = client.upload_file_request("upload_tests", bytes.clone(), "tests/Update", None).unwrap();
    let file = download_file_response(200, bytes.clone()).unwrap();
    assert_eq!(file, bytes);
    let update = client
        .update_file_request("upload_tests", new_bytes.clone(), "/tests/Update", None)
        .unwrap();
    assert_eq!(update.method, Method::Put);
    let file = download_file_response(200, new_bytes.clone()).unwrap();
    assert_eq!(file, new_bytes);
    client.delete_file_request("upload_tests", "tests/Update").unwrap();
}

#[test]
fn test_list_files() {
    let client = create_test_client();
    let options = FileSearchOptions {
        limit: Some(5),
        offset: Some(1),
        sort_by: Some(SortBy { column: Column::Name, order: Order::Asc }),
        search: None,
    };
    let root = client.list_files_request("list_files", None, Some(options.clone())).unwrap();
    assert_eq!(
        body_text(&root),
        r#"{"limit":5,"offset":1,"sortBy":{"column":"name","order":"asc"},"prefix":""}"#
    );
    let folders = client.list_files_request("list_files", Some("folder_of_folders"), None).unwrap();
    assert_eq!(body_text(&folders), r#"{"prefix":"folder_of_folders"}"#);
    let empty = client.list_files_request("list_files", Some("inner_folder"), None).unwrap();
    assert_eq!(body_text(&empty), r#"{"prefix":"inner_folder"}"#);
    let nothing: Vec<u8> = Vec::new();
    let empty_folder = decode_response(200, "[]".to_string(), Some(nothing)).unwrap();
    assert!(empty_folder.len() == 0);
}

#[test]
fn test_download_file() {
    let client = create_test_client();
    let req = client.download_file_request("list_files", "/folder/aaa.jpg", None).unwrap();
    assert_eq!(req.url, "https://project.supabase.co/storage/v1/object/list_files//folder/aaa.jpg");
}

#[test]
fn test_copy_file() {
    let client = create_test_client();
    let req = client
        .copy_file_request("list_files", None, "3.txt", Some("folder/4.txt"), true)
        .unwrap();
    assert_eq!(
        body_text(&req),
        r#"{"bucketId":"list_files","sourceKey":"3.txt","destinationBucket":"list_files","destinationKey":"folder/4.txt","copyMetadata":true}"#
    );
    let answer = CopyFileResponse { key: "list_files/folder/4.txt".to_string() };
    let key = copy_file_response(200, String::new(), Some(answer)).unwrap();
    assert!(key == "list_files/folder/4.txt");
    client.delete_file_request("list_files", "folder/4.txt").unwrap();
}

#[test]
fn test_create_signed_upload_url() {
    let client = create_test_client();
    client.create_signed_upload_url_request("list_files", "42.txt").unwrap();
}

#[test]
fn test_create_multiple_signed_urls() {
    let client = create_test_client();
    let req = client
        .create_multiple_signed_urls_request("list_files", vec!["1.txt", "2.txt", "3.txt"], 12431234)
        .unwrap();
    assert_eq!(body_text(&req), r#"{"expiresIn":12431234,"paths":["1.txt","2.txt","3.txt"]}"#);
    let answer = vec![
        SignedUrlResponse { signed_url: "/object/sign/list_files/1.txt?token=a".to_string() },
        SignedUrlResponse { signed_url: "/object/sign/list_files/2.txt?token=b".to_string() },
        SignedUrlResponse { signed_url: "/object/sign/list_files/3.txt?token=c".to_string() },
    ];
    let urls = client.multiple_signed_urls_response(200, String::new(), Some(answer)).unwrap();
    assert!(urls.len() >= 3)
}

#[test]
fn test_get_public_url() {
    let client = create_test_client();
    client.get_public_url("list_files", "1.txt", None).unwrap();
}

#[test]
fn test_move_file() {
    let client = create_test_client();
    client.move_file_request("list_files", None, "1.txt", "moved.txt").unwrap();
    let moved = message_response(200, String::new(), Some(BucketResponse { message: "Successfully moved".to_string() })).unwrap();
    assert_eq!(moved, "Successfully moved");
    client.move_file_request("list_files", None, "moved.txt", "1.txt").unwrap();
    let moved_back = message_response(200, String::new(), Some(BucketResponse { message: "Successfully moved".to_string() })).unwrap();
    assert_eq!(moved_back, "Successfully moved");
}
